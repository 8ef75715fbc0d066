use cargo_berth::presentation::actionable_board_notices_block;
use cargo_berth::presentation::ambiguous_first_touch_block;
use cargo_berth::presentation::automatic_widening_block;
use cargo_berth::presentation::coordination_identity_block;
use cargo_berth::presentation::engine_message_block;
use cargo_berth::presentation::lost_integration_evidence_block;
use cargo_berth::presentation::orphaned_outstanding_block;
use cargo_berth::presentation::outstanding_incursion_block;
use cargo_berth::presentation::replay_failure_block;
use cargo_berth::presentation::unverifiable_incursion_block;
use cargo_berth::presentation::EnvelopePresentation;

#[test]
fn explicit_nothing_is_distinct_from_missing_presentation() {
    assert_ne!(
        EnvelopePresentation::nothing_to_show(),
        EnvelopePresentation::NotProvided
    );
}

#[test]
fn engine_message_block_keeps_the_engine_words() {
    let block = engine_message_block("Engine heading.", "Engine detail.");
    assert_eq!(block.summary, "Engine heading.");
    assert_eq!(block.detail, "Engine detail.");
}

#[test]
fn ambiguous_first_touch_block_names_every_candidate() {
    let block = ambiguous_first_touch_block(
        "Choose one reservation.",
        &["reservation-a".to_owned(), "reservation-b".to_owned()],
    );
    assert!(block.detail.contains("- `reservation-a`"));
    assert!(block.detail.contains("- `reservation-b`"));
}

#[test]
fn coordination_identity_block_carries_the_recovery_action() {
    let block = coordination_identity_block(
        "Identity rejected.",
        "stale_session_mapping",
        "`cargo-berth identity clear-session --json`",
    );
    assert_eq!(
        block.detail,
        "COORDINATION IDENTITY: stale_session_mapping requires one recovery action before continuing: `cargo-berth identity clear-session --json`"
    );
}

#[test]
fn replay_failure_block_names_the_subject_and_command() {
    let block = replay_failure_block(
        "Invalid history.",
        "unknown_reservation",
        "reservation reservation-a",
    );
    assert!(
        block
            .detail
            .contains("unknown_reservation for reservation reservation-a")
    );
    assert!(
        block
            .detail
            .contains("cargo-berth init --reinitialize-after-review --json")
    );
}

#[test]
fn automatic_widening_block_names_the_reservation_and_scopes() {
    let block = automatic_widening_block(
        "reservation-a",
        &["file:first.rs".to_owned(), "file:second.rs".to_owned()],
    );
    assert_eq!(
        block.detail,
        "AUTO-WIDEN: reservation reservation-a now covers file:first.rs, file:second.rs"
    );
}

#[test]
fn outstanding_incursion_block_names_the_board_confirmed_incursion() {
    let block = outstanding_incursion_block(
        "reservation-a",
        &["foreign.rs".to_owned()],
        &["reservation-b".to_owned()],
        "incident-a",
        "",
    );
    assert!(block.contains("reservation reservation-a entered foreign.rs"));
    assert!(block.contains("incident incident-a"));
}

#[test]
fn unverifiable_incursion_block_requires_an_immediate_stop() {
    let block = unverifiable_incursion_block();
    assert!(block.detail.starts_with("STOP:"));
}

#[test]
fn lost_integration_evidence_block_preserves_the_recovery_command() {
    let block = lost_integration_evidence_block(
        "Run `cargo-berth resolve reservation-a --integrated-as trunk-a`.",
    );
    assert!(block.detail.contains("--integrated-as trunk-a"));
}

#[test]
fn actionable_board_notices_block_counts_its_details() {
    let block = actionable_board_notices_block(&[
        "First notice.".to_owned(),
        "Second notice.".to_owned(),
    ]);
    assert_eq!(
        block.summary,
        "cargo-berth found 2 actionable coordination notice(s)."
    );
    assert_eq!(block.detail, "First notice.\nSecond notice.");
}

#[test]
fn orphaned_outstanding_block_carries_every_recovery_command() {
    let block = orphaned_outstanding_block(
        "reservation-a",
        "protected-tip-a",
        "commit_unavailable",
        &[
            "resolve reservation-a --retire-orphan --why <reason>".to_owned(),
            "resolve reservation-a --abandon --why <reason>".to_owned(),
        ],
    );
    assert!(block.contains("--retire-orphan --why <reason>"));
    assert!(block.contains("--abandon --why <reason>"));
}

#[test]
fn replacing_a_presentation_leaves_exactly_one_block() {
    let mut presentation = EnvelopePresentation::NotProvided;
    presentation.replace_with(engine_message_block("Heading.", "Detail."));
    match presentation {
        EnvelopePresentation::RenderedBlocks { blocks } => {
            assert_eq!(blocks.len(), 1);
            assert_eq!(blocks[0].summary, "Heading.");
            assert_eq!(blocks[0].detail, "Detail.");
        },
        other => panic!("expected rendered blocks, found {other:?}"),
    }
}

#[test]
fn actionable_board_notices_block_counts_ten_or_more_in_decimal() {
    let details: Vec<String> = (0..12).map(|index| format!("Notice {index}.")).collect();
    let block = actionable_board_notices_block(&details);
    assert_eq!(
        block.summary,
        "cargo-berth found 12 actionable coordination notice(s)."
    );
}
