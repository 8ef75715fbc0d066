use cargo_berth::output::envelope::ConfigError;
use cargo_berth::output::envelope::LedgerError;
use cargo_berth::output::envelope::OutputEnvelope;
use cargo_berth::output::envelope::PostCommitRendering;
use cargo_berth::output::hook::LEDGER_UNREADABLE_FAIL_OPEN_MESSAGE;
use cargo_berth::output::payload::InitializationResource;
use cargo_berth::output::payload::LedgerInitialization;
use cargo_berth::output::payload::OutputFacts;
use cargo_berth::output::replay::ReplayFailureEffect;
use cargo_berth::output::replay::ReplayFailureSubject;
use cargo_berth::output::replay::ReservationReplayError;
use cargo_berth::output::status::BerthExit;
use cargo_berth::output::status::CommandVerb;
use cargo_berth::output::status::OutputStatus;
use cargo_berth::presentation::EnvelopePresentation;
use cargo_berth::reservation::lifecycle::LifecycleTransitionError;

const REPLAY_RESERVATION_ID: &str = "01991f4d-77d8-7f5f-9a1f-000000000001";

#[test]
fn named_replay_failures_carry_exact_reasons_subjects_and_hard_stops() {
    let reservation_id = REPLAY_RESERVATION_ID.to_owned();
    for (error, reason) in [
        (
            ReservationReplayError::WidenRequiresUnreleased(reservation_id.clone()),
            "widen_requires_unreleased",
        ),
        (
            ReservationReplayError::InvalidLifecycleTransition(
                reservation_id.clone(),
                LifecycleTransitionError::ResnapshotRequiresOutstanding,
            ),
            "resnapshot_requires_outstanding",
        ),
        (
            ReservationReplayError::IntegrationProofSubjectRevisionExhausted(reservation_id.clone()),
            "integration_proof_subject_revision_exhausted",
        ),
        (
            ReservationReplayError::ActiveScopedPatchComparison(reservation_id.clone()),
            "active_scoped_patch_comparison",
        ),
        (
            ReservationReplayError::IntegrationProofSubjectMismatch(reservation_id.clone()),
            "integration_proof_subject_mismatch",
        ),
    ] {
        let envelope = OutputEnvelope::replay_failure(CommandVerb::Release, &error, "replay stopped");
        match &envelope.payload.facts {
            OutputFacts::ReplayFailure(payload) => {
                assert_eq!(payload.reason.wire_name(), reason);
                assert_eq!(
                    payload.subject,
                    ReplayFailureSubject::Reservation(REPLAY_RESERVATION_ID.to_owned())
                );
                assert_eq!(payload.effect, ReplayFailureEffect::HardStop);
            },
            other => panic!("expected replay failure facts, found {other:?}"),
        }
        assert_eq!(envelope.status.wire_name(), "ledger_unreadable");
        assert_eq!(envelope.exit_code, BerthExit::LedgerUnreadable);
    }
}

#[test]
fn init_has_a_non_placeholder_status() {
    let output_envelope = OutputEnvelope::initialized(
        LedgerInitialization {
            ledger: InitializationResource::Created,
            configuration: InitializationResource::Existing,
        },
        Vec::new(),
    );

    assert_eq!(output_envelope.status, OutputStatus::Initialized);
    assert_eq!(output_envelope.exit_code, BerthExit::Clear);
}

#[test]
fn failed_init_has_no_initialization_facts() {
    let output_envelope = OutputEnvelope::ledger_unreadable(CommandVerb::Init, "bad journal");

    assert_eq!(output_envelope.payload.facts, OutputFacts::NoFacts);
}

#[test]
fn unconfigured_and_unreadable_checks_have_distinct_presentations_at_exit_four() {
    let expected_configuration_path = ".harness/config/berth.toml";
    let malformed = LedgerError::Config(ConfigError::UnknownKey("porthole".to_owned()));

    let unconfigured = OutputEnvelope::unconfigured(CommandVerb::Check, expected_configuration_path);
    let ledger_unreadable = OutputEnvelope::ledger_error(CommandVerb::Check, &malformed);

    assert_eq!(unconfigured.status, OutputStatus::Unconfigured);
    assert_eq!(ledger_unreadable.status, OutputStatus::LedgerUnreadable);
    assert_eq!(unconfigured.exit_code, BerthExit::LedgerUnreadable);
    assert_eq!(ledger_unreadable.exit_code, BerthExit::LedgerUnreadable);
    assert_eq!(unconfigured.presentation, EnvelopePresentation::NothingToShow);
    assert!(matches!(
        &ledger_unreadable.presentation,
        EnvelopePresentation::RenderedBlocks { blocks }
            if matches!(
                blocks.as_slice(),
                [block]
                    if block.summary == LEDGER_UNREADABLE_FAIL_OPEN_MESSAGE
                        && block.detail == ledger_unreadable.message
            )
    ));
    assert!(unconfigured.message.contains(expected_configuration_path));
}

#[test]
fn ledger_error_keeps_its_prefix_for_a_malformed_configuration() {
    let malformed = LedgerError::Config(ConfigError::UnknownKey("porthole".to_owned()));

    let unreadable = OutputEnvelope::ledger_error(CommandVerb::Init, &malformed);

    assert_eq!(unreadable.status, OutputStatus::LedgerUnreadable);
    assert_eq!(unreadable.presentation, EnvelopePresentation::NotProvided);
    assert!(unreadable.message.ends_with(&malformed.message()));
    assert!(
        unreadable
            .message
            .contains("ledger configuration failed: unknown berth configuration key: porthole")
    );
}

#[test]
fn unconfigured_post_commit_rendering_is_silent() {
    let output_envelope = OutputEnvelope::unconfigured(CommandVerb::Drift, ".harness/config/berth.toml");

    assert_eq!(output_envelope.presentation, EnvelopePresentation::NothingToShow);
    assert!(matches!(
        output_envelope.post_commit_rendering(),
        PostCommitRendering::Silent
    ));
}

#[test]
fn terminal_view_failure_has_its_own_status_and_exit_code() {
    let output_envelope =
        OutputEnvelope::terminal_view_failed_after_board_opened("terminal disconnected");

    assert_eq!(output_envelope.status, OutputStatus::TerminalViewFailed);
    assert_eq!(output_envelope.exit_code, BerthExit::TerminalViewFailed);
    assert_eq!(output_envelope.payload.facts, OutputFacts::NoFacts);
    assert!(output_envelope.message.contains("terminal disconnected"));
    assert!(output_envelope.message.contains("cargo-berth board --json"));
}

#[test]
fn post_commit_warnings_name_why_the_commit_went_unchecked() {
    let unreadable = OutputEnvelope::ledger_unreadable(CommandVerb::Drift, "bad journal");
    assert_eq!(
        unreadable.post_commit_rendering(),
        PostCommitRendering::Warning(
            "cargo-berth could not check this commit's drift because the ledger was unreadable. The reservation ledger could not be read: bad journal Run `cargo-berth drift --full` by hand; this commit remains in place.".to_owned()
        )
    );
    let contention = OutputEnvelope::contention_on(
        CommandVerb::Drift,
        "lock held",
        cargo_berth::output::hook::EngineAnswerOccasion::DirectInvocation,
        5,
    );
    assert_eq!(
        contention.post_commit_rendering(),
        PostCommitRendering::Warning(
            "cargo-berth could not check this commit's drift because the ledger lock deadline was exhausted. lock held Run `cargo-berth drift --full` by hand; this commit remains in place.".to_owned()
        )
    );
    let invalid = OutputEnvelope::invalid_input(CommandVerb::Drift, "bad request");
    assert_eq!(
        invalid.post_commit_rendering(),
        PostCommitRendering::Warning(
            "cargo-berth could not complete the post-commit drift check. bad request Run `cargo-berth drift --full` by hand; this commit remains in place.".to_owned()
        )
    );
}

#[test]
fn every_hook_read_verb_reports_an_unreadable_ledger_in_its_own_words() {
    let board = OutputEnvelope::ledger_unreadable(CommandVerb::Board, "bad journal");
    match &board.presentation {
        EnvelopePresentation::RenderedBlocks { blocks } => {
            assert_eq!(blocks.len(), 1);
            assert_eq!(blocks[0].summary, "cargo-berth could not read the reservation ledger.");
            assert_eq!(
                blocks[0].detail,
                "The reservation ledger could not be read: bad journal Run `cargo-berth board --json` again after repairing the ledger."
            );
        },
        other => panic!("expected one block, found {other:?}"),
    }
    let claim = OutputEnvelope::ledger_unreadable(CommandVerb::Claim, "bad journal");
    assert_eq!(claim.presentation, EnvelopePresentation::NotProvided);
}

#[test]
fn contention_after_bash_states_the_spent_retry_budget() {
    let drift = OutputEnvelope::contention_on(
        CommandVerb::Drift,
        "lock held",
        cargo_berth::output::hook::EngineAnswerOccasion::CompletedBashCall,
        12,
    );
    assert_eq!(drift.status, OutputStatus::Contention);
    assert_eq!(drift.exit_code, BerthExit::BlockedByContention);
    match &drift.presentation {
        EnvelopePresentation::RenderedBlocks { blocks } => {
            assert_eq!(
                blocks[0].summary,
                "cargo-berth exhausted its ledger-lock deadline after Bash."
            );
            assert_eq!(
                blocks[0].detail,
                "lock held The engine already spent its single 12-second retry budget; it was not invoked again."
            );
        },
        other => panic!("expected one block, found {other:?}"),
    }
}
