use cargo_berth::output::envelope::OutputEnvelope;
use cargo_berth::output::envelope::PostToolUseRendering;
use cargo_berth::output::identity::coordination_identity_summary;
use cargo_berth::output::identity::CoordinationIdentityRejection;
use cargo_berth::output::integration::IntegrationPayload;
use cargo_berth::output::payload::OutputFacts;
use cargo_berth::output::status::BerthExit;
use cargo_berth::output::status::CommandVerb;
use cargo_berth::output::status::OutputStatus;
use cargo_berth::presentation::EnvelopePresentation;

fn rejection() -> CoordinationIdentityRejection {
    CoordinationIdentityRejection {
        kind: "inactive_coordination_run".to_owned(),
        reservation_ids: vec!["r1".to_owned(), "r2".to_owned()],
        description: "Coordination run run-7 no longer owns active work.".to_owned(),
        recovery_actions: "unset CARGO_BERTH_RUN".to_owned(),
    }
}

fn only_block(presentation: &EnvelopePresentation) -> (String, String) {
    match presentation {
        EnvelopePresentation::RenderedBlocks { blocks } if blocks.len() == 1 => {
            (blocks[0].summary.clone(), blocks[0].detail.clone())
        },
        other => panic!("expected one block, found {other:?}"),
    }
}

#[test]
fn coordination_identity_summary_names_the_verb() {
    assert_eq!(
        coordination_identity_summary(CommandVerb::Check),
        "cargo-berth rejected this edit under the current coordination identity."
    );
    assert_eq!(
        coordination_identity_summary(CommandVerb::Board),
        "cargo-berth rejected this SessionStart read under the current coordination identity."
    );
    assert_eq!(
        coordination_identity_summary(CommandVerb::Drift),
        "cargo-berth rejected drift under the current coordination identity."
    );
    assert_eq!(
        coordination_identity_summary(CommandVerb::Integrate),
        "cargo-berth rejected this command under the current coordination identity."
    );
}

#[test]
fn integration_rejection_keeps_the_inactive_identity_source() {
    let envelope = OutputEnvelope::integration_rejected("r9".to_owned(), rejection());
    assert_eq!(envelope.verb, CommandVerb::Integrate);
    assert_eq!(envelope.status, OutputStatus::InvalidInput);
    assert_eq!(envelope.exit_code, BerthExit::UsageError);
    assert_eq!(envelope.reservations, vec!["r9".to_owned()]);
    assert!(envelope.blocked_by.is_empty());
    assert_eq!(envelope.message, "Coordination run run-7 no longer owns active work.");
    let (summary, detail) = only_block(&envelope.presentation);
    assert_eq!(summary, "cargo-berth rejected integration for reservation r9.");
    assert_eq!(detail, "Coordination run run-7 no longer owns active work.");
    assert_eq!(
        envelope.payload.facts,
        OutputFacts::Integrate(IntegrationPayload::Rejected { reason: rejection() })
    );
}

#[test]
fn coordination_identity_rejection_presents_its_hook_feedback() {
    let envelope = OutputEnvelope::coordination_identity_rejected(CommandVerb::Check, rejection());
    assert_eq!(envelope.status, OutputStatus::InvalidInput);
    assert_eq!(envelope.exit_code, BerthExit::UsageError);
    assert_eq!(envelope.reservations, vec!["r1".to_owned(), "r2".to_owned()]);
    assert_eq!(envelope.message, "Coordination run run-7 no longer owns active work.");
    let (summary, detail) = only_block(&envelope.presentation);
    assert_eq!(summary, "cargo-berth rejected this edit under the current coordination identity.");
    assert_eq!(
        detail,
        "COORDINATION IDENTITY: inactive_coordination_run requires one recovery action before continuing: unset CARGO_BERTH_RUN"
    );
    match envelope.post_tool_use_rendering() {
        PostToolUseRendering::Feedback { summary: said, detail: explained } => {
            assert_eq!(said, summary);
            assert_eq!(explained, detail);
        },
        other => panic!("expected feedback, found {other:?}"),
    }
}
