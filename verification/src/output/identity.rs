//! Responses to a caller whose coordination identity no longer selects active work.
use vstd::prelude::*;

use crate::ids::clone_texts;
use crate::ids::ReservationId;
use crate::output::envelope::answers;
use crate::output::envelope::OutputEnvelope;
use crate::output::envelope::OutputPayload;
use crate::output::envelope::OUTPUT_CONTRACT_VERSION;
use crate::output::hook::engine_result_presentation;
use crate::output::hook::presents;
use crate::output::integration::IntegrationPayload;
use crate::output::payload::OutputFacts;
use crate::output::status::BerthExit;
use crate::output::status::CommandVerb;
use crate::output::status::OutputStatus;
use crate::presentation::EnvelopePresentation;
use crate::presentation::coordination_identity_detail;
use crate::text::concat3;

verus! {

/// Why coordination-identity validation refused the caller, as a response reports it.
#[derive(Debug, PartialEq, Eq)]
pub struct CoordinationIdentityRejection {
    /// The rejection's stable wire kind.
    pub kind: String,
    /// The reservations the rejection names.
    pub reservation_ids: Vec<ReservationId>,
    /// The rejection's full sentence.
    pub description: String,
    /// The one recovery action the caller must take before continuing.
    pub recovery_actions: String,
}

/// The summary a coordination-identity rejection states for each verb.
pub open spec fn coordination_identity_summary_text(verb: CommandVerb) -> Seq<char> {
    match verb {
        CommandVerb::Check => "cargo-berth rejected this edit under the current coordination identity."@,
        CommandVerb::Board => "cargo-berth rejected this SessionStart read under the current coordination identity."@,
        CommandVerb::Drift => "cargo-berth rejected drift under the current coordination identity."@,
        _ => "cargo-berth rejected this command under the current coordination identity."@,
    }
}

/// State a coordination-identity rejection in the terms of the verb that hit it.
pub fn coordination_identity_summary(verb: CommandVerb) -> (summary: &'static str)
    ensures
        summary@ == coordination_identity_summary_text(verb),
{
    match verb {
        CommandVerb::Check => "cargo-berth rejected this edit under the current coordination identity.",
        CommandVerb::Board => "cargo-berth rejected this SessionStart read under the current coordination identity.",
        CommandVerb::Drift => "cargo-berth rejected drift under the current coordination identity.",
        _ => "cargo-berth rejected this command under the current coordination identity.",
    }
}

/// The summary of a refused integration.
pub open spec fn integration_rejected_summary(reservation_id: ReservationId) -> Seq<char> {
    "cargo-berth rejected integration for reservation "@ + reservation_id@ + "."@
}

impl OutputEnvelope {
    /// Build an integration rejection that retains the inactive identity source.
    pub fn integration_rejected(
        reservation_id: ReservationId,
        reason: CoordinationIdentityRejection,
    ) -> (envelope: Self)
        ensures
            answers(
                envelope,
                CommandVerb::Integrate,
                OutputStatus::InvalidInput,
                seq![reservation_id],
                Seq::empty(),
                reason.description@,
            ),
            presents(
                envelope.presentation,
                integration_rejected_summary(reservation_id),
                reason.description@,
            ),
            envelope.payload.facts == OutputFacts::Integrate(IntegrationPayload::Rejected { reason }),
    {
        let message = reason.description.clone();
        let summary = concat3(
            "cargo-berth rejected integration for reservation ",
            reservation_id.as_str(),
            ".",
        );
        let presentation = engine_result_presentation(summary.as_str(), message.as_str());
        let reservations = vec![reservation_id.clone()];
        assert(reservations@ =~= seq![reservation_id]);
        let blocked_by: Vec<ReservationId> = Vec::new();
        assert(blocked_by@ =~= Seq::<ReservationId>::empty());
        OutputEnvelope {
            output_contract_version: OUTPUT_CONTRACT_VERSION,
            verb: CommandVerb::Integrate,
            status: OutputStatus::InvalidInput,
            exit_code: BerthExit::UsageError,
            reservations,
            blocked_by,
            message,
            presentation,
            payload: OutputPayload::from_facts(OutputFacts::Integrate(IntegrationPayload::Rejected { reason })),
        }
    }

    /// Build a shared coordination-identity rejection for a validating command: the
    /// presentation is the feedback the post-tool-use hook publishes for it.
    pub fn coordination_identity_rejected(
        command_verb: CommandVerb,
        reason: CoordinationIdentityRejection,
    ) -> (envelope: Self)
        ensures
            answers(
                envelope,
                command_verb,
                OutputStatus::InvalidInput,
                reason.reservation_ids@,
                Seq::empty(),
                reason.description@,
            ),
            presents(
                envelope.presentation,
                coordination_identity_summary_text(command_verb),
                coordination_identity_detail(reason.kind@, reason.recovery_actions@),
            ),
            envelope.payload.facts == OutputFacts::CoordinationIdentity(reason),
    {
        let reservations = clone_texts(&reason.reservation_ids);
        let message = reason.description.clone();
        let blocked_by: Vec<ReservationId> = Vec::new();
        assert(blocked_by@ =~= Seq::<ReservationId>::empty());
        let mut envelope = OutputEnvelope {
            output_contract_version: OUTPUT_CONTRACT_VERSION,
            verb: command_verb,
            status: OutputStatus::InvalidInput,
            exit_code: BerthExit::UsageError,
            reservations,
            blocked_by,
            message,
            presentation: EnvelopePresentation::NotProvided,
            payload: OutputPayload::from_facts(OutputFacts::CoordinationIdentity(reason)),
        };
        envelope.refresh_post_tool_use_presentation();
        envelope
    }
}

} // verus!
