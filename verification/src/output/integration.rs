//! What the integration gate decided about entering trunk, and the words a response states
//! it in.
use vstd::prelude::*;

use crate::ids::ForcedIntegrationPermitId;
use crate::ids::GitObjectId;
use crate::ids::named;
use crate::ids::same_text;
use crate::ids::wire_ordered;
use crate::ids::wire_ordered_texts;
use crate::ids::ReservationId;
use crate::output::claim::purpose_description;
use crate::output::claim::purpose_text;
use crate::output::claim::render_scopes;
use crate::output::claim::rendered_scopes;
use crate::output::claim::source_description;
use crate::output::claim::source_text;
use crate::output::envelope::answers;
use crate::output::envelope::OutputEnvelope;
use crate::output::envelope::OutputPayload;
use crate::output::envelope::OUTPUT_CONTRACT_VERSION;
use crate::output::hook::engine_result_presentation;
use crate::output::hook::presents;
use crate::output::identity::CoordinationIdentityRejection;
use crate::output::payload::OutputFacts;
use crate::output::payload::SequencePayload;
use crate::output::status::BerthExit;
use crate::output::status::CommandVerb;
use crate::output::status::OutputStatus;
use crate::reservation::conflict::ClaimSource;
use crate::reservation::conflict::ReservationPurpose;
use crate::scope::ReservationScopeSet;
use crate::text::concat2;
use crate::text::concat3;
use crate::text::escaped;
use crate::text::shell_double_quoted;
use crate::text::texts;

verus! {

/// Why an unintegrated predecessor is not on trunk.
#[derive(Clone, Copy, Debug, PartialEq, Eq, Structural)]
pub enum UnintegratedPredecessorEvidence {
    /// The predecessor never entered trunk.
    NotIntegrated,
    /// Trunk was rewritten past the predecessor's recorded integration.
    TrunkRewritten,
    /// Git could not resolve an object the evidence needs.
    ObjectUnknown,
}

/// What an ordering edge is still waiting for.
#[derive(Clone, Copy, Debug, PartialEq, Eq, Structural)]
pub enum EdgeHold {
    /// The predecessor has no protected checkpoint yet.
    AwaitingPredecessorCheckpoint,
    /// The predecessor is not on trunk.
    PredecessorNotOnTrunk {
        /// Why it is not.
        evidence: UnintegratedPredecessorEvidence,
    },
    /// The successor has not incorporated the integrated predecessor.
    AwaitingSuccessorIncorporation,
}

/// Where an ordering edge stands.
#[derive(Clone, Copy, Debug, PartialEq, Eq, Structural)]
pub enum EdgeReadiness {
    /// The edge still holds its successor.
    Holding {
        /// What it waits for.
        hold: EdgeHold,
    },
    /// The edge was cancelled.
    Cancelled,
    /// The edge was fulfilled.
    Fulfilled,
}

impl EdgeReadiness {
    /// Whether the edge still holds its successor.
    pub fn holds_successor(&self) -> (holds: bool)
        ensures
            holds == (*self is Holding),
    {
        match self {
            EdgeReadiness::Holding { .. } => true,
            _ => false,
        }
    }
}

/// One durable ordering edge: a predecessor that must enter trunk before its successor.
#[derive(Debug, PartialEq, Eq)]
pub struct OrderingEdge {
    /// The edge.
    pub edge_id: String,
    /// The predecessor.
    pub before: ReservationId,
    /// The successor.
    pub after: ReservationId,
    /// The paths the edge covers.
    pub scopes: ReservationScopeSet,
    /// The recorded reason for the edge.
    pub reason: String,
}

/// One exact hold on a reservation's integration.
#[derive(Debug, PartialEq, Eq)]
pub enum IntegrationHold {
    /// A recorded ordering edge waits on a predecessor.
    OrderingEdge {
        /// The edge.
        edge_id: String,
        /// The reservation the edge waits on.
        predecessor: ReservationId,
        /// The paths the edge covers.
        scopes: ReservationScopeSet,
        /// The recorded reason for the edge.
        reason: String,
        /// Where the edge stands.
        readiness: EdgeReadiness,
    },
    /// An overlap was deferred and never sequenced.
    DeferredOverlap {
        /// The reservation that deferred.
        deferred: ReservationId,
        /// The reservation it deferred to.
        blocker: ReservationId,
        /// The overlapping paths.
        scopes: ReservationScopeSet,
        /// The recorded reason for the deferral.
        reason: String,
    },
}

/// A reservation named in an integration decision, with what a reader needs to judge it.
#[derive(Debug, PartialEq, Eq)]
pub struct IntegrationReservation {
    /// The reservation.
    pub reservation_id: ReservationId,
    /// How it was acquired.
    pub source: ClaimSource,
    /// Why it protects its paths.
    pub purpose: ReservationPurpose,
    /// The paths it protects.
    pub scopes: ReservationScopeSet,
}

/// One entering reservation held back from trunk, with its blockers and exact holds.
#[derive(Debug, PartialEq, Eq)]
pub struct IntegrationViolation {
    /// The entering reservation.
    pub reservation: IntegrationReservation,
    /// The reservations that block it.
    pub blocking_reservations: Vec<IntegrationReservation>,
    /// Every exact hold.
    pub holds: Vec<IntegrationHold>,
}

/// How a successful integration related to current gate policy.
#[derive(Debug, PartialEq, Eq)]
pub enum IntegratedGateOutcome {
    /// No integration constraint held the reservation.
    Clear,
    /// Observe-only policy logged holds that enforcing mode would reject.
    Observed {
        /// The holds reported without rejecting the update.
        violations: Vec<IntegrationViolation>,
    },
    /// A one-use permit was issued and consumed by the update.
    Forced {
        /// The durable permit identity.
        permit_id: ForcedIntegrationPermitId,
        /// Holds on other entering reservations reported by observe-only policy.
        observed_violations: Vec<IntegrationViolation>,
    },
}

/// Typed outcomes returned by `integrate` that this library reports.
#[derive(Debug, PartialEq, Eq)]
pub enum IntegrationPayload {
    /// The selected reservation entered trunk.
    Integrated {
        /// The reservation whose protected work entered trunk.
        reservation_id: ReservationId,
        /// The main object against which the update was validated.
        previous: GitObjectId,
        /// The new main object installed by the update.
        proposed: GitObjectId,
        /// The journal generation validated under the decision lock.
        generation: u64,
        /// How gate policy treated the update.
        gate: IntegratedGateOutcome,
    },
    /// Enforcing policy refused an out-of-order update.
    Blocked {
        /// The reservation the caller asked to integrate.
        reservation_id: ReservationId,
        /// The journal generation validated under the decision lock.
        generation: u64,
        /// Every exact hold that prevented integration.
        violations: Vec<IntegrationViolation>,
    },
    /// Caller identity named a coordination run that no longer owns active work.
    Rejected {
        /// The reason integration could not select active work.
        reason: CoordinationIdentityRejection,
    },
}

/// The pieces written one after another.
pub open spec fn concatenated(pieces: Seq<Seq<char>>) -> Seq<char>
    decreases pieces.len(),
{
    if pieces.len() == 0 {
        Seq::empty()
    } else {
        concatenated(pieces.drop_last()) + pieces.last()
    }
}

/// The recovery that releases an ordering edge in its current state.
pub open spec fn edge_recovery(predecessor: Seq<char>, readiness: EdgeReadiness) -> Seq<char> {
    match readiness {
        EdgeReadiness::Holding { hold } => match hold {
            EdgeHold::AwaitingPredecessorCheckpoint => "run cargo-berth release "@ + predecessor
                + " after checkpointing it"@,
            EdgeHold::PredecessorNotOnTrunk { evidence } => match evidence {
                UnintegratedPredecessorEvidence::NotIntegrated => "run cargo-berth integrate "@
                    + predecessor,
                UnintegratedPredecessorEvidence::TrunkRewritten =>
                    "re-record verified evidence with cargo-berth resolve "@ + predecessor
                    + " --integrated-as <trunk-oid>"@,
                UnintegratedPredecessorEvidence::ObjectUnknown =>
                    "repair the unresolvable git object, then rerun the integration"@,
            },
            EdgeHold::AwaitingSuccessorIncorporation =>
                "rebase this worktree onto current main so it incorporates the predecessor"@,
        },
        _ => "rerun the "@ + "gate because this edge is no longer holding"@,
    }
}

/// The reservation on the other side of a deferral from the subject.
pub open spec fn deferral_counterpart(
    subject: ReservationId,
    deferred: ReservationId,
    blocker: ReservationId,
) -> ReservationId {
    if deferred@ == subject@ {
        blocker
    } else {
        deferred
    }
}

/// The sentence stating one hold on the subject's integration and its recovery.
pub open spec fn hold_text(subject: ReservationId, hold: IntegrationHold) -> Seq<char> {
    match hold {
        IntegrationHold::OrderingEdge { edge_id, predecessor, scopes, reason, readiness } =>
            "Ordering edge "@ + edge_id@ + " waits on reservation "@ + predecessor@
            + "; covered paths: "@ + rendered_scopes(scopes.scopes()) + "; recorded reason: "@
            + reason@ + "; recovery: "@ + edge_recovery(predecessor@, readiness) + "."@,
        IntegrationHold::DeferredOverlap { deferred, blocker, scopes, reason } => {
            let counterpart = deferral_counterpart(subject, deferred, blocker);
            "Unresolved deferral with reservation "@ + counterpart@ + "; covered paths: "@
                + rendered_scopes(scopes.scopes()) + "; recorded reason: "@ + reason@
                + "; recovery: cargo-berth sequence "@ + counterpart@ + " "@ + subject@
                + " --why \""@ + escaped(reason@) + "\"."@
        },
    }
}

/// State one hold on the subject's integration and its recovery.
pub fn integration_hold_message(subject: &ReservationId, hold: &IntegrationHold) -> (message:
    String)
    ensures
        message@ == hold_text(*subject, *hold),
{
    match hold {
        IntegrationHold::OrderingEdge { edge_id, predecessor, scopes, reason, readiness } => {
            let recovery = match readiness {
                EdgeReadiness::Holding { hold } => match hold {
                    EdgeHold::AwaitingPredecessorCheckpoint => concat3(
                        "run cargo-berth release ",
                        predecessor.as_str(),
                        " after checkpointing it",
                    ),
                    EdgeHold::PredecessorNotOnTrunk { evidence } => match evidence {
                        UnintegratedPredecessorEvidence::NotIntegrated => concat2(
                            "run cargo-berth integrate ",
                            predecessor.as_str(),
                        ),
                        UnintegratedPredecessorEvidence::TrunkRewritten => concat3(
                            "re-record verified evidence with cargo-berth resolve ",
                            predecessor.as_str(),
                            " --integrated-as <trunk-oid>",
                        ),
                        UnintegratedPredecessorEvidence::ObjectUnknown =>
                            "repair the unresolvable git object, then rerun the integration".to_owned(),
                    },
                    EdgeHold::AwaitingSuccessorIncorporation =>
                        "rebase this worktree onto current main so it incorporates the predecessor".to_owned(),
                },
                _ => concat2("rerun the ", "gate because this edge is no longer holding"),
            };
            let covered = render_scopes(scopes);
            let mut message = concat3("Ordering edge ", edge_id.as_str(), " waits on reservation ");
            message.append(predecessor.as_str());
            message.append("; covered paths: ");
            message.append(covered.as_str());
            message.append("; recorded reason: ");
            message.append(reason.as_str());
            message.append("; recovery: ");
            message.append(recovery.as_str());
            message.append(".");
            message
        },
        IntegrationHold::DeferredOverlap { deferred, blocker, scopes, reason } => {
            let counterpart = if same_text(deferred, subject) {
                blocker
            } else {
                deferred
            };
            let covered = render_scopes(scopes);
            let quoted = shell_double_quoted(reason.as_str());
            let mut message = concat3(
                "Unresolved deferral with reservation ",
                counterpart.as_str(),
                "; covered paths: ",
            );
            message.append(covered.as_str());
            message.append("; recorded reason: ");
            message.append(reason.as_str());
            message.append("; recovery: cargo-berth sequence ");
            message.append(counterpart.as_str());
            message.append(" ");
            message.append(subject.as_str());
            message.append(" --why \"");
            message.append(quoted.as_str());
            message.append("\".");
            message
        },
    }
}

/// The line naming one reservation of an integration decision.
pub open spec fn reservation_line(opening: Seq<char>, reservation: IntegrationReservation) -> Seq<
    char,
> {
    opening + reservation.reservation_id@ + ": "@ + source_text(reservation.source)
        + "; purpose: "@ + purpose_text(reservation.purpose) + "; protected paths: "@
        + rendered_scopes(reservation.scopes.scopes()) + "."@
}

/// The lines a held entering reservation contributes: itself, each blocker, then each hold.
pub open spec fn violation_text(violation: IntegrationViolation) -> Seq<char> {
    let subject = violation.reservation.reservation_id;
    reservation_line("\nEntering reservation "@, violation.reservation) + concatenated(
        violation.blocking_reservations@.map_values(
            |blocker: IntegrationReservation| reservation_line("\nBlocking reservation "@, blocker),
        ),
    ) + concatenated(
        violation.holds@.map_values(|hold: IntegrationHold| "\n"@ + hold_text(subject, hold)),
    )
}

/// The message of an enforcing gate denial: the refusal, every held entering reservation
/// with its blockers and holds, and the deliberate ways past.
pub open spec fn blocked_integration_text(
    reservation_id: ReservationId,
    violations: Seq<IntegrationViolation>,
) -> Seq<char> {
    "Reservation "@ + reservation_id@ + " cannot enter main while its integration order is held."@
        + concatenated(
        violations.map_values(|violation: IntegrationViolation| violation_text(violation)),
    ) + "\nTo deliberately proceed once: cargo-berth integrate "@ + reservation_id@
        + " --force --why \"<reason>\". Last resort: CARGO_BERTH_BYPASS=1 <git command>."@
}

/// Write the line naming one reservation of an integration decision.
fn reservation_line_text(opening: &str, reservation: &IntegrationReservation) -> (line: String)
    ensures
        line@ == reservation_line(opening@, *reservation),
{
    let source = source_description(&reservation.source);
    let purpose = purpose_description(&reservation.purpose);
    let scopes = render_scopes(&reservation.scopes);
    let mut line = concat3(opening, reservation.reservation_id.as_str(), ": ");
    line.append(source.as_str());
    line.append("; purpose: ");
    line.append(purpose.as_str());
    line.append("; protected paths: ");
    line.append(scopes.as_str());
    line.append(".");
    line
}

/// Write the lines a held entering reservation contributes.
fn violation_lines(violation: &IntegrationViolation) -> (text: String)
    ensures
        text@ == violation_text(*violation),
{
    let subject = &violation.reservation.reservation_id;
    let mut text = reservation_line_text("\nEntering reservation ", &violation.reservation);
    let ghost opening = text@;
    let ghost blocker_lines = violation.blocking_reservations@.map_values(
        |blocker: IntegrationReservation| reservation_line("\nBlocking reservation "@, blocker),
    );
    let mut index: usize = 0;
    while index < violation.blocking_reservations.len()
        invariant
            index <= blocker_lines.len(),
            blocker_lines.len() == violation.blocking_reservations@.len(),
            blocker_lines == violation.blocking_reservations@.map_values(
                |blocker: IntegrationReservation| reservation_line("\nBlocking reservation "@, blocker),
            ),
            text@ == opening + concatenated(blocker_lines.take(index as int)),
        decreases blocker_lines.len() - index,
    {
        let line = reservation_line_text("\nBlocking reservation ", &violation.blocking_reservations[index]);
        assert(blocker_lines.take(index + 1).drop_last() =~= blocker_lines.take(index as int));
        text.append(line.as_str());
        index += 1;
    }
    assert(blocker_lines.take(blocker_lines.len() as int) =~= blocker_lines);
    let ghost middle = text@;
    let ghost hold_lines = violation.holds@.map_values(
        |hold: IntegrationHold| "\n"@ + hold_text(*subject, hold),
    );
    let mut position: usize = 0;
    while position < violation.holds.len()
        invariant
            position <= hold_lines.len(),
            hold_lines.len() == violation.holds@.len(),
            hold_lines == violation.holds@.map_values(
                |hold: IntegrationHold| "\n"@ + hold_text(*subject, hold),
            ),
            text@ == middle + concatenated(hold_lines.take(position as int)),
        decreases hold_lines.len() - position,
    {
        let line = integration_hold_message(subject, &violation.holds[position]);
        assert(hold_lines.take(position + 1).drop_last() =~= hold_lines.take(position as int));
        text.append("\n");
        text.append(line.as_str());
        assert(text@ =~= middle + concatenated(hold_lines.take(position + 1)));
        position += 1;
    }
    assert(hold_lines.take(hold_lines.len() as int) =~= hold_lines);
    text
}

/// State an enforcing gate denial: the refusal, every held entering reservation with its
/// blockers and holds, and the deliberate ways past.
pub fn integration_blocked_message(
    reservation_id: &ReservationId,
    violations: &[IntegrationViolation],
) -> (message: String)
    ensures
        message@ == blocked_integration_text(*reservation_id, violations@),
{
    let mut message = concat3(
        "Reservation ",
        reservation_id.as_str(),
        " cannot enter main while its integration order is held.",
    );
    let ghost opening = message@;
    let ghost pieces = violations@.map_values(
        |violation: IntegrationViolation| violation_text(violation),
    );
    let mut index: usize = 0;
    while index < violations.len()
        invariant
            index <= pieces.len(),
            pieces.len() == violations@.len(),
            pieces == violations@.map_values(
                |violation: IntegrationViolation| violation_text(violation),
            ),
            message@ == opening + concatenated(pieces.take(index as int)),
        decreases pieces.len() - index,
    {
        let piece = violation_lines(&violations[index]);
        assert(pieces.take(index + 1).drop_last() =~= pieces.take(index as int));
        message.append(piece.as_str());
        index += 1;
    }
    assert(pieces.take(pieces.len() as int) =~= pieces);
    message.append("\nTo deliberately proceed once: cargo-berth integrate ");
    message.append(reservation_id.as_str());
    message.append(" --force --why \"<reason>\". Last resort: CARGO_BERTH_BYPASS=1 <git command>.");
    message
}

/// The reservations that block one held entering reservation, in order.
pub open spec fn violation_blockers(violation: IntegrationViolation) -> Seq<ReservationId> {
    violation.blocking_reservations@.map_values(
        |blocker: IntegrationReservation| blocker.reservation_id,
    )
}

/// Every reservation that blocks a held entering reservation, in the order the violations
/// name them.
pub open spec fn integration_blocker_candidates(violations: Seq<IntegrationViolation>) -> Seq<
    ReservationId,
>
    decreases violations.len(),
{
    if violations.len() == 0 {
        Seq::empty()
    } else {
        integration_blocker_candidates(violations.drop_last()) + violation_blockers(
            violations.last(),
        )
    }
}

/// Every reservation that blocks the held entering reservations, each named once, in wire
/// order.
pub fn integration_blockers(violations: &[IntegrationViolation]) -> (blockers: Vec<ReservationId>)
    ensures
        wire_ordered(blockers@),
        named(blockers@) == named(integration_blocker_candidates(violations@)),
{
    let mut candidates: Vec<ReservationId> = Vec::new();
    let mut index: usize = 0;
    while index < violations.len()
        invariant
            index <= violations@.len(),
            candidates@ == integration_blocker_candidates(violations@.take(index as int)),
        decreases violations@.len() - index,
    {
        assert(violations@.take(index + 1).drop_last() =~= violations@.take(index as int));
        let violation = &violations[index];
        let ghost before = candidates@;
        let mut position: usize = 0;
        while position < violation.blocking_reservations.len()
            invariant
                position <= violation.blocking_reservations@.len(),
                candidates@ == before + violation_blockers(*violation).take(position as int),
            decreases violation.blocking_reservations@.len() - position,
        {
            candidates.push(violation.blocking_reservations[position].reservation_id.clone());
            assert(candidates@ =~= before + violation_blockers(*violation).take(position + 1));
            position += 1;
        }
        assert(violation_blockers(*violation).take(
            violation.blocking_reservations@.len() as int,
        ) =~= violation_blockers(*violation));
        index += 1;
    }
    assert(violations@.take(violations@.len() as int) =~= violations@);
    wire_ordered_texts(candidates.as_slice())
}

/// The message of a successful integration under this gate outcome.
pub open spec fn integrated_text(reservation_id: ReservationId, gate: IntegratedGateOutcome) -> Seq<
    char,
> {
    match gate {
        IntegratedGateOutcome::Forced { permit_id, .. } => "Integrated reservation "@
            + reservation_id@ + " using one-use permit "@ + permit_id@ + "."@,
        IntegratedGateOutcome::Clear => "Integrated reservation "@ + reservation_id@ + "; "@
            + "the ordering gate was clear"@ + "."@,
        IntegratedGateOutcome::Observed { .. } => "Integrated reservation "@ + reservation_id@
            + "; "@ + "observe-only policy reported an ordering hold"@ + "."@,
    }
}

/// The message recording an ordering edge.
pub open spec fn sequenced_text(edge: OrderingEdge) -> Seq<char> {
    "Recorded ordering edge "@ + edge.edge_id@ + ": "@ + edge.before@ + " before "@ + edge.after@
        + "."@
}

impl OutputEnvelope {
    /// Report a recorded ordering edge: both reservations, and the predecessor as a blocker
    /// while the edge still holds its successor.
    pub fn sequenced(edge: OrderingEdge, readiness: EdgeReadiness) -> (envelope: Self)
        ensures
            answers(
                envelope,
                CommandVerb::Sequence,
                OutputStatus::Sequenced,
                seq![edge.before, edge.after],
                if readiness is Holding {
                    seq![edge.before]
                } else {
                    Seq::empty()
                },
                sequenced_text(edge),
            ),
            presents(
                envelope.presentation,
                "cargo-berth recorded ordering edge "@ + edge.edge_id@ + "."@,
                sequenced_text(edge),
            ),
            envelope.payload.facts == OutputFacts::Sequence(
                SequencePayload::Sequenced { edge, readiness },
            ),
    {
        let mut message = concat3("Recorded ordering edge ", edge.edge_id.as_str(), ": ");
        message.append(edge.before.as_str());
        message.append(" before ");
        message.append(edge.after.as_str());
        message.append(".");
        let summary = concat3("cargo-berth recorded ordering edge ", edge.edge_id.as_str(), ".");
        let presentation = engine_result_presentation(summary.as_str(), message.as_str());
        let reservations = vec![edge.before.clone(), edge.after.clone()];
        assert(reservations@ =~= seq![edge.before, edge.after]);
        let blocked_by = if readiness.holds_successor() {
            let blocked_by = vec![edge.before.clone()];
            assert(blocked_by@ =~= seq![edge.before]);
            blocked_by
        } else {
            Vec::new()
        };
        OutputEnvelope {
            output_contract_version: OUTPUT_CONTRACT_VERSION,
            verb: CommandVerb::Sequence,
            status: OutputStatus::Sequenced,
            exit_code: BerthExit::Clear,
            reservations,
            blocked_by,
            message,
            presentation,
            payload: OutputPayload::from_facts(
                OutputFacts::Sequence(SequencePayload::Sequenced { edge, readiness }),
            ),
        }
    }

    /// Report a successful trunk update after its locked gate decision; a payload that is not
    /// an integration is an invalid request.
    pub fn integrated(integration_payload: IntegrationPayload) -> (envelope: Self)
        ensures
            match integration_payload {
                IntegrationPayload::Integrated { reservation_id, gate, .. } => {
                    &&& answers(
                        envelope,
                        CommandVerb::Integrate,
                        OutputStatus::Integrated,
                        seq![reservation_id],
                        Seq::empty(),
                        integrated_text(reservation_id, gate),
                    )
                    &&& presents(
                        envelope.presentation,
                        "cargo-berth integrated reservation "@ + reservation_id@ + "."@,
                        integrated_text(reservation_id, gate),
                    )
                    &&& envelope.payload.facts == OutputFacts::Integrate(integration_payload)
                },
                _ => answers(
                    envelope,
                    CommandVerb::Integrate,
                    OutputStatus::InvalidInput,
                    Seq::empty(),
                    Seq::empty(),
                    "an integrated response requires an integrated payload"@,
                ),
            },
    {
        let (reservation_id, message) = match &integration_payload {
            IntegrationPayload::Integrated { reservation_id, gate, .. } => {
                let message = match gate {
                    IntegratedGateOutcome::Forced { permit_id, .. } => {
                        let mut message = concat3(
                            "Integrated reservation ",
                            reservation_id.as_str(),
                            " using one-use permit ",
                        );
                        message.append(permit_id.as_str());
                        message.append(".");
                        message
                    },
                    IntegratedGateOutcome::Clear => {
                        let mut message = concat3("Integrated reservation ", reservation_id.as_str(), "; ");
                        message.append("the ordering gate was clear");
                        message.append(".");
                        message
                    },
                    IntegratedGateOutcome::Observed { .. } => {
                        let mut message = concat3("Integrated reservation ", reservation_id.as_str(), "; ");
                        message.append("observe-only policy reported an ordering hold");
                        message.append(".");
                        message
                    },
                };
                (reservation_id.clone(), message)
            },
            _ => {
                return Self::invalid_input(
                    CommandVerb::Integrate,
                    "an integrated response requires an integrated payload",
                );
            },
        };
        let summary = concat3("cargo-berth integrated reservation ", reservation_id.as_str(), ".");
        let presentation = engine_result_presentation(summary.as_str(), message.as_str());
        let ghost named = reservation_id;
        let reservations = vec![reservation_id];
        assert(reservations@ =~= seq![named]);
        OutputEnvelope {
            output_contract_version: OUTPUT_CONTRACT_VERSION,
            verb: CommandVerb::Integrate,
            status: OutputStatus::Integrated,
            exit_code: BerthExit::Clear,
            reservations,
            blocked_by: Vec::new(),
            message,
            presentation,
            payload: OutputPayload::from_facts(OutputFacts::Integrate(integration_payload)),
        }
    }

    /// Report an enforcing gate denial with every holder and the exact holds.
    pub fn integration_blocked(
        reservation_id: ReservationId,
        generation: u64,
        violations: Vec<IntegrationViolation>,
    ) -> (envelope: Self)
        ensures
            answers(
                envelope,
                CommandVerb::Integrate,
                OutputStatus::BlockedByOrdering,
                seq![reservation_id],
                envelope.blocked_by@,
                blocked_integration_text(reservation_id, violations@),
            ),
            wire_ordered(envelope.blocked_by@),
            named(envelope.blocked_by@) == named(integration_blocker_candidates(violations@)),
            presents(
                envelope.presentation,
                "cargo-berth refused integration for reservation "@ + reservation_id@ + "."@,
                blocked_integration_text(reservation_id, violations@),
            ),
            envelope.payload.facts == OutputFacts::Integrate(
                IntegrationPayload::Blocked { reservation_id, generation, violations },
            ),
    {
        let blocked_by = integration_blockers(violations.as_slice());
        let message = integration_blocked_message(&reservation_id, violations.as_slice());
        let summary = concat3(
            "cargo-berth refused integration for reservation ",
            reservation_id.as_str(),
            ".",
        );
        let presentation = engine_result_presentation(summary.as_str(), message.as_str());
        let reservations = vec![reservation_id.clone()];
        assert(reservations@ =~= seq![reservation_id]);
        OutputEnvelope {
            output_contract_version: OUTPUT_CONTRACT_VERSION,
            verb: CommandVerb::Integrate,
            status: OutputStatus::BlockedByOrdering,
            exit_code: BerthExit::BlockedByOrdering,
            reservations,
            blocked_by,
            message,
            presentation,
            payload: OutputPayload::from_facts(
                OutputFacts::Integrate(IntegrationPayload::Blocked { reservation_id, generation, violations }),
            ),
        }
    }
}

} // verus!
