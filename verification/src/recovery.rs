//! User-confirmed orphan recovery, rewritten integration, retirement, and renewal: the
//! decisions each request makes against the replayed ledger, and the responses they produce.
use vstd::prelude::*;

use crate::ids::same_text;
use crate::ids::CoordinationRunId;
use crate::ids::EventId;
use crate::ids::IncursionIncidentId;
use crate::ids::RecordedAt;
use crate::ids::ReservationId;
use crate::ids::WorktreeId;
use crate::output::alert::alerts_not_about;
use crate::output::alert::retain_alerts_not_about;
use crate::output::alert::Alert;
use crate::output::envelope::answers;
use crate::output::envelope::ledger_error_text;
use crate::output::envelope::ledger_unreadable_message;
use crate::output::envelope::ConfigError;
use crate::output::envelope::LedgerError;
use crate::output::envelope::OutputEnvelope;
use crate::output::hook::EngineAnswerOccasion;
use crate::output::payload::ResolvePayload;
use crate::output::payload::SessionIdentityMappingPublication;
use crate::output::hook::presents;
use crate::output::payload::OutputFacts;
use crate::output::release::duplicate_resolution_message;
use crate::output::release::resolve_message;
use crate::output::release::resolve_status;
use crate::output::release::resolve_subject;
use crate::output::replay::ReservationReplayError;
use crate::output::status::CommandVerb;
use crate::output::status::OutputStatus;
use crate::reconcile::error::LedgerTransactionError;
use crate::reservation::lifecycle::IntegrationEvidenceStatus;
use crate::reservation::lifecycle::Reachability;
use crate::reservation::lifecycle::ReleaseDisposition;
use crate::reservation::lifecycle::ReservationLifecycle;
use crate::reservation::lifecycle::RewrittenIntegrationTrunkCommit;
use crate::reservation::lifecycle::AbandonmentReason;
use crate::reservation::lifecycle::OrphanRetirementReason;
use crate::reservation::record::JournalActor;
use crate::reservation::record::Reservation;
use crate::text::concat3;
use crate::text::concat5;

verus! {

/// Whether a resolution leaves the resolved reservation's alerts standing: an incursion answer
/// does; every other decision settles what they warned of.
pub open spec fn resolution_keeps_alerts(payload: ResolvePayload) -> bool {
    payload is IncursionResolved || payload is RecordedNow
        || payload is AlreadyRecordedBySameCoordinationActor
}

/// The response to one confirmed recovery decision, carrying the alerts of the
/// reconciliation that preceded it: those about the resolved reservation are dropped unless
/// the decision only answered an incursion.
pub fn resolution_response(
    resolve_payload: ResolvePayload,
    resolved_reservation_id: &ReservationId,
    alerts: Vec<Alert>,
) -> (envelope: OutputEnvelope)
    ensures
        answers(
            envelope,
            CommandVerb::Resolve,
            resolve_status(resolve_payload),
            seq![resolve_subject(resolve_payload)],
            Seq::empty(),
            resolve_message(resolve_payload),
        ),
        envelope.payload.facts == OutputFacts::Resolve(resolve_payload),
        envelope.payload.alerts@ == if resolution_keeps_alerts(resolve_payload) {
            alerts@
        } else {
            alerts_not_about(alerts@, resolved_reservation_id@)
        },
        resolve_payload is AlreadyRecordedByDifferentCoordinationActor ==> presents(
            envelope.presentation,
            "cargo-berth rejected a duplicate incursion resolution."@,
            resolve_message(resolve_payload),
        ),
        !(resolve_payload is AlreadyRecordedByDifferentCoordinationActor) ==> presents(
            envelope.presentation,
            "cargo-berth resolved reservation "@ + resolve_subject(resolve_payload)@ + "."@,
            resolve_message(resolve_payload),
        ),
{
    let keeps = match &resolve_payload {
        ResolvePayload::IncursionResolved { .. } => true,
        ResolvePayload::RecordedNow { .. } => true,
        ResolvePayload::AlreadyRecordedBySameCoordinationActor { .. } => true,
        _ => false,
    };
    let attached = if keeps {
        alerts
    } else {
        retain_alerts_not_about(alerts, resolved_reservation_id)
    };
    OutputEnvelope::resolved(resolve_payload).with_alerts(attached)
}

/// The mutually exclusive reservation recovery decisions.
#[derive(Debug, PartialEq, Eq)]
pub enum ReservationRecoveryDecision {
    /// Move surviving work to the invoking replacement worktree.
    Recovered,
    /// Record a verified alternate commit already reachable from trunk.
    IntegratedAs(RewrittenIntegrationTrunkCommit),
    /// Record deliberate user-confirmed abandonment.
    Abandon(AbandonmentReason),
    /// Retire a confirmed orphan while preserving that distinct audit outcome.
    RetireOrphan(OrphanRetirementReason),
}

/// A replay failure together with its own account of itself.
#[derive(Debug, PartialEq, Eq)]
pub struct ReplayFault {
    /// The violated replay invariant.
    pub error: ReservationReplayError,
    /// The failure's own account of itself.
    pub description: String,
}

/// Why the ledger refused a recovery request.
#[derive(Debug, PartialEq, Eq)]
pub enum RecoveryRejection {
    /// No retained reservation has the named identity.
    UnknownReservation,
    /// No recorded incursion incident has the named identity.
    UnknownIncursionIncident(IncursionIncidentId),
    /// Another worktree coordination run already resolved the incident.
    IncursionIncidentAlreadyResolvedByDifferentCoordinationActor {
        /// The reservation named by the request.
        reservation_id: ReservationId,
        /// The incident already resolved.
        incident_id: IncursionIncidentId,
        /// Who resolved it.
        resolving_actor: JournalActor,
        /// The event that recorded the resolution.
        resolution_event_id: EventId,
        /// When it was recorded.
        resolved_at: RecordedAt,
    },
    /// The incident belongs to another reservation.
    IncursionReservationMismatch {
        /// The incident named by the request.
        incident_id: IncursionIncidentId,
        /// The reservation named by the request.
        reservation_id: ReservationId,
    },
    /// The reservation has no outstanding incursion incident to answer.
    NoOutstandingIncursion(ReservationId),
    /// Replay rejected the journal.
    Replay(ReplayFault),
    /// Rewritten integration needs a protected checkpoint first.
    CheckpointRequired,
    /// The reservation already has a terminal disposition.
    AlreadyResolved,
    /// Recovery must move work to a replacement worktree.
    SameWorktreeRecovery,
    /// The `--integrated-as` commit is not reachable from trunk.
    UnreachableIntegrationEvidence,
    /// A git query failed; `description` is its own account.
    Git { description: String },
    /// Ordering-edge replay failed; `description` is its own account.
    EdgeReplay { description: String },
}

/// The account a rejection gives of itself.
pub open spec fn rejection_text(rejection: RecoveryRejection) -> Seq<char> {
    match rejection {
        RecoveryRejection::UnknownReservation => "the reservation does not exist"@,
        RecoveryRejection::UnknownIncursionIncident(incident_id) => "incursion incident "@
            + incident_id@ + " does not exist"@,
        RecoveryRejection::IncursionIncidentAlreadyResolvedByDifferentCoordinationActor {
            incident_id,
            resolving_actor,
            resolution_event_id,
            resolved_at,
            ..
        } => "incursion incident "@ + incident_id@ + " was already resolved by worktree "@
            + resolving_actor.worktree@ + " in coordination run "@ + resolving_actor.run@
            + ", event "@ + resolution_event_id@ + " at "@ + resolved_at@,
        RecoveryRejection::IncursionReservationMismatch { incident_id, reservation_id } =>
            "incursion incident "@ + incident_id@ + " does not belong to reservation "@
            + reservation_id@,
        RecoveryRejection::NoOutstandingIncursion(reservation_id) => "reservation "@
            + reservation_id@ + " has no outstanding incursion incident"@,
        RecoveryRejection::Replay(fault) => fault.description@,
        RecoveryRejection::CheckpointRequired =>
            "the reservation must have a protected checkpoint first; cargo-berth release records one"@,
        RecoveryRejection::AlreadyResolved => "the reservation is already resolved"@,
        RecoveryRejection::SameWorktreeRecovery =>
            "--recovered requires a replacement worktree with a new identity"@,
        RecoveryRejection::UnreachableIntegrationEvidence =>
            "the --integrated-as commit must resolve in this repository and be reachable from trunk"@,
        RecoveryRejection::Git { description } => description@,
        RecoveryRejection::EdgeReplay { description } => description@,
    }
}

impl RecoveryRejection {
    /// The account this rejection gives of itself.
    pub fn message(&self) -> (text: String)
        ensures
            text@ == rejection_text(*self),
    {
        match self {
            RecoveryRejection::UnknownReservation => "the reservation does not exist".to_owned(),
            RecoveryRejection::UnknownIncursionIncident(incident_id) => concat3(
                "incursion incident ",
                incident_id.as_str(),
                " does not exist",
            ),
            RecoveryRejection::IncursionIncidentAlreadyResolvedByDifferentCoordinationActor {
                incident_id,
                resolving_actor,
                resolution_event_id,
                resolved_at,
                ..
            } => {
                let mut text = concat5(
                    "incursion incident ",
                    incident_id.as_str(),
                    " was already resolved by worktree ",
                    resolving_actor.worktree.as_str(),
                    " in coordination run ",
                );
                text.append(resolving_actor.run.as_str());
                text.append(", event ");
                text.append(resolution_event_id.as_str());
                text.append(" at ");
                text.append(resolved_at.as_str());
                text
            },
            RecoveryRejection::IncursionReservationMismatch { incident_id, reservation_id } => {
                let mut text = concat3(
                    "incursion incident ",
                    incident_id.as_str(),
                    " does not belong to reservation ",
                );
                text.append(reservation_id.as_str());
                text
            },
            RecoveryRejection::NoOutstandingIncursion(reservation_id) => concat3(
                "reservation ",
                reservation_id.as_str(),
                " has no outstanding incursion incident",
            ),
            RecoveryRejection::Replay(fault) => fault.description.clone(),
            RecoveryRejection::CheckpointRequired =>
                "the reservation must have a protected checkpoint first; cargo-berth release records one".to_owned(),
            RecoveryRejection::AlreadyResolved => "the reservation is already resolved".to_owned(),
            RecoveryRejection::SameWorktreeRecovery =>
                "--recovered requires a replacement worktree with a new identity".to_owned(),
            RecoveryRejection::UnreachableIntegrationEvidence =>
                "the --integrated-as commit must resolve in this repository and be reachable from trunk".to_owned(),
            RecoveryRejection::Git { description } => description.clone(),
            RecoveryRejection::EdgeReplay { description } => description.clone(),
        }
    }
}

/// The journal operations a recovery decision appends.
#[derive(Debug, PartialEq, Eq)]
pub enum JournalOperation {
    /// Move a reservation to a replacement worktree identity.
    RebindWorktree {
        /// The reservation moved.
        reservation_id: ReservationId,
        /// The worktree that held it.
        previous_worktree_id: WorktreeId,
        /// The replacement worktree.
        current_worktree_id: WorktreeId,
        /// The replacement worktree's canonical root.
        current_worktree_root: String,
        /// Where git keeps the replacement worktree's administrative files.
        current_worktree_administrative_locator: String,
    },
    /// Record a terminal disposition.
    Release {
        /// The reservation released.
        reservation_id: ReservationId,
        /// Its disposition.
        disposition: ReleaseDisposition,
    },
    /// Replace a disposition whose git evidence no longer stands.
    ReplaceReleaseDisposition {
        /// The reservation whose disposition changes.
        reservation_id: ReservationId,
        /// The disposition replaced.
        superseded: ReleaseDisposition,
        /// The disposition that replaces it.
        replacement: ReleaseDisposition,
    },
    /// Answer one incursion incident.
    ResolveIncursion {
        /// The incident answered.
        incident_id: IncursionIncidentId,
    },
    /// Refresh one reservation's activity.
    Renew {
        /// The reservation renewed.
        reservation_id: ReservationId,
    },
}

/// How far a reservation's retained evidence has progressed.
#[derive(Debug, PartialEq, Eq)]
pub enum ReservationEvidenceState {
    /// The holder may still change the reserved paths.
    Active,
    /// A protected checkpoint awaits a disposition.
    Outstanding,
    /// A disposition ended the work, with the integration status last retained for it.
    Released {
        /// The recorded disposition.
        disposition: ReleaseDisposition,
        /// What trunk last proved about it.
        integration_status: IntegrationEvidenceStatus,
    },
    /// A disposition ended work that never checkpointed.
    ReleasedWithoutCheckpoint,
}

/// The disposition a plan's first release of a reservation records, if the plan ends it.
pub open spec fn planned_release_of(
    operations: Seq<JournalOperation>,
    reservation_id: Seq<char>,
) -> Option<ReleaseDisposition>
    decreases operations.len(),
{
    if operations.len() == 0 {
        None
    } else {
        match operations[0] {
            JournalOperation::Release { reservation_id: released, disposition } if released@
                == reservation_id => Some(disposition),
            _ => planned_release_of(operations.drop_first(), reservation_id),
        }
    }
}

/// The disposition a plan already records for a reservation, if it ends one.
pub fn planned_release<'plan>(
    reservation_id: &ReservationId,
    operations: &'plan [JournalOperation],
) -> (planned: Option<&'plan ReleaseDisposition>)
    ensures
        match planned {
            Some(disposition) => planned_release_of(operations@, reservation_id@) == Some(*disposition),
            None => planned_release_of(operations@, reservation_id@) is None,
        },
{
    let mut index: usize = 0;
    assert(operations@.skip(0) =~= operations@);
    while index < operations.len()
        invariant
            index <= operations@.len(),
            planned_release_of(operations@, reservation_id@) == planned_release_of(
                operations@.skip(index as int),
                reservation_id@,
            ),
        decreases operations@.len() - index,
    {
        assert(operations@.skip(index as int)[0] == operations@[index as int]);
        if let JournalOperation::Release { reservation_id: released, disposition } = &operations[index] {
            if same_text(released, reservation_id) {
                return Some(disposition);
            }
        }
        assert(operations@.skip(index as int).drop_first() =~= operations@.skip(index + 1));
        index += 1;
    }
    None
}

/// What recovery still does after its journal append commits.
#[derive(Debug, PartialEq, Eq)]
pub enum RecoveryAction {
    /// Nothing.
    NoAction,
    /// Publish this coordination run's marker in the replacement worktree.
    PublishMarker(CoordinationRunId),
}

/// The resolve payload a committed recovery reports, before the session mapping is known.
#[derive(Debug, PartialEq, Eq)]
pub enum ResolvePayloadSeed {
    /// Work moved to a replacement worktree.
    Recovered {
        /// The reservation recovered.
        reservation_id: ReservationId,
        /// The replacement worktree.
        worktree_id: WorktreeId,
    },
    /// A terminal disposition was recorded.
    Released {
        /// The reservation released.
        reservation_id: ReservationId,
        /// Its disposition.
        disposition: ReleaseDisposition,
    },
}

/// The payload a seed completes to once the session mapping publication is known.
pub open spec fn completed_payload(
    seed: ResolvePayloadSeed,
    publication: SessionIdentityMappingPublication,
) -> ResolvePayload {
    match seed {
        ResolvePayloadSeed::Recovered { reservation_id, worktree_id } => ResolvePayload::Recovered {
            reservation_id,
            worktree_id,
        },
        ResolvePayloadSeed::Released { reservation_id, disposition } => ResolvePayload::Released {
            reservation_id,
            disposition,
            session_mapping_publication: publication,
        },
    }
}

impl ResolvePayloadSeed {
    /// Complete the payload with what happened to the session mapping.
    pub fn into_payload(self, session_mapping_publication: SessionIdentityMappingPublication) -> (payload:
        ResolvePayload)
        ensures
            payload == completed_payload(self, session_mapping_publication),
    {
        match self {
            ResolvePayloadSeed::Recovered { reservation_id, worktree_id } => ResolvePayload::Recovered {
                reservation_id,
                worktree_id,
            },
            ResolvePayloadSeed::Released { reservation_id, disposition } => ResolvePayload::Released {
                reservation_id,
                disposition,
                session_mapping_publication,
            },
        }
    }
}

/// The plan a recovery decision makes: the operation to append, the payload it reports, and
/// what to do once it committed.
pub type RecoveryPlan = (JournalOperation, ResolvePayloadSeed, RecoveryAction);

/// Releasing with a user disposition: allowed until the reservation already ended.
pub open spec fn disposition_plan(
    lifecycle: ReservationLifecycle,
    reservation_id: ReservationId,
    disposition: ReleaseDisposition,
) -> Result<RecoveryPlan, RecoveryRejection> {
    match lifecycle {
        ReservationLifecycle::Released { .. } => Err(RecoveryRejection::AlreadyResolved),
        _ => Ok(
            (
                JournalOperation::Release { reservation_id, disposition },
                ResolvePayloadSeed::Released { reservation_id, disposition },
                RecoveryAction::NoAction,
            ),
        ),
    }
}

/// Record a user disposition unless the reservation already ended.
pub fn disposition_operation(
    reservation: &Reservation,
    reservation_id: ReservationId,
    disposition: ReleaseDisposition,
) -> (plan: Result<RecoveryPlan, RecoveryRejection>)
    ensures
        plan == disposition_plan(reservation.lifecycle, reservation_id, disposition),
{
    match reservation.lifecycle {
        ReservationLifecycle::Released { .. } => Err(RecoveryRejection::AlreadyResolved),
        _ => Ok(
            (
                JournalOperation::Release {
                    reservation_id: reservation_id.clone(),
                    disposition: disposition.clone(),
                },
                ResolvePayloadSeed::Released { reservation_id, disposition },
                RecoveryAction::NoAction,
            ),
        ),
    }
}

/// Rewritten integration: released work whose git evidence lapsed has its disposition
/// replaced, outstanding work is released, and anything else is refused.
pub open spec fn rewritten_integration_plan(
    reservation_id: ReservationId,
    trunk_commit: RewrittenIntegrationTrunkCommit,
    evidence_state: Result<ReservationEvidenceState, ReplayFault>,
) -> Result<RecoveryPlan, RecoveryRejection> {
    let disposition = ReleaseDisposition::RewrittenIntegration(trunk_commit);
    match evidence_state {
        Err(fault) => Err(RecoveryRejection::Replay(fault)),
        Ok(ReservationEvidenceState::Outstanding) => Ok(
            (
                JournalOperation::Release { reservation_id, disposition },
                ResolvePayloadSeed::Released { reservation_id, disposition },
                RecoveryAction::NoAction,
            ),
        ),
        Ok(ReservationEvidenceState::Released { disposition: superseded, integration_status }) =>
            if !(integration_status is Integrated) && !(superseded is Abandoned
            || superseded is RetiredOrphan) {
            Ok(
                (
                    JournalOperation::ReplaceReleaseDisposition {
                        reservation_id,
                        superseded,
                        replacement: disposition,
                    },
                    ResolvePayloadSeed::Released { reservation_id, disposition },
                    RecoveryAction::NoAction,
                ),
            )
        } else {
            Err(RecoveryRejection::AlreadyResolved)
        },
        Ok(ReservationEvidenceState::ReleasedWithoutCheckpoint) => Err(
            RecoveryRejection::AlreadyResolved,
        ),
        Ok(ReservationEvidenceState::Active) => Err(RecoveryRejection::CheckpointRequired),
    }
}

/// The plan a recovery decision makes for one reservation.
pub open spec fn recovery_plan(
    reservation: Reservation,
    reservation_id: ReservationId,
    recovery_request: ReservationRecoveryDecision,
    current_worktree_id: WorktreeId,
    current_worktree_root: String,
    current_worktree_administrative_locator: String,
    evidence_state: Result<ReservationEvidenceState, ReplayFault>,
) -> Result<RecoveryPlan, RecoveryRejection> {
    match recovery_request {
        ReservationRecoveryDecision::Recovered => if reservation.actor.worktree@
            == current_worktree_id@ {
            Err(RecoveryRejection::SameWorktreeRecovery)
        } else {
            match reservation.lifecycle {
                ReservationLifecycle::Released { .. } => Err(RecoveryRejection::AlreadyResolved),
                lifecycle => Ok(
                    (
                        JournalOperation::RebindWorktree {
                            reservation_id,
                            previous_worktree_id: reservation.actor.worktree,
                            current_worktree_id,
                            current_worktree_root,
                            current_worktree_administrative_locator,
                        },
                        ResolvePayloadSeed::Recovered {
                            reservation_id,
                            worktree_id: current_worktree_id,
                        },
                        if lifecycle is Active {
                            RecoveryAction::PublishMarker(reservation.actor.run)
                        } else {
                            RecoveryAction::NoAction
                        },
                    ),
                ),
            }
        },
        ReservationRecoveryDecision::IntegratedAs(trunk_commit) => rewritten_integration_plan(
            reservation_id,
            trunk_commit,
            evidence_state,
        ),
        ReservationRecoveryDecision::Abandon(reason) => disposition_plan(
            reservation.lifecycle,
            reservation_id,
            ReleaseDisposition::Abandoned(reason),
        ),
        ReservationRecoveryDecision::RetireOrphan(reason) => disposition_plan(
            reservation.lifecycle,
            reservation_id,
            ReleaseDisposition::RetiredOrphan(reason),
        ),
    }
}

/// Decide what one recovery request appends, reports and does afterwards.
///
/// `evidence_state` is the reservation's replayed evidence, consulted only for rewritten
/// integration.
pub fn recovery_operation(
    reservation: &Reservation,
    reservation_id: ReservationId,
    recovery_request: ReservationRecoveryDecision,
    current_worktree_id: WorktreeId,
    current_worktree_root: String,
    current_worktree_administrative_locator: String,
    evidence_state: Result<ReservationEvidenceState, ReplayFault>,
) -> (plan: Result<RecoveryPlan, RecoveryRejection>)
    ensures
        plan == recovery_plan(
            *reservation,
            reservation_id,
            recovery_request,
            current_worktree_id,
            current_worktree_root,
            current_worktree_administrative_locator,
            evidence_state,
        ),
{
    match recovery_request {
        ReservationRecoveryDecision::Recovered => {
            if same_text(&reservation.actor.worktree, &current_worktree_id) {
                return Err(RecoveryRejection::SameWorktreeRecovery);
            }
            let committed_action = match &reservation.lifecycle {
                ReservationLifecycle::Active => RecoveryAction::PublishMarker(
                    reservation.actor.run.clone(),
                ),
                ReservationLifecycle::Outstanding { .. } => RecoveryAction::NoAction,
                ReservationLifecycle::Released { .. } => {
                    return Err(RecoveryRejection::AlreadyResolved);
                },
            };
            Ok(
                (
                    JournalOperation::RebindWorktree {
                        reservation_id: reservation_id.clone(),
                        previous_worktree_id: reservation.actor.worktree.clone(),
                        current_worktree_id: current_worktree_id.clone(),
                        current_worktree_root,
                        current_worktree_administrative_locator,
                    },
                    ResolvePayloadSeed::Recovered { reservation_id, worktree_id: current_worktree_id },
                    committed_action,
                ),
            )
        },
        ReservationRecoveryDecision::IntegratedAs(trunk_commit) => {
            let disposition = ReleaseDisposition::RewrittenIntegration(trunk_commit);
            let operation = match evidence_state {
                Err(fault) => {
                    return Err(RecoveryRejection::Replay(fault));
                },
                Ok(ReservationEvidenceState::Outstanding) => JournalOperation::Release {
                    reservation_id: reservation_id.clone(),
                    disposition: disposition.clone(),
                },
                Ok(ReservationEvidenceState::Released { disposition: superseded, integration_status }) => {
                    let lapsed = match integration_status {
                        IntegrationEvidenceStatus::Integrated { .. } => false,
                        _ => true,
                    };
                    let revalidated = match &superseded {
                        ReleaseDisposition::Abandoned(_) => false,
                        ReleaseDisposition::RetiredOrphan(_) => false,
                        _ => true,
                    };
                    if lapsed && revalidated {
                        JournalOperation::ReplaceReleaseDisposition {
                            reservation_id: reservation_id.clone(),
                            superseded,
                            replacement: disposition.clone(),
                        }
                    } else {
                        return Err(RecoveryRejection::AlreadyResolved);
                    }
                },
                Ok(ReservationEvidenceState::ReleasedWithoutCheckpoint) => {
                    return Err(RecoveryRejection::AlreadyResolved);
                },
                Ok(ReservationEvidenceState::Active) => {
                    return Err(RecoveryRejection::CheckpointRequired);
                },
            };
            Ok(
                (
                    operation,
                    ResolvePayloadSeed::Released { reservation_id, disposition },
                    RecoveryAction::NoAction,
                ),
            )
        },
        ReservationRecoveryDecision::Abandon(reason) => disposition_operation(
            reservation,
            reservation_id,
            ReleaseDisposition::Abandoned(reason),
        ),
        ReservationRecoveryDecision::RetireOrphan(reason) => disposition_operation(
            reservation,
            reservation_id,
            ReleaseDisposition::RetiredOrphan(reason),
        ),
    }
}

/// The decision rewritten integration makes once trunk's ancestry of its commit is known.
pub open spec fn validated_request(
    recovery_request: ReservationRecoveryDecision,
    reachability: Result<Reachability, String>,
) -> Result<ReservationRecoveryDecision, RecoveryRejection> {
    match recovery_request {
        ReservationRecoveryDecision::IntegratedAs(_) => match reachability {
            Err(description) => Err(RecoveryRejection::Git { description }),
            Ok(Reachability::Ancestor) => Ok(recovery_request),
            Ok(_) => Err(RecoveryRejection::UnreachableIntegrationEvidence),
        },
        _ => Ok(recovery_request),
    }
}

/// Accept a recovery request; an `--integrated-as` commit must be reachable from trunk.
///
/// `trunk_reachability` resolves trunk and asks whether the commit is in its history; it runs
/// only for rewritten integration, and its error is git's own account of the failure.
pub fn validate_recovery_request<
    Query: FnOnce(&RewrittenIntegrationTrunkCommit) -> Result<Reachability, String>,
>(recovery_request: ReservationRecoveryDecision, trunk_reachability: Query) -> (validated: Result<
    ReservationRecoveryDecision,
    RecoveryRejection,
>)
    requires
        recovery_request matches ReservationRecoveryDecision::IntegratedAs(commit) ==> call_requires(
            trunk_reachability,
            (&commit,),
        ),
    ensures
        !(recovery_request is IntegratedAs) ==> validated == Ok::<
            ReservationRecoveryDecision,
            RecoveryRejection,
        >(recovery_request),
        recovery_request matches ReservationRecoveryDecision::IntegratedAs(commit) ==> exists|
            reachability: Result<Reachability, String>,
        |
            #![trigger call_ensures(trunk_reachability, (&commit,), reachability)]
            call_ensures(trunk_reachability, (&commit,), reachability) && validated
                == validated_request(recovery_request, reachability),
{
    match recovery_request {
        ReservationRecoveryDecision::IntegratedAs(trunk_commit) => {
            let reachability = trunk_reachability(&trunk_commit);
            let ghost observed = reachability;
            match reachability {
                Err(description) => Err(RecoveryRejection::Git { description }),
                Ok(Reachability::Ancestor) => Ok(ReservationRecoveryDecision::IntegratedAs(trunk_commit)),
                Ok(_) => Err(RecoveryRejection::UnreachableIntegrationEvidence),
            }
        },
        other => Ok(other),
    }
}

/// What a committed reservation resolution still does and reports after its append.
#[derive(Debug, PartialEq, Eq)]
pub struct RecoveryCommittedAction {
    /// What recovery still does once the append committed.
    pub committed_action: RecoveryAction,
    /// The payload it reports, before the session mapping is known.
    pub resolve_payload_seed: ResolvePayloadSeed,
    /// The retained ordering references the resolution retires.
    pub retention_deletions: Vec<ReservationId>,
}

/// The verdict of a transaction whose append is followed by a committed action.
#[derive(Debug, PartialEq, Eq)]
pub enum CommittedActionValidation<Rejection, Action> {
    /// Append the operation, then perform the action.
    Append {
        /// The operation appended.
        operation: JournalOperation,
        /// What the committed transaction does and reports.
        action: Action,
    },
    /// Refuse the request.
    Reject(Rejection),
}

/// The plan a reservation resolution makes under the ledger lock, before its retention
/// deletions: the validated request's refusal first, then a journal whose reservations do
/// not replay, then an ordering graph that does not replay, then an unknown or unreplayable
/// reservation, and otherwise the recovery plan for the reservation.
pub open spec fn resolution_plan(
    validated: Result<ReservationRecoveryDecision, RecoveryRejection>,
    reservations: Result<Result<Reservation, ReplayFault>, ReplayFault>,
    ordering: Result<(), String>,
    reservation_id: ReservationId,
    current_worktree_id: WorktreeId,
    current_worktree_root: String,
    current_worktree_administrative_locator: String,
    evidence_state: Result<ReservationEvidenceState, ReplayFault>,
) -> Result<RecoveryPlan, RecoveryRejection> {
    match validated {
        Err(rejection) => Err(rejection),
        Ok(recovery_request) => match reservations {
            Err(fault) => Err(RecoveryRejection::Replay(fault)),
            Ok(lookup) => match ordering {
                Err(description) => Err(RecoveryRejection::EdgeReplay { description }),
                Ok(()) => match lookup {
                    Err(fault) => Err(
                        if fault.error is UnknownReservation {
                            RecoveryRejection::UnknownReservation
                        } else {
                            RecoveryRejection::Replay(fault)
                        },
                    ),
                    Ok(reservation) => recovery_plan(
                        reservation,
                        reservation_id,
                        recovery_request,
                        current_worktree_id,
                        current_worktree_root,
                        current_worktree_administrative_locator,
                        evidence_state,
                    ),
                },
            },
        },
    }
}

/// Decide, under the ledger lock, what one reservation resolution appends.
///
/// In order: the validated request's refusal, a journal whose reservations do not replay, an
/// ordering graph that does not replay (`ordering` carries its own account), an unknown or
/// unreplayable reservation (`reservations` holds replay's result and, within it, what replay
/// found for the named reservation), and the recovery plan's own refusal each reject. A plan
/// that releases the reservation also retires the ordering references that
/// `retention_deletions` names, and is refused when those could not be computed; any other
/// plan retires none.
pub fn reservation_resolution_validation(
    validated: Result<ReservationRecoveryDecision, RecoveryRejection>,
    reservations: Result<Result<&Reservation, ReplayFault>, ReplayFault>,
    ordering: Result<(), String>,
    reservation_id: ReservationId,
    current_worktree_id: WorktreeId,
    current_worktree_root: String,
    current_worktree_administrative_locator: String,
    evidence_state: Result<ReservationEvidenceState, ReplayFault>,
    retention_deletions: Result<Vec<ReservationId>, ReplayFault>,
) -> (verdict: CommittedActionValidation<RecoveryRejection, RecoveryCommittedAction>)
    ensures
        match resolution_plan(
            validated,
            match reservations {
                Err(fault) => Err(fault),
                Ok(Err(fault)) => Ok(Err(fault)),
                Ok(Ok(reservation)) => Ok(Ok(*reservation)),
            },
            ordering,
            reservation_id,
            current_worktree_id,
            current_worktree_root,
            current_worktree_administrative_locator,
            evidence_state,
        ) {
            Err(rejection) => verdict == CommittedActionValidation::<RecoveryRejection, RecoveryCommittedAction>::Reject(rejection),
            Ok((operation, seed, action)) => if operation is Release {
                match retention_deletions {
                    Err(fault) => verdict == CommittedActionValidation::<RecoveryRejection, RecoveryCommittedAction>::Reject(RecoveryRejection::Replay(fault)),
                    Ok(deletions) => verdict matches CommittedActionValidation::Append { operation: appended, action: committed }
                        && appended == operation && committed.committed_action == action
                        && committed.resolve_payload_seed == seed && committed.retention_deletions@ == deletions@,
                }
            } else {
                verdict matches CommittedActionValidation::Append { operation: appended, action: committed }
                    && appended == operation && committed.committed_action == action
                    && committed.resolve_payload_seed == seed && committed.retention_deletions@.len() == 0
            },
        },
{
    let recovery_request = match validated {
        Ok(recovery_request) => recovery_request,
        Err(rejection) => {
            return CommittedActionValidation::Reject(rejection);
        },
    };
    let lookup = match reservations {
        Ok(lookup) => lookup,
        Err(fault) => {
            return CommittedActionValidation::Reject(RecoveryRejection::Replay(fault));
        },
    };
    if let Err(description) = ordering {
        return CommittedActionValidation::Reject(RecoveryRejection::EdgeReplay { description });
    }
    let reservation = match lookup {
        Ok(reservation) => reservation,
        Err(fault) => {
            let rejection = match fault.error {
                ReservationReplayError::UnknownReservation(_) => RecoveryRejection::UnknownReservation,
                _ => RecoveryRejection::Replay(fault),
            };
            return CommittedActionValidation::Reject(rejection);
        },
    };
    let planned = recovery_operation(
        reservation,
        reservation_id,
        recovery_request,
        current_worktree_id,
        current_worktree_root,
        current_worktree_administrative_locator,
        evidence_state,
    );
    let (operation, resolve_payload_seed, committed_action) = match planned {
        Ok(plan) => plan,
        Err(rejection) => {
            return CommittedActionValidation::Reject(rejection);
        },
    };
    let releases = match operation {
        JournalOperation::Release { .. } => true,
        _ => false,
    };
    let retention_deletions = if releases {
        match retention_deletions {
            Ok(deletions) => deletions,
            Err(fault) => {
                return CommittedActionValidation::Reject(RecoveryRejection::Replay(fault));
            },
        }
    } else {
        Vec::new()
    };
    CommittedActionValidation::Append {
        operation,
        action: RecoveryCommittedAction { committed_action, resolve_payload_seed, retention_deletions },
    }
}

/// Whether an incursion incident is still outstanding or who resolved it.
#[derive(Debug, PartialEq, Eq)]
pub enum IncursionIncidentStatus {
    /// Nobody has answered the incident yet.
    Outstanding,
    /// A coordination actor answered it.
    Resolved {
        /// Who answered it.
        resolving_actor: JournalActor,
        /// The event that recorded the answer.
        resolution_event_id: EventId,
        /// When it was recorded.
        resolved_at: RecordedAt,
    },
}

/// One recorded incursion incident.
#[derive(Debug, PartialEq, Eq)]
pub struct IncursionIncident {
    /// The incident identity.
    pub id: IncursionIncidentId,
    /// The reservation whose scopes were entered.
    pub reservation_id: ReservationId,
    /// Whether it was answered.
    pub status: IncursionIncidentStatus,
}

/// Why an incursion answer appended nothing.
#[derive(Debug, PartialEq, Eq)]
pub enum IncursionResolutionNotAppended {
    /// This worktree coordination run already recorded the answer.
    AlreadyRecordedBySameCoordinationActor,
    /// The request was refused.
    Rejected(RecoveryRejection),
}

/// What the ledger does with a request checked under its lock: append the operation, or refuse.
#[derive(Debug, PartialEq, Eq)]
pub enum TransactionValidation<Rejection> {
    /// Append the operation.
    Append(JournalOperation),
    /// Refuse the request.
    Reject(Rejection),
}

/// The verdict on answering one incursion incident, given what replay found for it.
pub open spec fn one_incursion_verdict(
    lookup: Result<IncursionIncident, ReplayFault>,
    reservation_id: ReservationId,
    incident_id: IncursionIncidentId,
    worktree_id: WorktreeId,
    coordination_run_id: CoordinationRunId,
) -> TransactionValidation<IncursionResolutionNotAppended> {
    match lookup {
        Err(fault) => TransactionValidation::Reject(
            IncursionResolutionNotAppended::Rejected(
                if fault.error is UnknownIncursionIncident {
                    RecoveryRejection::UnknownIncursionIncident(incident_id)
                } else {
                    RecoveryRejection::Replay(fault)
                },
            ),
        ),
        Ok(incident) => if incident.reservation_id@ != reservation_id@ {
            TransactionValidation::Reject(
                IncursionResolutionNotAppended::Rejected(
                    RecoveryRejection::IncursionReservationMismatch { incident_id, reservation_id },
                ),
            )
        } else {
            match incident.status {
                IncursionIncidentStatus::Resolved {
                    resolving_actor,
                    resolution_event_id,
                    resolved_at,
                } => if resolving_actor.worktree@ == worktree_id@ && resolving_actor.run@
                    == coordination_run_id@ {
                    TransactionValidation::Reject(
                        IncursionResolutionNotAppended::AlreadyRecordedBySameCoordinationActor,
                    )
                } else {
                    TransactionValidation::Reject(
                        IncursionResolutionNotAppended::Rejected(
                            RecoveryRejection::IncursionIncidentAlreadyResolvedByDifferentCoordinationActor {
                                reservation_id,
                                incident_id,
                                resolving_actor,
                                resolution_event_id,
                                resolved_at,
                            },
                        ),
                    )
                },
                IncursionIncidentStatus::Outstanding => TransactionValidation::Append(
                    JournalOperation::ResolveIncursion { incident_id },
                ),
            }
        },
    }
}

/// Decide, under the ledger lock, whether to record an answer to one incursion incident.
///
/// `lookup` is what replay found for the named incident.
pub fn one_incursion_resolution(
    lookup: Result<&IncursionIncident, ReplayFault>,
    reservation_id: ReservationId,
    incident_id: IncursionIncidentId,
    worktree_id: &WorktreeId,
    coordination_run_id: &CoordinationRunId,
) -> (verdict: TransactionValidation<IncursionResolutionNotAppended>)
    ensures
        verdict == one_incursion_verdict(
            match lookup {
                Ok(incident) => Ok(*incident),
                Err(fault) => Err(fault),
            },
            reservation_id,
            incident_id,
            *worktree_id,
            *coordination_run_id,
        ),
{
    let incident = match lookup {
        Ok(incident) => incident,
        Err(fault) => {
            let rejection = match fault.error {
                ReservationReplayError::UnknownIncursionIncident(_) => {
                    RecoveryRejection::UnknownIncursionIncident(incident_id)
                },
                _ => RecoveryRejection::Replay(fault),
            };
            return TransactionValidation::Reject(IncursionResolutionNotAppended::Rejected(rejection));
        },
    };
    if !same_text(&incident.reservation_id, &reservation_id) {
        return TransactionValidation::Reject(
            IncursionResolutionNotAppended::Rejected(
                RecoveryRejection::IncursionReservationMismatch { incident_id, reservation_id },
            ),
        );
    }
    match &incident.status {
        IncursionIncidentStatus::Resolved { resolving_actor, resolution_event_id, resolved_at } => {
            if resolving_actor.has_coordination_identity(worktree_id, coordination_run_id) {
                return TransactionValidation::Reject(
                    IncursionResolutionNotAppended::AlreadyRecordedBySameCoordinationActor,
                );
            }
            TransactionValidation::Reject(
                IncursionResolutionNotAppended::Rejected(
                    RecoveryRejection::IncursionIncidentAlreadyResolvedByDifferentCoordinationActor {
                        reservation_id,
                        incident_id,
                        resolving_actor: resolving_actor.clone(),
                        resolution_event_id: resolution_event_id.clone(),
                        resolved_at: resolved_at.clone(),
                    },
                ),
            )
        },
        IncursionIncidentStatus::Outstanding => TransactionValidation::Append(
            JournalOperation::ResolveIncursion { incident_id },
        ),
    }
}

/// What a committed incursion-answer transaction came to.
#[derive(Debug, PartialEq, Eq)]
pub enum LedgerTransactionOutcome<Rejection> {
    /// The operation was appended.
    Appended,
    /// The locked validation refused the request.
    Rejected(Rejection),
}

/// The resolve payload or failure one incursion answer reports.
pub open spec fn one_incursion_result(
    outcome: LedgerTransactionOutcome<IncursionResolutionNotAppended>,
    reservation_id: ReservationId,
    incident_id: IncursionIncidentId,
) -> Result<ResolvePayload, RecoveryError> {
    match outcome {
        LedgerTransactionOutcome::Appended => Ok(
            ResolvePayload::RecordedNow { reservation_id, incident_id },
        ),
        LedgerTransactionOutcome::Rejected(
            IncursionResolutionNotAppended::AlreadyRecordedBySameCoordinationActor,
        ) => Ok(ResolvePayload::AlreadyRecordedBySameCoordinationActor { reservation_id, incident_id }),
        LedgerTransactionOutcome::Rejected(IncursionResolutionNotAppended::Rejected(rejection)) => Err(
            RecoveryError::Rejected(rejection),
        ),
    }
}

/// Report what one incursion answer came to: recorded now, recorded earlier by this same
/// coordination run, or refused.
pub fn one_incursion_resolution_result(
    outcome: LedgerTransactionOutcome<IncursionResolutionNotAppended>,
    reservation_id: ReservationId,
    incident_id: IncursionIncidentId,
) -> (result: Result<ResolvePayload, RecoveryError>)
    ensures
        result == one_incursion_result(outcome, reservation_id, incident_id),
{
    match outcome {
        LedgerTransactionOutcome::Appended => Ok(
            ResolvePayload::RecordedNow { reservation_id, incident_id },
        ),
        LedgerTransactionOutcome::Rejected(
            IncursionResolutionNotAppended::AlreadyRecordedBySameCoordinationActor,
        ) => Ok(ResolvePayload::AlreadyRecordedBySameCoordinationActor { reservation_id, incident_id }),
        LedgerTransactionOutcome::Rejected(IncursionResolutionNotAppended::Rejected(rejection)) => Err(
            RecoveryError::Rejected(rejection),
        ),
    }
}

/// A reconciliation validation: apply operations and carry an action out, or refuse.
#[derive(Debug, PartialEq, Eq)]
pub enum ReconciliationValidation<Rejection, Action> {
    /// Append the operations, then report the action.
    Apply {
        /// The operations appended in one transaction.
        operations: Vec<JournalOperation>,
        /// What the committed transaction reports.
        action: Action,
    },
    /// Refuse the request.
    Reject(Rejection),
}

/// The identities of the incidents that belong to a reservation, in order.
pub open spec fn incidents_of(
    outstanding: Seq<IncursionIncident>,
    reservation_id: Seq<char>,
) -> Seq<IncursionIncidentId>
    decreases outstanding.len(),
{
    if outstanding.len() == 0 {
        Seq::empty()
    } else {
        let earlier = incidents_of(outstanding.drop_last(), reservation_id);
        if outstanding.last().reservation_id@ == reservation_id {
            earlier.push(outstanding.last().id)
        } else {
            earlier
        }
    }
}

/// The operations answering each incident.
pub open spec fn resolve_operations(incident_ids: Seq<IncursionIncidentId>) -> Seq<JournalOperation> {
    incident_ids.map_values(
        |incident_id: IncursionIncidentId| JournalOperation::ResolveIncursion { incident_id },
    )
}

/// Decide, under the ledger lock, to answer every incident outstanding for one reservation.
///
/// `outstanding` is every incursion incident replay still finds outstanding.
pub fn every_incursion_resolution(outstanding: &Vec<IncursionIncident>, reservation_id: &ReservationId) -> (verdict:
    ReconciliationValidation<RecoveryRejection, Vec<IncursionIncidentId>>)
    ensures
        ({
            let incident_ids = incidents_of(outstanding@, reservation_id@);
            if incident_ids.len() == 0 {
                verdict == ReconciliationValidation::<
                    RecoveryRejection,
                    Vec<IncursionIncidentId>,
                >::Reject(RecoveryRejection::NoOutstandingIncursion(*reservation_id))
            } else {
                verdict matches ReconciliationValidation::Apply { operations, action }
                    && action@ == incident_ids && operations@ == resolve_operations(incident_ids)
            }
        }),
{
    let mut incident_ids: Vec<IncursionIncidentId> = Vec::new();
    let mut operations: Vec<JournalOperation> = Vec::new();
    let mut index: usize = 0;
    while index < outstanding.len()
        invariant
            index <= outstanding@.len(),
            incident_ids@ == incidents_of(outstanding@.take(index as int), reservation_id@),
            operations@ == resolve_operations(incident_ids@),
        decreases outstanding@.len() - index,
    {
        assert(outstanding@.take(index + 1).drop_last() =~= outstanding@.take(index as int));
        let incident = &outstanding[index];
        if same_text(&incident.reservation_id, reservation_id) {
            let ghost before = incident_ids@;
            incident_ids.push(incident.id.clone());
            operations.push(JournalOperation::ResolveIncursion { incident_id: incident.id.clone() });
            assert(operations@ =~= resolve_operations(incident_ids@));
        }
        index += 1;
    }
    assert(outstanding@.take(index as int) =~= outstanding@);
    if incident_ids.len() == 0 {
        return ReconciliationValidation::Reject(
            RecoveryRejection::NoOutstandingIncursion(reservation_id.clone()),
        );
    }
    ReconciliationValidation::Apply { operations, action: incident_ids }
}

/// Decide, under the ledger lock, whether a renewal may be appended: only to a retained
/// reservation that has not ended.
///
/// `lookup` is what replay found for the named reservation.
pub fn renewal_validation(lookup: Result<&Reservation, ReplayFault>, reservation_id: ReservationId) -> (verdict:
    TransactionValidation<RecoveryRejection>)
    ensures
        match lookup {
            Err(fault) => verdict == TransactionValidation::Reject(
                if fault.error is UnknownReservation {
                    RecoveryRejection::UnknownReservation
                } else {
                    RecoveryRejection::Replay(fault)
                },
            ),
            Ok(reservation) => verdict == if reservation.lifecycle is Released {
                TransactionValidation::Reject(RecoveryRejection::AlreadyResolved)
            } else {
                TransactionValidation::Append(JournalOperation::Renew { reservation_id })
            },
        },
{
    let reservation = match lookup {
        Ok(reservation) => reservation,
        Err(fault) => {
            let rejection = match fault.error {
                ReservationReplayError::UnknownReservation(_) => RecoveryRejection::UnknownReservation,
                _ => RecoveryRejection::Replay(fault),
            };
            return TransactionValidation::Reject(rejection);
        },
    };
    match reservation.lifecycle {
        ReservationLifecycle::Released { .. } => TransactionValidation::Reject(
            RecoveryRejection::AlreadyResolved,
        ),
        _ => TransactionValidation::Append(JournalOperation::Renew { reservation_id }),
    }
}

/// Whether the repository participates in coordination, with the verb's result if it does.
#[derive(Debug, PartialEq, Eq)]
pub enum Enrollment<T> {
    /// The repository participates; this is the result.
    Enrolled(T),
    /// The repository has no configuration at the expected path.
    Unconfigured {
        /// Where the configuration was expected.
        expected_configuration_path: String,
    },
}

/// What a committed recovery transaction came to.
#[derive(Debug, PartialEq, Eq)]
pub enum LedgerCommittedActionOutcome<Rejection, Output> {
    /// The operation was appended and its committed action produced this output.
    Appended {
        /// The committed action's output.
        output: Output,
        /// What happened to the harness session mapping.
        session_mapping_publication: SessionIdentityMappingPublication,
    },
    /// The locked validation refused the request.
    Rejected(Rejection),
}

/// The result a committed recovery reports.
pub open spec fn enrollment_result(
    outcome: LedgerCommittedActionOutcome<RecoveryRejection, ResolvePayloadSeed>,
) -> Result<Enrollment<ResolvePayload>, RecoveryError> {
    match outcome {
        LedgerCommittedActionOutcome::Appended { output, session_mapping_publication } => Ok(
            Enrollment::Enrolled(completed_payload(output, session_mapping_publication)),
        ),
        LedgerCommittedActionOutcome::Rejected(RecoveryRejection::Git { description }) => Err(
            RecoveryError::Git { description },
        ),
        LedgerCommittedActionOutcome::Rejected(rejection) => Err(RecoveryError::Rejected(rejection)),
    }
}

/// Convert one committed reservation-resolution transaction into its enrolled result; a git
/// failure stays a git failure rather than a refusal.
pub fn resolution_enrollment_from_outcome(
    outcome: LedgerCommittedActionOutcome<RecoveryRejection, ResolvePayloadSeed>,
) -> (result: Result<Enrollment<ResolvePayload>, RecoveryError>)
    ensures
        result == enrollment_result(outcome),
{
    match outcome {
        LedgerCommittedActionOutcome::Appended { output, session_mapping_publication } => Ok(
            Enrollment::Enrolled(output.into_payload(session_mapping_publication)),
        ),
        LedgerCommittedActionOutcome::Rejected(RecoveryRejection::Git { description }) => Err(
            RecoveryError::Git { description },
        ),
        LedgerCommittedActionOutcome::Rejected(rejection) => Err(RecoveryError::Rejected(rejection)),
    }
}

/// Why a recovery request failed.
///
/// Failures raised by the file system or git carry their own account as `description`.
#[derive(Debug, PartialEq, Eq)]
pub enum RecoveryError {
    /// The file system failed.
    Io { description: String },
    /// The configuration could not be accepted.
    Config(ConfigError),
    /// A git query failed.
    Git { description: String },
    /// The ledger could not be read.
    Ledger(LedgerError),
    /// The ledger transaction did not commit.
    Transaction(LedgerTransactionError),
    /// The request was refused.
    Rejected(RecoveryRejection),
    /// The replacement worktree root is not UTF-8.
    NonUtf8WorktreeRoot,
    /// The replacement worktree root is not canonical.
    InvalidCanonicalWorktreeRoot,
}

/// The status and message a recovery failure is answered with.
pub open spec fn recovery_failure_response(error: RecoveryError) -> (OutputStatus, Seq<char>) {
    match error {
        RecoveryError::Transaction(LedgerTransactionError::LockContention { description }) => (
            OutputStatus::Contention,
            description@,
        ),
        RecoveryError::Transaction(LedgerTransactionError::CorrectableInput { description }) => (
            OutputStatus::InvalidInput,
            description@,
        ),
        RecoveryError::Transaction(LedgerTransactionError::DerivedRecordTooLarge { description }) => (
            OutputStatus::LedgerUnreadable,
            ledger_unreadable_message(description@),
        ),
        RecoveryError::Transaction(LedgerTransactionError::LedgerUnreadable(error)) => (
            OutputStatus::LedgerUnreadable,
            ledger_unreadable_message(ledger_error_text(error)),
        ),
        RecoveryError::Rejected(RecoveryRejection::Replay(fault)) => (
            OutputStatus::LedgerUnreadable,
            "The reservation ledger could not be replayed: "@ + fault.description@,
        ),
        RecoveryError::Rejected(RecoveryRejection::EdgeReplay { description }) => (
            OutputStatus::LedgerUnreadable,
            ledger_unreadable_message(description@),
        ),
        RecoveryError::Rejected(
            RecoveryRejection::IncursionIncidentAlreadyResolvedByDifferentCoordinationActor {
                incident_id,
                resolving_actor,
                resolution_event_id,
                resolved_at,
                ..
            },
        ) => (
            OutputStatus::InvalidInput,
            duplicate_resolution_message(
                incident_id@,
                resolving_actor.worktree@,
                resolving_actor.run@,
                resolution_event_id@,
                resolved_at@,
            ),
        ),
        RecoveryError::Rejected(rejection) => (OutputStatus::InvalidInput, rejection_text(rejection)),
        RecoveryError::Io { description } => (
            OutputStatus::LedgerUnreadable,
            ledger_unreadable_message(description@),
        ),
        RecoveryError::Config(error) => (
            OutputStatus::LedgerUnreadable,
            ledger_unreadable_message(ledger_error_text(LedgerError::Config(error))),
        ),
        RecoveryError::Git { description } => (
            OutputStatus::LedgerUnreadable,
            ledger_unreadable_message(description@),
        ),
        RecoveryError::Ledger(error) => (
            OutputStatus::LedgerUnreadable,
            ledger_unreadable_message(ledger_error_text(error)),
        ),
        RecoveryError::NonUtf8WorktreeRoot => (
            OutputStatus::LedgerUnreadable,
            ledger_unreadable_message("the replacement worktree root is not UTF-8"@),
        ),
        RecoveryError::InvalidCanonicalWorktreeRoot => (
            OutputStatus::LedgerUnreadable,
            ledger_unreadable_message("the replacement worktree root is not canonical"@),
        ),
    }
}

/// The reservations a recovery failure's response names.
pub open spec fn recovery_failure_reservations(error: RecoveryError) -> Seq<ReservationId> {
    match error {
        RecoveryError::Rejected(
            RecoveryRejection::IncursionIncidentAlreadyResolvedByDifferentCoordinationActor {
                reservation_id,
                ..
            },
        ) => seq![reservation_id],
        _ => Seq::empty(),
    }
}

impl RecoveryError {
    /// Convert a failed recovery into the requesting verb's public response.
    ///
    /// `occasion` names the event a hook answers on, and `retry_budget_seconds` is the single
    /// lock wait the engine already spent. A duplicate incursion resolution is always answered
    /// as `resolve`'s own rejection.
    pub fn into_output(
        self,
        command_verb: CommandVerb,
        occasion: EngineAnswerOccasion,
        retry_budget_seconds: u64,
    ) -> (envelope: OutputEnvelope)
        ensures
            answers(
                envelope,
                if self matches RecoveryError::Rejected(
                    RecoveryRejection::IncursionIncidentAlreadyResolvedByDifferentCoordinationActor {
                        ..
                    },
                ) {
                    CommandVerb::Resolve
                } else {
                    command_verb
                },
                recovery_failure_response(self).0,
                recovery_failure_reservations(self),
                Seq::empty(),
                recovery_failure_response(self).1,
            ),
            self matches RecoveryError::Rejected(RecoveryRejection::Replay(fault))
                ==> envelope.payload.facts matches OutputFacts::ReplayFailure(payload) && (
            payload.reason,
            payload.subject,
            ) == crate::output::replay::reservation_failure(fault.error) && payload.effect is HardStop,
    {
        match self {
            RecoveryError::Transaction(LedgerTransactionError::LockContention { description }) => {
                OutputEnvelope::contention_on(
                    command_verb,
                    description.as_str(),
                    occasion,
                    retry_budget_seconds,
                )
            },
            RecoveryError::Transaction(LedgerTransactionError::CorrectableInput { description }) => {
                OutputEnvelope::invalid_input_on(command_verb, description.as_str(), occasion)
            },
            RecoveryError::Transaction(LedgerTransactionError::DerivedRecordTooLarge { description }) => {
                OutputEnvelope::ledger_unreadable_on(command_verb, description.as_str(), occasion)
            },
            RecoveryError::Transaction(LedgerTransactionError::LedgerUnreadable(error)) => {
                let description = error.message();
                OutputEnvelope::ledger_unreadable_on(command_verb, description.as_str(), occasion)
            },
            RecoveryError::Rejected(RecoveryRejection::Replay(fault)) => {
                OutputEnvelope::replay_failure(command_verb, &fault.error, fault.description.as_str())
            },
            RecoveryError::Rejected(RecoveryRejection::EdgeReplay { description }) => {
                OutputEnvelope::ledger_unreadable_on(command_verb, description.as_str(), occasion)
            },
            RecoveryError::Rejected(
                RecoveryRejection::IncursionIncidentAlreadyResolvedByDifferentCoordinationActor {
                    reservation_id,
                    incident_id,
                    resolving_actor,
                    resolution_event_id,
                    resolved_at,
                },
            ) => OutputEnvelope::incursion_resolution_recorded_by_different_actor(
                reservation_id,
                incident_id,
                resolving_actor.worktree,
                resolving_actor.run,
                resolution_event_id,
                resolved_at,
            ),
            RecoveryError::Rejected(rejection) => {
                let description = rejection.message();
                OutputEnvelope::invalid_input_on(command_verb, description.as_str(), occasion)
            },
            RecoveryError::Io { description } => {
                OutputEnvelope::ledger_unreadable_on(command_verb, description.as_str(), occasion)
            },
            RecoveryError::Config(error) => {
                let description = LedgerError::Config(error).message();
                OutputEnvelope::ledger_unreadable_on(command_verb, description.as_str(), occasion)
            },
            RecoveryError::Git { description } => {
                OutputEnvelope::ledger_unreadable_on(command_verb, description.as_str(), occasion)
            },
            RecoveryError::Ledger(error) => {
                let description = error.message();
                OutputEnvelope::ledger_unreadable_on(command_verb, description.as_str(), occasion)
            },
            RecoveryError::NonUtf8WorktreeRoot => OutputEnvelope::ledger_unreadable_on(
                command_verb,
                "the replacement worktree root is not UTF-8",
                occasion,
            ),
            RecoveryError::InvalidCanonicalWorktreeRoot => OutputEnvelope::ledger_unreadable_on(
                command_verb,
                "the replacement worktree root is not canonical",
                occasion,
            ),
        }
    }
}

/// Recovery never ends work twice: every decision made for a reservation that already ended is
/// refused as already resolved, except rewritten integration replacing git evidence that
/// lapsed, and moving a reservation into its own worktree is always refused.
pub proof fn ended_work_is_not_ended_again(
    reservation: Reservation,
    reservation_id: ReservationId,
    recovery_request: ReservationRecoveryDecision,
    current_worktree_id: WorktreeId,
    current_worktree_root: String,
    current_worktree_administrative_locator: String,
    evidence_state: Result<ReservationEvidenceState, ReplayFault>,
)
    requires
        reservation.lifecycle is Released,
        !(recovery_request is IntegratedAs),
        !(recovery_request is Recovered) || reservation.actor.worktree@ != current_worktree_id@,
    ensures
        recovery_plan(
            reservation,
            reservation_id,
            recovery_request,
            current_worktree_id,
            current_worktree_root,
            current_worktree_administrative_locator,
            evidence_state,
        ) == Err::<RecoveryPlan, RecoveryRejection>(RecoveryRejection::AlreadyResolved),
{
}

/// Whether an operation appends this disposition for this reservation, as a first release or
/// as the replacement of a lapsed one.
pub open spec fn appends_disposition(
    operation: JournalOperation,
    reservation_id: ReservationId,
    disposition: ReleaseDisposition,
) -> bool {
    match operation {
        JournalOperation::Release { reservation_id: released, disposition: recorded } => released
            == reservation_id && recorded == disposition,
        JournalOperation::ReplaceReleaseDisposition { reservation_id: replaced, replacement, .. } =>
            replaced == reservation_id && replacement == disposition,
        _ => false,
    }
}

/// A recovery plan appends exactly the disposition it reports.
pub proof fn reported_disposition_is_the_appended_one(
    reservation: Reservation,
    reservation_id: ReservationId,
    recovery_request: ReservationRecoveryDecision,
    current_worktree_id: WorktreeId,
    current_worktree_root: String,
    current_worktree_administrative_locator: String,
    evidence_state: Result<ReservationEvidenceState, ReplayFault>,
)
    ensures
        recovery_plan(
            reservation,
            reservation_id,
            recovery_request,
            current_worktree_id,
            current_worktree_root,
            current_worktree_administrative_locator,
            evidence_state,
        ) matches Ok((operation, ResolvePayloadSeed::Released { reservation_id: reported, disposition }, _))
            ==> reported == reservation_id && appends_disposition(operation, reservation_id, disposition),
{
}

/// A user decision ends any reservation not yet released, active or outstanding: an
/// abandonment or orphan retirement plans a release that appends exactly that disposition for
/// the named reservation, reports it, and does nothing more once committed. Released work is
/// refused as already resolved.
pub proof fn user_decisions_release_unreleased_reservations(
    reservation: Reservation,
    reservation_id: ReservationId,
    reason: AbandonmentReason,
    orphan_reason: OrphanRetirementReason,
    current_worktree_id: WorktreeId,
    current_worktree_root: String,
    current_worktree_administrative_locator: String,
    evidence_state: Result<ReservationEvidenceState, ReplayFault>,
)
    ensures
        !(reservation.lifecycle is Released) ==> recovery_plan(
            reservation,
            reservation_id,
            ReservationRecoveryDecision::Abandon(reason),
            current_worktree_id,
            current_worktree_root,
            current_worktree_administrative_locator,
            evidence_state,
        ) == Ok::<RecoveryPlan, RecoveryRejection>(
            (
                JournalOperation::Release { reservation_id, disposition: ReleaseDisposition::Abandoned(reason) },
                ResolvePayloadSeed::Released { reservation_id, disposition: ReleaseDisposition::Abandoned(reason) },
                RecoveryAction::NoAction,
            ),
        ),
        !(reservation.lifecycle is Released) ==> recovery_plan(
            reservation,
            reservation_id,
            ReservationRecoveryDecision::RetireOrphan(orphan_reason),
            current_worktree_id,
            current_worktree_root,
            current_worktree_administrative_locator,
            evidence_state,
        ) == Ok::<RecoveryPlan, RecoveryRejection>(
            (
                JournalOperation::Release {
                    reservation_id,
                    disposition: ReleaseDisposition::RetiredOrphan(orphan_reason),
                },
                ResolvePayloadSeed::Released {
                    reservation_id,
                    disposition: ReleaseDisposition::RetiredOrphan(orphan_reason),
                },
                RecoveryAction::NoAction,
            ),
        ),
        reservation.lifecycle is Released ==> recovery_plan(
            reservation,
            reservation_id,
            ReservationRecoveryDecision::Abandon(reason),
            current_worktree_id,
            current_worktree_root,
            current_worktree_administrative_locator,
            evidence_state,
        ) == Err::<RecoveryPlan, RecoveryRejection>(RecoveryRejection::AlreadyResolved),
{
}

/// Recovery moves unreleased work into another worktree: the plan rebinds the reservation
/// from its holder's worktree to the current one with the current root and locator, reports
/// the new worktree, and republishes the holder's run marker exactly when the work is still
/// active. Recovering into the holder's own worktree is always refused.
pub proof fn recovery_rebinds_unreleased_work_elsewhere(
    reservation: Reservation,
    reservation_id: ReservationId,
    current_worktree_id: WorktreeId,
    current_worktree_root: String,
    current_worktree_administrative_locator: String,
    evidence_state: Result<ReservationEvidenceState, ReplayFault>,
)
    ensures
        reservation.actor.worktree@ == current_worktree_id@ ==> recovery_plan(
            reservation,
            reservation_id,
            ReservationRecoveryDecision::Recovered,
            current_worktree_id,
            current_worktree_root,
            current_worktree_administrative_locator,
            evidence_state,
        ) == Err::<RecoveryPlan, RecoveryRejection>(RecoveryRejection::SameWorktreeRecovery),
        reservation.actor.worktree@ != current_worktree_id@ && !(reservation.lifecycle is Released)
            ==> recovery_plan(
            reservation,
            reservation_id,
            ReservationRecoveryDecision::Recovered,
            current_worktree_id,
            current_worktree_root,
            current_worktree_administrative_locator,
            evidence_state,
        ) == Ok::<RecoveryPlan, RecoveryRejection>(
            (
                JournalOperation::RebindWorktree {
                    reservation_id,
                    previous_worktree_id: reservation.actor.worktree,
                    current_worktree_id,
                    current_worktree_root,
                    current_worktree_administrative_locator,
                },
                ResolvePayloadSeed::Recovered { reservation_id, worktree_id: current_worktree_id },
                if reservation.lifecycle is Active {
                    RecoveryAction::PublishMarker(reservation.actor.run)
                } else {
                    RecoveryAction::NoAction
                },
            ),
        ),
{
}

/// Rewritten integration needs a checkpoint: with active evidence it is refused for want of
/// one, outstanding work is released at the witness, and released work whose integration
/// still stands is not released again.
pub proof fn rewritten_integration_needs_a_checkpoint(
    reservation: Reservation,
    reservation_id: ReservationId,
    trunk_commit: RewrittenIntegrationTrunkCommit,
    current_worktree_id: WorktreeId,
    current_worktree_root: String,
    current_worktree_administrative_locator: String,
    superseded: ReleaseDisposition,
    integration_status: IntegrationEvidenceStatus,
)
    ensures
        recovery_plan(
            reservation,
            reservation_id,
            ReservationRecoveryDecision::IntegratedAs(trunk_commit),
            current_worktree_id,
            current_worktree_root,
            current_worktree_administrative_locator,
            Ok(ReservationEvidenceState::Active),
        ) == Err::<RecoveryPlan, RecoveryRejection>(RecoveryRejection::CheckpointRequired),
        recovery_plan(
            reservation,
            reservation_id,
            ReservationRecoveryDecision::IntegratedAs(trunk_commit),
            current_worktree_id,
            current_worktree_root,
            current_worktree_administrative_locator,
            Ok(ReservationEvidenceState::Outstanding),
        ) == Ok::<RecoveryPlan, RecoveryRejection>(
            (
                JournalOperation::Release {
                    reservation_id,
                    disposition: ReleaseDisposition::RewrittenIntegration(trunk_commit),
                },
                ResolvePayloadSeed::Released {
                    reservation_id,
                    disposition: ReleaseDisposition::RewrittenIntegration(trunk_commit),
                },
                RecoveryAction::NoAction,
            ),
        ),
        integration_status is Integrated ==> recovery_plan(
            reservation,
            reservation_id,
            ReservationRecoveryDecision::IntegratedAs(trunk_commit),
            current_worktree_id,
            current_worktree_root,
            current_worktree_administrative_locator,
            Ok(ReservationEvidenceState::Released { disposition: superseded, integration_status }),
        ) == Err::<RecoveryPlan, RecoveryRejection>(RecoveryRejection::AlreadyResolved),
{
}

} // verus!
