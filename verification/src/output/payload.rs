//! The verb-keyed facts a response carries beside its prose.
use vstd::prelude::*;

use crate::ids::CoordinationRunId;
use crate::ids::EventId;
use crate::ids::IncursionIncidentId;
use crate::ids::RecordedAt;
use crate::ids::ReservationId;
use crate::ids::WorktreeId;
use crate::output::board::BoardModel;
use crate::output::claim::PermissiveOverlapAnswer;
use crate::output::drift::DriftReport;
use crate::output::identity::CoordinationIdentityRejection;
use crate::output::integration::EdgeReadiness;
use crate::output::integration::IntegrationPayload;
use crate::output::integration::OrderingEdge;
use crate::output::replay::ReplayFailurePayload;
use crate::reservation::conflict::ReservationConflict;
use crate::output::status::status_exit;
use crate::output::status::BerthExit;
use crate::output::status::OutputStatus;
use crate::reservation::evidence::ProtectedReservationTip;
use crate::reservation::lifecycle::IntegrationEvidenceStatus;
use crate::reservation::lifecycle::ReleaseDisposition;
use crate::scope::ReservationScopeSet;
use crate::text::concat2;
use crate::text::concat3;
use crate::text::decimal;
use crate::text::decimal_text;

verus! {

/// The initialization outcome for one durable resource.
#[derive(Clone, Copy, Debug, PartialEq, Eq, Structural)]
pub enum InitializationResource {
    /// This initialization call created the resource.
    Created,
    /// This initialization call retained an existing resource unchanged.
    Existing,
}

/// What initialization did to the journal and the configuration.
#[derive(Clone, Copy, Debug, PartialEq, Eq, Structural)]
pub struct LedgerInitialization {
    /// Whether initialization created the journal or found an existing one.
    pub ledger: InitializationResource,
    /// Whether initialization created the config or left an existing file intact.
    pub configuration: InitializationResource,
}

/// How an active managed hook reached its current state.
#[derive(Clone, Copy, Debug, PartialEq, Eq, Structural)]
pub enum ActiveHookInstallation {
    /// This initialization call created the hook.
    Installed,
    /// This initialization call retained or refreshed the managed hook.
    Current,
}

/// Why a managed hook is not in force after initialization.
#[derive(Debug, PartialEq, Eq)]
pub enum ManagedHookInactivity {
    /// An unrelated hook still owns the hook name.
    PreservedUnmanaged,
    /// Filesystem or git access prevented hook installation.
    InstallationFailed {
        /// The error returned while installing this hook.
        diagnostic: String,
    },
}

/// Whether one managed hook will run after initialization.
#[derive(Debug, PartialEq, Eq)]
pub enum ManagedHookActivation {
    /// The managed hook is installed and executable.
    Active {
        /// Whether this call installed or retained the managed script.
        installation: ActiveHookInstallation,
    },
    /// The managed hook is not in force.
    Inactive {
        /// Why initialization could not activate this hook.
        reason: ManagedHookInactivity,
    },
}

/// The activation result for one hook in the managed-hook registry.
#[derive(Debug, PartialEq, Eq)]
pub struct InitializedManagedHook {
    /// The git hook name from the managed-hook registry.
    pub name: String,
    /// Whether the hook will run and how initialization reached that state.
    pub activation: ManagedHookActivation,
}

/// The resources an `init` call created or left intact.
#[derive(Debug, PartialEq, Eq)]
pub struct InitializationPayload {
    /// Whether initialization created the journal or found an existing one.
    pub ledger: InitializationResource,
    /// Whether initialization created the config or left an existing file intact.
    pub configuration: InitializationResource,
    /// Whether every registered managed hook is now in force.
    pub hooks: Vec<InitializedManagedHook>,
}

/// The exact destructive effect of confirmed ledger reinitialization.
#[derive(Clone, Copy, Debug, PartialEq, Eq, Structural)]
pub struct ReinitializationPayload {
    /// The journal bytes discarded after confirmation.
    pub discarded_bytes: u64,
    /// The newline-terminated records present before truncation.
    pub discarded_complete_records: u64,
    /// Environment bypass markers retained outside the unreadable journal.
    pub pending_environment_bypasses: u64,
}

/// Why a named reservation lifecycle query was rejected.
#[derive(Debug, PartialEq, Eq)]
pub enum ReservationLifecycleQueryRejection {
    /// No retained reservation has this non-recyclable identity.
    UnknownReservation {
        /// The reservation identity supplied by the caller.
        reservation_id: ReservationId,
    },
}

impl ReservationLifecycleQueryRejection {
    /// The reservation the rejected query named.
    pub fn reservation_id(&self) -> (reservation_id: ReservationId)
        ensures
            self matches ReservationLifecycleQueryRejection::UnknownReservation {
                reservation_id: named,
            } && reservation_id == named,
    {
        match self {
            ReservationLifecycleQueryRejection::UnknownReservation { reservation_id } => {
                reservation_id.clone()
            },
        }
    }
}

/// Whether the successful claim also published its worktree run marker.
#[derive(Debug, PartialEq, Eq)]
pub enum CoordinationRunMarkerPublication {
    /// The marker now identifies the run that owns the appended claim.
    Published,
    /// The claim is durable, but the marker could not be updated.
    Unavailable {
        /// The marker publication failure.
        diagnostic: String,
    },
}

/// Whether the harness session mapping reflects a reservation decision.
#[derive(Debug, PartialEq, Eq)]
pub enum SessionIdentityMappingPublication {
    /// The mapping now reflects the decision.
    Published,
    /// No usable harness session id was supplied, so the explicit selection is not remembered.
    ExplicitSelectionAppliesOnlyToCurrentInvocation,
    /// The mapping could not be written.
    Unavailable {
        /// The publication failure.
        diagnostic: String,
    },
}

/// A reasoned overlap answer turned into a proposal that awaits explicit approval.
#[derive(Debug, PartialEq, Eq)]
pub struct OverlapEscalationPayload {
    /// Every holder the proposal binds.
    pub conflicts: Vec<ReservationConflict>,
    /// The answer the proposal records.
    pub answer: PermissiveOverlapAnswer,
    /// Why the caller asks for the overlap.
    pub authorization_reason: String,
    /// What recording the overlap will mean.
    pub consequence: String,
    /// The transient token that submits exactly this proposal.
    pub proposal_token: String,
}

/// How a first-touch edit came to hold its paths.
#[derive(Clone, Copy, Debug, PartialEq, Eq, Structural)]
pub enum FirstTouchReservationAcquisitionKind {
    /// A first-touch reservation was appended.
    Appended,
    /// The acting run's first-touch reservation was widened.
    Widened,
    /// The acting run already held the paths.
    AlreadyHeld,
}

/// The reservation a first-touch edit holds its paths under.
#[derive(Debug, PartialEq, Eq)]
pub struct FirstTouchReservationAcquisition {
    /// The reservation that protects the edit.
    pub reservation_id: ReservationId,
    /// How the edit came to hold the paths.
    pub kind: FirstTouchReservationAcquisitionKind,
    /// Whether the harness session mapping reflects the reservation.
    pub session_mapping_publication: SessionIdentityMappingPublication,
}

/// Typed outcomes returned by `check`.
#[derive(Debug, PartialEq, Eq)]
pub enum CheckPayload {
    /// No foreign live reservation overlaps the requested paths.
    Clear {
        /// The exact file scopes evaluated by the hook.
        scopes: ReservationScopeSet,
        /// The complete first-touch result that permits the edit.
        acquisition: FirstTouchReservationAcquisition,
    },
    /// Foreign holders block one or more requested paths.
    Blocked {
        /// The exact file scopes evaluated by the hook.
        scopes: ReservationScopeSet,
        /// Every holder whose live scopes intersected the request.
        conflicts: Vec<ReservationConflict>,
    },
}

/// Typed outcomes returned when first-touch validation must select an active reservation.
#[derive(Debug, PartialEq, Eq)]
pub enum FirstTouchReservationSelectionPayload {
    /// No usable session mapping distinguishes several eligible active reservations.
    AmbiguousActiveRunReservations {
        /// Every eligible reservation id in ascending deterministic order.
        candidate_reservation_ids: Vec<ReservationId>,
    },
}

/// Typed outcomes returned by `claim` that this library reports.
#[derive(Debug, PartialEq, Eq)]
pub enum ClaimPayload {
    /// A reservation was appended with this footprint.
    Claimed {
        /// The newly issued reservation identity.
        reservation_id: ReservationId,
        /// The coordination run that owns the appended reservation.
        coordination_run_id: CoordinationRunId,
        /// The exact durable footprint.
        scopes: ReservationScopeSet,
        /// Whether the worktree marker records `coordination_run_id`.
        marker_publication: CoordinationRunMarkerPublication,
        /// Whether the harness session mapping reflects this claim.
        session_mapping_publication: SessionIdentityMappingPublication,
    },
    /// Foreign holders block the requested scopes.
    Blocked {
        /// Every holder whose live scopes intersected the request.
        conflicts: Vec<ReservationConflict>,
    },
    /// A permissive overlap answer awaits explicit approval of its proposal.
    NeedsUserAuthorization {
        /// The proposal and every holder it binds.
        escalation: OverlapEscalationPayload,
    },
    /// Repository policy rejected another live reservation.
    ReservationLimitReached {
        /// The configured maximum number of nonterminal reservations.
        maximum: u32,
    },
    /// Repository policy rejected another claim-time ordering edge.
    OrderingEdgeLimitReached {
        /// The configured maximum number of durable ordering edges.
        maximum: u32,
    },
}

/// A stable semantic rejection returned by `sequence`.
#[derive(Debug, PartialEq, Eq)]
pub enum SequenceRejectionKind {
    /// At least one endpoint does not name a retained reservation.
    UnknownEndpoint {
        /// The missing reservation.
        reservation_id: ReservationId,
    },
    /// One reservation was supplied as both endpoints.
    SameEndpoint,
    /// The exact directed edge already exists.
    Duplicate,
    /// The proposed edge would create a directed cycle.
    Cycle,
    /// No unresolved defer answer joins the endpoints.
    MissingDeferral,
    /// Both endpoint directions contain defer answers.
    AmbiguousDeferral,
    /// Repository policy permits no additional ordering edge.
    OrderingEdgeLimitReached {
        /// The configured durable edge maximum.
        maximum: u32,
    },
}

/// The reservations that block a rejected ordering edge.
pub open spec fn sequence_blockers(
    reason: SequenceRejectionKind,
    first: ReservationId,
    then: ReservationId,
) -> Seq<ReservationId> {
    match reason {
        SequenceRejectionKind::Duplicate => seq![first],
        SequenceRejectionKind::Cycle => seq![then],
        _ => Seq::empty(),
    }
}

/// The status a rejected ordering edge reports.
pub open spec fn sequence_rejection_status(reason: SequenceRejectionKind) -> OutputStatus {
    match reason {
        SequenceRejectionKind::Duplicate => OutputStatus::DuplicateOrderingEdge,
        SequenceRejectionKind::Cycle => OutputStatus::OrderingCycle,
        SequenceRejectionKind::MissingDeferral => OutputStatus::MissingDeferral,
        SequenceRejectionKind::OrderingEdgeLimitReached { .. } => OutputStatus::OrderingEdgeLimitReached,
        _ => OutputStatus::InvalidInput,
    }
}

/// The prose a rejected ordering edge reports.
pub open spec fn sequence_rejection_message(
    reason: SequenceRejectionKind,
    first: Seq<char>,
    then: Seq<char>,
) -> Seq<char> {
    match reason {
        SequenceRejectionKind::Duplicate => "Ordering edge "@ + first + " before "@ + then
            + " already exists."@,
        SequenceRejectionKind::Cycle => "Ordering edge "@ + first + " before "@ + then
            + " would create a cycle."@,
        SequenceRejectionKind::MissingDeferral => "Reservations "@ + first + " and "@ + then
            + " have no unresolved defer answer to sequence."@,
        SequenceRejectionKind::OrderingEdgeLimitReached { maximum } => "The configured maximum of "@
            + decimal(maximum as nat) + " ordering edges has been reached."@,
        SequenceRejectionKind::UnknownEndpoint { reservation_id } => "Reservation "@
            + reservation_id@ + " does not exist."@,
        SequenceRejectionKind::SameEndpoint => "An ordering edge requires two different reservations."@,
        SequenceRejectionKind::AmbiguousDeferral => "Reservations "@ + first + " and "@ + then
            + " recorded deferrals in both directions."@,
    }
}

impl SequenceRejectionKind {
    /// The reservations that block this rejected edge.
    pub fn blocked_by(&self, first: &ReservationId, then: &ReservationId) -> (blockers: Vec<
        ReservationId,
    >)
        ensures
            blockers@ == sequence_blockers(*self, *first, *then),
    {
        let mut blockers: Vec<ReservationId> = Vec::new();
        match self {
            SequenceRejectionKind::Duplicate => blockers.push(first.clone()),
            SequenceRejectionKind::Cycle => blockers.push(then.clone()),
            _ => {},
        }
        proof {
            if !(*self is Duplicate) && !(*self is Cycle) {
                assert(blockers@ =~= Seq::<ReservationId>::empty());
            }
        }
        blockers
    }

    /// The status, process outcome and prose this rejection reports.
    pub fn response(&self, first: &ReservationId, then: &ReservationId) -> (response: (
        OutputStatus,
        BerthExit,
        String,
    ))
        ensures
            response.0 == sequence_rejection_status(*self),
            response.1 == crate::output::status::status_exit(response.0),
            response.2@ == sequence_rejection_message(*self, first@, then@),
    {
        match self {
            SequenceRejectionKind::Duplicate => {
                let mut message = concat2("Ordering edge ", first.as_str());
                message.append(" before ");
                message.append(then.as_str());
                message.append(" already exists.");
                (OutputStatus::DuplicateOrderingEdge, BerthExit::BlockedByOrdering, message)
            },
            SequenceRejectionKind::Cycle => {
                let mut message = concat2("Ordering edge ", first.as_str());
                message.append(" before ");
                message.append(then.as_str());
                message.append(" would create a cycle.");
                (OutputStatus::OrderingCycle, BerthExit::BlockedByOrdering, message)
            },
            SequenceRejectionKind::MissingDeferral => {
                let mut message = concat2("Reservations ", first.as_str());
                message.append(" and ");
                message.append(then.as_str());
                message.append(" have no unresolved defer answer to sequence.");
                (OutputStatus::MissingDeferral, BerthExit::BlockedByOrdering, message)
            },
            SequenceRejectionKind::OrderingEdgeLimitReached { maximum } => {
                let count = decimal_text(*maximum as u64);
                (
                    OutputStatus::OrderingEdgeLimitReached,
                    BerthExit::BlockedByOrdering,
                    concat3(
                        "The configured maximum of ",
                        count.as_str(),
                        " ordering edges has been reached.",
                    ),
                )
            },
            SequenceRejectionKind::UnknownEndpoint { reservation_id } => (
                OutputStatus::InvalidInput,
                BerthExit::UsageError,
                concat3("Reservation ", reservation_id.as_str(), " does not exist."),
            ),
            SequenceRejectionKind::SameEndpoint => (
                OutputStatus::InvalidInput,
                BerthExit::UsageError,
                "An ordering edge requires two different reservations.".to_owned(),
            ),
            SequenceRejectionKind::AmbiguousDeferral => {
                let mut message = concat2("Reservations ", first.as_str());
                message.append(" and ");
                message.append(then.as_str());
                message.append(" recorded deferrals in both directions.");
                (OutputStatus::InvalidInput, BerthExit::UsageError, message)
            },
        }
    }
}

/// Typed outcomes returned by `sequence` that this library reports.
#[derive(Debug, PartialEq, Eq)]
pub enum SequencePayload {
    /// One durable ordering edge was recorded.
    Sequenced {
        /// The recorded edge.
        edge: OrderingEdge,
        /// Where the edge stands now.
        readiness: EdgeReadiness,
    },
    /// The locked graph rejected the requested relationship.
    Rejected {
        /// The requested predecessor.
        first: ReservationId,
        /// The requested successor.
        then: ReservationId,
        /// The semantic reason no edge was appended.
        reason: SequenceRejectionKind,
    },
}

/// The ordinary-release decision for the worktree coordination-run marker.
#[derive(Debug, PartialEq, Eq)]
pub enum CoordinationRunMarkerRetirement {
    /// The marker still named this run and was removed.
    Removed,
    /// No marker existed when release checked it.
    AlreadyAbsent,
    /// Another active reservation from this run still needs the marker.
    PreservedForActiveReservation,
    /// A newer run owns the marker.
    PreservedDifferentRun,
    /// The stateful check ran outside the reservation's holder worktree.
    PreservedDifferentWorktree,
    /// A malformed marker remains for reconciliation.
    PreservedMalformed,
    /// The release fact is durable, but marker access failed.
    Unavailable {
        /// The marker filesystem diagnostic.
        diagnostic: String,
    },
}

/// Typed state transitions and evidence results returned by `release`.
#[derive(Debug, PartialEq, Eq)]
pub enum ReleasePayload {
    /// An active reservation recorded its first protected checkpoint.
    Checkpointed {
        /// The reservation that changed state.
        reservation_id: ReservationId,
        /// The fixed commit retained for integration checks.
        protected_tip: ProtectedReservationTip,
        /// The trunk commit observed at checkpoint.
        trunk_oid: String,
        /// What happened to the worktree coordination-run marker.
        marker: CoordinationRunMarkerRetirement,
        /// Whether the harness session mapping retired this reservation.
        session_mapping_publication: SessionIdentityMappingPublication,
    },
    /// A rebased outstanding reservation replaced its protected checkpoint.
    Resnapshotted {
        /// The reservation that changed state.
        reservation_id: ReservationId,
        /// The replacement fixed commit.
        protected_tip: ProtectedReservationTip,
        /// The trunk commit observed with the replacement.
        trunk_oid: String,
        /// What happened to the worktree coordination-run marker.
        marker: CoordinationRunMarkerRetirement,
    },
    /// A point-in-time git result was appended for hook-safe replay.
    EvidenceRevalidated {
        /// The reservation whose evidence was checked.
        reservation_id: ReservationId,
        /// What current trunk proves.
        evidence: IntegrationEvidenceStatus,
        /// What happened to the worktree coordination-run marker.
        marker: CoordinationRunMarkerRetirement,
    },
    /// A verified or user-confirmed disposition was appended.
    Released {
        /// The reservation that received the disposition.
        reservation_id: ReservationId,
        /// The retained terminal disposition.
        disposition: ReleaseDisposition,
        /// What happened to the worktree coordination-run marker.
        marker: CoordinationRunMarkerRetirement,
        /// Whether the harness session mapping retired this reservation.
        session_mapping_publication: SessionIdentityMappingPublication,
    },
}

/// The status a terminal disposition reports.
pub open spec fn disposition_status(disposition: ReleaseDisposition) -> OutputStatus {
    match disposition {
        ReleaseDisposition::Integrated => OutputStatus::Integrated,
        ReleaseDisposition::RewrittenIntegration(_) => OutputStatus::Integrated,
        _ => OutputStatus::Released,
    }
}

/// Report a terminal disposition's status.
pub fn release_disposition_status(disposition: &ReleaseDisposition) -> (status: OutputStatus)
    ensures
        status == disposition_status(*disposition),
{
    match disposition {
        ReleaseDisposition::Integrated => OutputStatus::Integrated,
        ReleaseDisposition::RewrittenIntegration(_) => OutputStatus::Integrated,
        _ => OutputStatus::Released,
    }
}

/// The reservation a release payload is about.
pub open spec fn release_subject(payload: ReleasePayload) -> ReservationId {
    match payload {
        ReleasePayload::Checkpointed { reservation_id, .. } => reservation_id,
        ReleasePayload::Resnapshotted { reservation_id, .. } => reservation_id,
        ReleasePayload::EvidenceRevalidated { reservation_id, .. } => reservation_id,
        ReleasePayload::Released { reservation_id, .. } => reservation_id,
    }
}

/// The status a release payload reports.
pub open spec fn release_status(payload: ReleasePayload) -> OutputStatus {
    match payload {
        ReleasePayload::Checkpointed { .. } => OutputStatus::Outstanding,
        ReleasePayload::Resnapshotted { .. } => OutputStatus::Outstanding,
        ReleasePayload::EvidenceRevalidated { evidence, .. } => match evidence {
            IntegrationEvidenceStatus::Integrated { .. } => OutputStatus::Integrated,
            IntegrationEvidenceStatus::NotIntegrated => OutputStatus::Outstanding,
            IntegrationEvidenceStatus::TrunkRewritten => OutputStatus::TrunkRewritten,
            IntegrationEvidenceStatus::ObjectUnknown => OutputStatus::ObjectUnknown,
        },
        ReleasePayload::Released { disposition, .. } => disposition_status(disposition),
    }
}

impl ReleasePayload {
    /// The reservation this payload is about.
    pub fn reservation_id(&self) -> (reservation_id: ReservationId)
        ensures
            reservation_id == release_subject(*self),
    {
        match self {
            ReleasePayload::Checkpointed { reservation_id, .. } => reservation_id.clone(),
            ReleasePayload::Resnapshotted { reservation_id, .. } => reservation_id.clone(),
            ReleasePayload::EvidenceRevalidated { reservation_id, .. } => reservation_id.clone(),
            ReleasePayload::Released { reservation_id, .. } => reservation_id.clone(),
        }
    }

    /// The status this payload reports.
    pub fn output_status(&self) -> (status: OutputStatus)
        ensures
            status == release_status(*self),
    {
        match self {
            ReleasePayload::Checkpointed { .. } => OutputStatus::Outstanding,
            ReleasePayload::Resnapshotted { .. } => OutputStatus::Outstanding,
            ReleasePayload::EvidenceRevalidated { evidence, .. } => match evidence {
                IntegrationEvidenceStatus::Integrated { .. } => OutputStatus::Integrated,
                IntegrationEvidenceStatus::NotIntegrated => OutputStatus::Outstanding,
                IntegrationEvidenceStatus::TrunkRewritten => OutputStatus::TrunkRewritten,
                IntegrationEvidenceStatus::ObjectUnknown => OutputStatus::ObjectUnknown,
            },
            ReleasePayload::Released { disposition, .. } => release_disposition_status(disposition),
        }
    }
}

/// Typed outcomes returned by `resolve`.
#[derive(Debug, PartialEq, Eq)]
pub enum ResolvePayload {
    /// A user disposition answered an outstanding incursion incident.
    IncursionResolved { reservation_id: ReservationId, incident_id: IncursionIncidentId },
    /// This invocation appended the requested incursion disposition.
    RecordedNow { reservation_id: ReservationId, incident_id: IncursionIncidentId },
    /// This worktree coordination run had already appended the disposition.
    AlreadyRecordedBySameCoordinationActor {
        reservation_id: ReservationId,
        incident_id: IncursionIncidentId,
    },
    /// Another worktree coordination run had already appended the disposition.
    AlreadyRecordedByDifferentCoordinationActor {
        reservation_id: ReservationId,
        incident_id: IncursionIncidentId,
        resolving_worktree_id: WorktreeId,
        resolving_coordination_run_id: CoordinationRunId,
        resolution_event_id: EventId,
        resolved_at: RecordedAt,
    },
    /// A user disposition answered every incident outstanding for one reservation.
    EveryIncursionResolved { reservation_id: ReservationId, incident_ids: Vec<IncursionIncidentId> },
    /// Surviving work moved to a replacement worktree identity.
    Recovered { reservation_id: ReservationId, worktree_id: WorktreeId },
    /// A user-confirmed terminal disposition resolved the reservation.
    Released {
        reservation_id: ReservationId,
        disposition: ReleaseDisposition,
        session_mapping_publication: SessionIdentityMappingPublication,
    },
}

/// Whether the current harness session mapping was removed.
#[derive(Clone, Copy, Debug, PartialEq, Eq, Structural)]
pub enum CurrentSessionMappingRemoval {
    /// The mapping was removed.
    Removed,
    /// No mapping was stored.
    AlreadyAbsent,
    /// The process supplied no usable harness session identifier.
    CurrentSessionUnavailable,
}

/// Typed outcomes returned by `identity`.
#[derive(Clone, Copy, Debug, PartialEq, Eq, Structural)]
pub enum IdentityPayload {
    /// The current harness session's mapping was removed.
    SessionMappingRemoved,
    /// The current harness session had no stored mapping.
    SessionMappingAlreadyAbsent,
    /// The process supplied no usable harness session identifier.
    CurrentSessionUnavailable,
}

/// The identity payload reporting a mapping removal.
pub open spec fn identity_payload_of(removal: CurrentSessionMappingRemoval) -> IdentityPayload {
    match removal {
        CurrentSessionMappingRemoval::Removed => IdentityPayload::SessionMappingRemoved,
        CurrentSessionMappingRemoval::AlreadyAbsent => IdentityPayload::SessionMappingAlreadyAbsent,
        CurrentSessionMappingRemoval::CurrentSessionUnavailable => IdentityPayload::CurrentSessionUnavailable,
    }
}

impl From<CurrentSessionMappingRemoval> for IdentityPayload {
    fn from(removal: CurrentSessionMappingRemoval) -> (payload: Self) {
        match removal {
            CurrentSessionMappingRemoval::Removed => IdentityPayload::SessionMappingRemoved,
            CurrentSessionMappingRemoval::AlreadyAbsent => IdentityPayload::SessionMappingAlreadyAbsent,
            CurrentSessionMappingRemoval::CurrentSessionUnavailable => {
                IdentityPayload::CurrentSessionUnavailable
            },
        }
    }
}

impl vstd::std_specs::convert::FromSpecImpl<CurrentSessionMappingRemoval> for IdentityPayload {
    open spec fn obeys_from_spec() -> bool {
        true
    }

    open spec fn from_spec(removal: CurrentSessionMappingRemoval) -> Self {
        identity_payload_of(removal)
    }
}

/// Structured facts that correspond to the response's verb.
#[derive(Debug, PartialEq, Eq)]
pub enum OutputFacts {
    /// The operation failed before it could establish any durable facts.
    NoFacts,
    /// A typed invariant violation stopped append-only journal replay.
    ReplayFailure(ReplayFailurePayload),
    /// Facts returned by `init`.
    Init(InitializationPayload),
    /// Facts returned by `init --repair-projection`: the reservation projection was rebuilt and
    /// the journal left unchanged.
    ProjectionRepair,
    /// Facts returned by confirmed journal reinitialization.
    Reinitialize(ReinitializationPayload),
    /// A typed unknown-id rejection of a reservation lifecycle query.
    Reservation(ReservationLifecycleQueryRejection),
    /// Facts returned when first-touch validation could not select one active reservation.
    FirstTouchReservationSelection(FirstTouchReservationSelectionPayload),
    /// Facts returned by `check`.
    Check(CheckPayload),
    /// Facts returned by `claim`.
    Claim(ClaimPayload),
    /// Facts returned by `release`.
    Release(ReleasePayload),
    /// Facts returned by `sequence`.
    Sequence(SequencePayload),
    /// Facts returned by a recovery decision.
    Resolve(ResolvePayload),
    /// Facts returned by the headless reservation board.
    Board(BoardModel),
    /// Facts returned by `drift`.
    Drift(DriftReport),
    /// Facts returned by `integrate`.
    Integrate(IntegrationPayload),
    /// Facts returned by a renewal.
    Renew {
        /// The reservation whose activity timestamp advanced.
        reservation_id: ReservationId,
    },
    /// A typed refusal of the caller's coordination identity.
    CoordinationIdentity(CoordinationIdentityRejection),
    /// Facts returned by coordination identity management.
    Identity(IdentityPayload),
}

/// A release response reports what the lifecycle now shows: a checkpoint or resnapshot leaves
/// the work outstanding, a disposition git proved reports integration, a user decision
/// reports a plain release, and revalidated evidence reports what trunk now proves; none of
/// them stops the caller.
pub proof fn release_statuses_follow_the_recorded_outcome(payload: ReleasePayload)
    ensures
        payload is Checkpointed || payload is Resnapshotted ==> release_status(payload) == OutputStatus::Outstanding,
        payload matches ReleasePayload::Released { disposition, .. } && (disposition is Integrated
            || disposition is RewrittenIntegration) ==> release_status(payload) == OutputStatus::Integrated,
        payload matches ReleasePayload::Released { disposition, .. } && (disposition is Abandoned
            || disposition is RetiredOrphan) ==> release_status(payload) == OutputStatus::Released,
        payload matches ReleasePayload::EvidenceRevalidated { evidence, .. } && evidence is Integrated
            ==> release_status(payload) == OutputStatus::Integrated,
        payload matches ReleasePayload::EvidenceRevalidated { evidence, .. } && evidence is NotIntegrated
            ==> release_status(payload) == OutputStatus::Outstanding,
        payload matches ReleasePayload::EvidenceRevalidated { evidence, .. } && evidence is TrunkRewritten
            ==> release_status(payload) == OutputStatus::TrunkRewritten,
        status_exit(release_status(payload)) == BerthExit::Clear,
{
}

} // verus!
