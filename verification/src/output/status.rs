//! Verbs, statuses and process outcomes named by every response.
use vstd::prelude::*;

verus! {

/// A verb named in a JSON response.
#[derive(Clone, Copy, Debug, PartialEq, Eq, Structural)]
pub enum CommandVerb {
    /// Initialize the shared ledger.
    Init,
    /// Show the reservation board.
    Board,
    /// Check a proposed path footprint.
    Check,
    /// Claim paths for a reservation.
    Claim,
    /// Compare observed changes with one or more active reservations.
    Drift,
    /// Release a reservation at a checkpoint.
    Release,
    /// Record an ordering relationship.
    Sequence,
    /// Integrate a reservation into trunk.
    Integrate,
    /// Resolve a stuck reservation after inspecting its condition.
    Resolve,
    /// Renew a reservation's explicit activity record.
    Renew,
    /// Manage the current process's disposable coordination identity.
    Identity,
}

impl CommandVerb {
    /// The stable wire spelling of this verb.
    pub fn wire_name(&self) -> (name: &'static str)
        ensures
            name@ == match *self {
                CommandVerb::Init => "init"@,
                CommandVerb::Board => "board"@,
                CommandVerb::Check => "check"@,
                CommandVerb::Claim => "claim"@,
                CommandVerb::Drift => "drift"@,
                CommandVerb::Release => "release"@,
                CommandVerb::Sequence => "sequence"@,
                CommandVerb::Integrate => "integrate"@,
                CommandVerb::Resolve => "resolve"@,
                CommandVerb::Renew => "renew"@,
                CommandVerb::Identity => "identity"@,
            },
    {
        match self {
            CommandVerb::Init => "init",
            CommandVerb::Board => "board",
            CommandVerb::Check => "check",
            CommandVerb::Claim => "claim",
            CommandVerb::Drift => "drift",
            CommandVerb::Release => "release",
            CommandVerb::Sequence => "sequence",
            CommandVerb::Integrate => "integrate",
            CommandVerb::Resolve => "resolve",
            CommandVerb::Renew => "renew",
            CommandVerb::Identity => "identity",
        }
    }
}

/// The process outcome a response reports.
#[derive(Clone, Copy, Debug, PartialEq, Eq, Structural)]
pub enum BerthExit {
    /// The response permits the caller to continue.
    Clear,
    /// The ledger could not be read, or the repository is not participating.
    LedgerUnreadable,
    /// The terminal board failed after it opened.
    TerminalViewFailed,
    /// A foreign reservation overlaps the request.
    BlockedByOverlap,
    /// An ordering or deferral hold rejects the request.
    BlockedByOrdering,
    /// A permissive answer needs a reviewed proposal.
    NeedsUserAuthorization,
    /// The caller can correct the request.
    UsageError,
    /// Another operation held the ledger lock through the retry window.
    BlockedByContention,
}

/// The status named in a JSON response.
#[derive(Clone, Copy, Debug, PartialEq, Eq, Structural)]
pub enum OutputStatus {
    /// The verb parsed, but no engine stands behind it yet.
    Unimplemented,
    /// The headless board was projected from reconciled journal and repository facts.
    BoardReady,
    /// Initialization created or verified the durable coordination resources.
    Initialized,
    /// Explicit repair rebuilt only the disposable journal projection.
    ProjectionRepaired,
    /// Confirmed reinitialization discarded the reviewed journal state.
    Reinitialized,
    /// The journal or its projection could not be safely read or published.
    LedgerUnreadable,
    /// The installed reference-transaction hook predates issuing-checkout capture.
    LegacyHookOutdated,
    /// This repository has no berth configuration, so it is not participating in coordination.
    Unconfigured,
    /// The board was handed a terminal and the terminal failed.
    TerminalViewFailed,
    /// An overlap-free edit check may proceed.
    Clear,
    /// A new reservation was appended and published.
    Claimed,
    /// Unreserved changed paths were added to a reservation.
    Widened,
    /// A write entered a foreign edit-blocking reservation.
    Incursion,
    /// A widening gained a foreign blocker before its lock was acquired.
    DriftCollision,
    /// Unclaimed paths require an explicit reservation attribution.
    DriftAttributionRequired,
    /// Several active reservations are eligible, and no session mapping selects one.
    AmbiguousActiveRunReservations,
    /// Repository policy permits no additional live reservations.
    ReservationLimitReached,
    /// Repository policy permits no additional ordering edges.
    OrderingEdgeLimitReached,
    /// One or more foreign reservations overlap the requested paths.
    BlockedByOverlap,
    /// One or more ordering or deferral holds reject integration.
    BlockedByOrdering,
    /// A permissive overlap answer needs a matching reviewed proposal.
    NeedsUserAuthorization,
    /// The caller can correct the request and retry without repairing the ledger.
    InvalidInput,
    /// Another mutation retained the ledger lock through the retry window.
    Contention,
    /// A deferral was converted into one durable ordering edge.
    Sequenced,
    /// The requested directed edge already exists.
    DuplicateOrderingEdge,
    /// The requested directed edge would make the graph cyclic.
    OrderingCycle,
    /// The named reservations have no unresolved deferral to order.
    MissingDeferral,
    /// The reservation now has a protected checkpoint awaiting integration.
    Outstanding,
    /// Current trunk contains the reservation's integration evidence.
    Integrated,
    /// Current trunk no longer contains previously verified evidence.
    TrunkRewritten,
    /// Git could not resolve an object needed to verify integration.
    ObjectUnknown,
    /// A user-confirmed non-integration disposition ended the reservation.
    Released,
    /// A replacement worktree now owns surviving reservation work.
    Recovered,
    /// A still-live reservation recorded recent activity.
    Renewed,
    /// The current harness-session mapping was removed or was already absent.
    SessionMappingCleared,
    /// No harness-session identifier selected a mapping to remove.
    SessionMappingUnavailable,
    /// A user disposition answered one outstanding incursion incident.
    IncursionResolved,
}

/// The process outcome that accompanies each status.
pub open spec fn status_exit(status: OutputStatus) -> BerthExit {
    match status {
        OutputStatus::Unimplemented => BerthExit::Clear,
        OutputStatus::BoardReady => BerthExit::Clear,
        OutputStatus::Initialized => BerthExit::Clear,
        OutputStatus::ProjectionRepaired => BerthExit::Clear,
        OutputStatus::Reinitialized => BerthExit::Clear,
        OutputStatus::LedgerUnreadable => BerthExit::LedgerUnreadable,
        OutputStatus::LegacyHookOutdated => BerthExit::LedgerUnreadable,
        OutputStatus::Unconfigured => BerthExit::LedgerUnreadable,
        OutputStatus::TerminalViewFailed => BerthExit::TerminalViewFailed,
        OutputStatus::Clear => BerthExit::Clear,
        OutputStatus::Claimed => BerthExit::Clear,
        OutputStatus::Widened => BerthExit::Clear,
        OutputStatus::Incursion => BerthExit::BlockedByOverlap,
        OutputStatus::DriftCollision => BerthExit::BlockedByOverlap,
        OutputStatus::DriftAttributionRequired => BerthExit::BlockedByOverlap,
        OutputStatus::AmbiguousActiveRunReservations => BerthExit::BlockedByOverlap,
        OutputStatus::ReservationLimitReached => BerthExit::BlockedByOverlap,
        OutputStatus::OrderingEdgeLimitReached => BerthExit::BlockedByOrdering,
        OutputStatus::BlockedByOverlap => BerthExit::BlockedByOverlap,
        OutputStatus::BlockedByOrdering => BerthExit::BlockedByOrdering,
        OutputStatus::NeedsUserAuthorization => BerthExit::NeedsUserAuthorization,
        OutputStatus::InvalidInput => BerthExit::UsageError,
        OutputStatus::Contention => BerthExit::BlockedByContention,
        OutputStatus::Sequenced => BerthExit::Clear,
        OutputStatus::DuplicateOrderingEdge => BerthExit::BlockedByOrdering,
        OutputStatus::OrderingCycle => BerthExit::BlockedByOrdering,
        OutputStatus::MissingDeferral => BerthExit::BlockedByOrdering,
        OutputStatus::Outstanding => BerthExit::Clear,
        OutputStatus::Integrated => BerthExit::Clear,
        OutputStatus::TrunkRewritten => BerthExit::Clear,
        OutputStatus::ObjectUnknown => BerthExit::Clear,
        OutputStatus::Released => BerthExit::Clear,
        OutputStatus::Recovered => BerthExit::Clear,
        OutputStatus::Renewed => BerthExit::Clear,
        OutputStatus::SessionMappingCleared => BerthExit::Clear,
        OutputStatus::SessionMappingUnavailable => BerthExit::UsageError,
        OutputStatus::IncursionResolved => BerthExit::Clear,
    }
}

impl OutputStatus {
    /// The stable wire spelling of this status.
    pub fn wire_name(&self) -> (name: &'static str)
        ensures
            name@ == match *self {
                OutputStatus::Unimplemented => "unimplemented"@,
                OutputStatus::BoardReady => "board_ready"@,
                OutputStatus::Initialized => "initialized"@,
                OutputStatus::ProjectionRepaired => "projection_repaired"@,
                OutputStatus::Reinitialized => "reinitialized"@,
                OutputStatus::LedgerUnreadable => "ledger_unreadable"@,
                OutputStatus::LegacyHookOutdated => "legacy_hook_outdated"@,
                OutputStatus::Unconfigured => "unconfigured"@,
                OutputStatus::TerminalViewFailed => "terminal_view_failed"@,
                OutputStatus::Clear => "clear"@,
                OutputStatus::Claimed => "claimed"@,
                OutputStatus::Widened => "widened"@,
                OutputStatus::Incursion => "incursion"@,
                OutputStatus::DriftCollision => "drift_collision"@,
                OutputStatus::DriftAttributionRequired => "drift_attribution_required"@,
                OutputStatus::AmbiguousActiveRunReservations => "ambiguous_active_run_reservations"@,
                OutputStatus::ReservationLimitReached => "reservation_limit_reached"@,
                OutputStatus::OrderingEdgeLimitReached => "ordering_edge_limit_reached"@,
                OutputStatus::BlockedByOverlap => "blocked_by_overlap"@,
                OutputStatus::BlockedByOrdering => "blocked_by_ordering"@,
                OutputStatus::NeedsUserAuthorization => "needs_user_authorization"@,
                OutputStatus::InvalidInput => "invalid_input"@,
                OutputStatus::Contention => "contention"@,
                OutputStatus::Sequenced => "sequenced"@,
                OutputStatus::DuplicateOrderingEdge => "duplicate_ordering_edge"@,
                OutputStatus::OrderingCycle => "ordering_cycle"@,
                OutputStatus::MissingDeferral => "missing_deferral"@,
                OutputStatus::Outstanding => "outstanding"@,
                OutputStatus::Integrated => "integrated"@,
                OutputStatus::TrunkRewritten => "trunk_rewritten"@,
                OutputStatus::ObjectUnknown => "object_unknown"@,
                OutputStatus::Released => "released"@,
                OutputStatus::Recovered => "recovered"@,
                OutputStatus::Renewed => "renewed"@,
                OutputStatus::SessionMappingCleared => "session_mapping_cleared"@,
                OutputStatus::SessionMappingUnavailable => "session_mapping_unavailable"@,
                OutputStatus::IncursionResolved => "incursion_resolved"@,
            },
    {
        match self {
            OutputStatus::Unimplemented => "unimplemented",
            OutputStatus::BoardReady => "board_ready",
            OutputStatus::Initialized => "initialized",
            OutputStatus::ProjectionRepaired => "projection_repaired",
            OutputStatus::Reinitialized => "reinitialized",
            OutputStatus::LedgerUnreadable => "ledger_unreadable",
            OutputStatus::LegacyHookOutdated => "legacy_hook_outdated",
            OutputStatus::Unconfigured => "unconfigured",
            OutputStatus::TerminalViewFailed => "terminal_view_failed",
            OutputStatus::Clear => "clear",
            OutputStatus::Claimed => "claimed",
            OutputStatus::Widened => "widened",
            OutputStatus::Incursion => "incursion",
            OutputStatus::DriftCollision => "drift_collision",
            OutputStatus::DriftAttributionRequired => "drift_attribution_required",
            OutputStatus::AmbiguousActiveRunReservations => "ambiguous_active_run_reservations",
            OutputStatus::ReservationLimitReached => "reservation_limit_reached",
            OutputStatus::OrderingEdgeLimitReached => "ordering_edge_limit_reached",
            OutputStatus::BlockedByOverlap => "blocked_by_overlap",
            OutputStatus::BlockedByOrdering => "blocked_by_ordering",
            OutputStatus::NeedsUserAuthorization => "needs_user_authorization",
            OutputStatus::InvalidInput => "invalid_input",
            OutputStatus::Contention => "contention",
            OutputStatus::Sequenced => "sequenced",
            OutputStatus::DuplicateOrderingEdge => "duplicate_ordering_edge",
            OutputStatus::OrderingCycle => "ordering_cycle",
            OutputStatus::MissingDeferral => "missing_deferral",
            OutputStatus::Outstanding => "outstanding",
            OutputStatus::Integrated => "integrated",
            OutputStatus::TrunkRewritten => "trunk_rewritten",
            OutputStatus::ObjectUnknown => "object_unknown",
            OutputStatus::Released => "released",
            OutputStatus::Recovered => "recovered",
            OutputStatus::Renewed => "renewed",
            OutputStatus::SessionMappingCleared => "session_mapping_cleared",
            OutputStatus::SessionMappingUnavailable => "session_mapping_unavailable",
            OutputStatus::IncursionResolved => "incursion_resolved",
        }
    }

    /// The process outcome that accompanies this status.
    pub fn exit(&self) -> (exit: BerthExit)
        ensures
            exit == status_exit(*self),
    {
        match self {
            OutputStatus::Unimplemented => BerthExit::Clear,
            OutputStatus::BoardReady => BerthExit::Clear,
            OutputStatus::Initialized => BerthExit::Clear,
            OutputStatus::ProjectionRepaired => BerthExit::Clear,
            OutputStatus::Reinitialized => BerthExit::Clear,
            OutputStatus::LedgerUnreadable => BerthExit::LedgerUnreadable,
            OutputStatus::LegacyHookOutdated => BerthExit::LedgerUnreadable,
            OutputStatus::Unconfigured => BerthExit::LedgerUnreadable,
            OutputStatus::TerminalViewFailed => BerthExit::TerminalViewFailed,
            OutputStatus::Clear => BerthExit::Clear,
            OutputStatus::Claimed => BerthExit::Clear,
            OutputStatus::Widened => BerthExit::Clear,
            OutputStatus::Incursion => BerthExit::BlockedByOverlap,
            OutputStatus::DriftCollision => BerthExit::BlockedByOverlap,
            OutputStatus::DriftAttributionRequired => BerthExit::BlockedByOverlap,
            OutputStatus::AmbiguousActiveRunReservations => BerthExit::BlockedByOverlap,
            OutputStatus::ReservationLimitReached => BerthExit::BlockedByOverlap,
            OutputStatus::OrderingEdgeLimitReached => BerthExit::BlockedByOrdering,
            OutputStatus::BlockedByOverlap => BerthExit::BlockedByOverlap,
            OutputStatus::BlockedByOrdering => BerthExit::BlockedByOrdering,
            OutputStatus::NeedsUserAuthorization => BerthExit::NeedsUserAuthorization,
            OutputStatus::InvalidInput => BerthExit::UsageError,
            OutputStatus::Contention => BerthExit::BlockedByContention,
            OutputStatus::Sequenced => BerthExit::Clear,
            OutputStatus::DuplicateOrderingEdge => BerthExit::BlockedByOrdering,
            OutputStatus::OrderingCycle => BerthExit::BlockedByOrdering,
            OutputStatus::MissingDeferral => BerthExit::BlockedByOrdering,
            OutputStatus::Outstanding => BerthExit::Clear,
            OutputStatus::Integrated => BerthExit::Clear,
            OutputStatus::TrunkRewritten => BerthExit::Clear,
            OutputStatus::ObjectUnknown => BerthExit::Clear,
            OutputStatus::Released => BerthExit::Clear,
            OutputStatus::Recovered => BerthExit::Clear,
            OutputStatus::Renewed => BerthExit::Clear,
            OutputStatus::SessionMappingCleared => BerthExit::Clear,
            OutputStatus::SessionMappingUnavailable => BerthExit::UsageError,
            OutputStatus::IncursionResolved => BerthExit::Clear,
        }
    }
}

} // verus!
