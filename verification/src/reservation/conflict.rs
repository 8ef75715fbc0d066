//! The foreign holder that blocks a requested scope, described for the caller.
//!
//! A conflict is a snapshot of one blocking holder taken at the moment overlap was evaluated:
//! the holder's identity and revision, the scopes that actually intersect, and enough
//! provenance for the caller to decide whether to wait, ask, or widen.
use vstd::prelude::*;

use crate::ids::CoordinationRunId;
use crate::ids::GitObjectId;
use crate::ids::RecordedAt;
use crate::ids::ReservationId;
use crate::ids::WorktreeId;
use crate::scope::ReservationScopeSet;
use crate::text::concat2;

verus! {

/// The holder's attached branch or detached commit when it claimed.
#[derive(Debug, PartialEq, Eq)]
pub enum ClaimHeadSnapshot {
    /// The holder was on this branch.
    Branch {
        /// The full reference name.
        full_ref: String,
    },
    /// The holder's HEAD was detached at this commit.
    Detached {
        /// The detached commit.
        head: GitObjectId,
    },
}

/// How a reservation was acquired.
#[derive(Debug, PartialEq, Eq)]
pub enum ClaimSource {
    /// A work plan's phase claimed it.
    WorkPlan {
        /// The plan.
        plan: String,
        /// The phase within the plan.
        phase: String,
    },
    /// The first edit to reach the paths acquired it.
    FirstTouch,
    /// A caller claimed it explicitly.
    Explicit,
}

/// Why a holder protects its paths.
#[derive(Debug, PartialEq, Eq)]
pub enum ReservationPurpose {
    /// The caller explained the purpose.
    Explained(String),
    /// The caller gave no reason.
    NotProvidedByCaller,
}

/// Whether a holder recorded activity inside the freshness window.
#[derive(Debug, PartialEq, Eq)]
pub enum ReservationHolderActivity {
    /// The holder is active.
    Active {
        /// When it last recorded activity.
        last_activity_at: RecordedAt,
    },
    /// The holder has gone quiet.
    Quiet {
        /// When it last recorded activity.
        last_activity_at: RecordedAt,
    },
}

/// One foreign holder whose retained reservation intersects requested scopes.
#[derive(Debug, PartialEq, Eq)]
pub struct ReservationConflict {
    /// The durable reservation that holds the overlapping paths.
    pub reservation_id: ReservationId,
    /// The holder revision against which the overlap was evaluated.
    pub reservation_revision: u64,
    /// The holder revision that changes only when its scopes change.
    pub overlap_scope_revision: u64,
    /// The worktree identity that acquired the reservation.
    pub holder_worktree_id: WorktreeId,
    /// The coordination run that acquired the reservation.
    pub holder_run_id: CoordinationRunId,
    /// The holder's attached branch or detached commit.
    pub head_snapshot: ClaimHeadSnapshot,
    /// The holder's typed acquisition provenance.
    pub source: ClaimSource,
    /// The holder's typed reason for protecting the paths.
    pub purpose: ReservationPurpose,
    /// The holder scopes that intersect the requested scopes.
    pub overlapping_scopes: ReservationScopeSet,
    /// When the holder acquired the reservation.
    pub claimed_at: RecordedAt,
    /// Whether the holder has recorded activity inside the freshness window.
    pub activity: ReservationHolderActivity,
}

/// The label of a holder's branch state.
pub open spec fn branch_label(head_snapshot: ClaimHeadSnapshot) -> Seq<char> {
    match head_snapshot {
        ClaimHeadSnapshot::Branch { full_ref } => full_ref@,
        ClaimHeadSnapshot::Detached { head } => "detached at "@ + head@,
    }
}

/// The sentence describing a holder's activity.
pub open spec fn activity_text(activity: ReservationHolderActivity) -> Seq<char> {
    match activity {
        ReservationHolderActivity::Active { last_activity_at } => "active; last activity at "@
            + last_activity_at@,
        ReservationHolderActivity::Quiet { last_activity_at } => "gone quiet; last activity at "@
            + last_activity_at@,
    }
}

impl ReservationConflict {
    /// Return a compact display label for the holder's branch state.
    pub fn holder_branch(&self) -> (label: String)
        ensures
            label@ == branch_label(self.head_snapshot),
    {
        match &self.head_snapshot {
            ClaimHeadSnapshot::Branch { full_ref } => full_ref.clone(),
            ClaimHeadSnapshot::Detached { head } => concat2("detached at ", head.as_str()),
        }
    }

    /// Return the worktree that owns the conflicting reservation.
    pub fn holder_worktree_id(&self) -> (worktree: &WorktreeId)
        ensures
            *worktree == self.holder_worktree_id,
    {
        &self.holder_worktree_id
    }

    /// Return when the holder acquired the conflicting reservation.
    pub fn claimed_at(&self) -> (claimed_at: &RecordedAt)
        ensures
            *claimed_at == self.claimed_at,
    {
        &self.claimed_at
    }

    /// Describe whether the holder remains active and when it last recorded activity.
    pub fn holder_activity_description(&self) -> (text: String)
        ensures
            text@ == activity_text(self.activity),
    {
        match &self.activity {
            ReservationHolderActivity::Active { last_activity_at } => concat2(
                "active; last activity at ",
                last_activity_at.as_str(),
            ),
            ReservationHolderActivity::Quiet { last_activity_at } => concat2(
                "gone quiet; last activity at ",
                last_activity_at.as_str(),
            ),
        }
    }
}

} // verus!
