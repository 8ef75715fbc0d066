//! The per-holder reservation record that overlap and recovery decisions read.
use vstd::prelude::*;

use crate::ids::same_text;
use crate::ids::CoordinationRunId;
use crate::ids::ReservationId;
use crate::ids::WorktreeId;
use crate::reservation::lifecycle::ReservationLifecycle;
use crate::reservation::merge_extent::MergeExtent;
use crate::scope::ReservationScopeSet;

verus! {

/// The worktree and coordination run recorded on a journal event.
#[derive(Debug, PartialEq, Eq)]
pub struct JournalActor {
    /// The worktree identity.
    pub worktree: WorktreeId,
    /// The coordination run acting in that worktree.
    pub run: CoordinationRunId,
}

impl JournalActor {
    /// Whether this actor is exactly this coordination run in this worktree.
    pub fn has_coordination_identity(&self, worktree: &WorktreeId, run: &CoordinationRunId) -> (same:
        bool)
        ensures
            same == (self.worktree@ == worktree@ && self.run@ == run@),
    {
        same_text(&self.worktree, worktree) && same_text(&self.run, run)
    }
}

impl Clone for JournalActor {
    fn clone(&self) -> (copy: Self)
        ensures
            copy == *self,
    {
        JournalActor { worktree: self.worktree.clone(), run: self.run.clone() }
    }
}

/// Where the coordination identity that claimed a reservation came from.
#[derive(Clone, Copy, Debug, PartialEq, Eq, Structural)]
pub enum CoordinationIdentityProvenance {
    /// A caller presented the identity.
    Presented,
    /// The engine created the identity for itself.
    EngineCreated,
}

/// A branch that reservations integrate into.
#[derive(Debug, PartialEq, Eq)]
pub struct IntegrationTarget {
    branch: String,
}

impl IntegrationTarget {
    /// The branch name.
    pub closed spec fn branch(self) -> Seq<char> {
        self.branch@
    }

    /// Name a target by its short branch name.
    pub fn from_branch_argument(branch: &str) -> (target: Self)
        ensures
            target.branch() == branch@,
    {
        IntegrationTarget { branch: branch.to_owned() }
    }

    /// The short branch name.
    pub fn short_name(&self) -> (branch: &str)
        ensures
            branch@ == self.branch(),
    {
        self.branch.as_str()
    }

    /// Whether two targets name the same branch.
    pub fn same_as(&self, other: &IntegrationTarget) -> (same: bool)
        ensures
            same == (self.branch() == other.branch()),
    {
        same_text(&self.branch, &other.branch)
    }
}

impl Clone for IntegrationTarget {
    fn clone(&self) -> (copy: Self)
        ensures
            copy == *self,
    {
        IntegrationTarget { branch: self.branch.clone() }
    }
}

/// The integration target a reservation recorded when it was claimed, if any.
#[derive(Debug, PartialEq, Eq)]
pub enum RecordedTarget {
    /// The claim recorded this target.
    Recorded {
        /// The recorded integration branch.
        target: IntegrationTarget,
    },
    /// The claim predates target recording.
    Unrecorded,
}

/// One holder's retained reservation.
#[derive(Debug, PartialEq, Eq)]
pub struct Reservation {
    /// The durable reservation identity.
    pub id: ReservationId,
    /// The worktree and run that hold it.
    pub actor: JournalActor,
    /// Whether a caller presented the holding identity.
    pub provenance: CoordinationIdentityProvenance,
    /// How far the reservation has progressed.
    pub lifecycle: ReservationLifecycle,
    /// The declared editing scopes.
    pub scopes: ReservationScopeSet,
    /// The independently observed branch merge protection.
    pub merge_extent: MergeExtent,
    /// The integration target recorded at claim time.
    pub target: RecordedTarget,
}

/// Whether a holder stands foreign to this coordination run in this worktree: it is held from
/// another worktree, or it is still active for another run that a caller presented.
pub open spec fn foreign_to_run_in_worktree(
    holder: Reservation,
    run: Seq<char>,
    worktree: Seq<char>,
) -> bool {
    holder.actor.worktree@ != worktree || (holder.lifecycle is Active && holder.actor.run@ != run
        && holder.provenance is Presented)
}

impl Reservation {
    /// Whether this holder is foreign to a coordination run acting in a worktree.
    ///
    /// One run occupies a worktree at a time, so a holder in the same worktree is foreign only
    /// while it is active for a different, caller-presented run; once it has left `Active`, or
    /// when the engine created its identity, a later run in that checkout may edit its paths.
    pub fn is_foreign_to_coordination_run_in_worktree(
        &self,
        run: &CoordinationRunId,
        worktree: &WorktreeId,
    ) -> (foreign: bool)
        ensures
            foreign == foreign_to_run_in_worktree(*self, run@, worktree@),
    {
        if !same_text(&self.actor.worktree, worktree) {
            return true;
        }
        let active = match self.lifecycle {
            ReservationLifecycle::Active => true,
            _ => false,
        };
        let presented = match self.provenance {
            CoordinationIdentityProvenance::Presented => true,
            CoordinationIdentityProvenance::EngineCreated => false,
        };
        active && !same_text(&self.actor.run, run) && presented
    }
}

/// Who is foreign to a coordination run in its worktree: a holder kept in another worktree
/// always is; a holder the caller's own run keeps in the caller's worktree never is, whatever
/// its lifecycle or provenance; in the caller's worktree, a holder that has left `Active`, or
/// whose identity the engine created, never is; and an active holder a caller presented for
/// another run in the same worktree is.
pub proof fn foreign_holders_are_other_worktrees_or_other_active_runs(
    holder: Reservation,
    run: Seq<char>,
    worktree: Seq<char>,
)
    ensures
        holder.actor.worktree@ != worktree ==> foreign_to_run_in_worktree(holder, run, worktree),
        holder.actor.worktree@ == worktree && holder.actor.run@ == run ==> !foreign_to_run_in_worktree(
            holder,
            run,
            worktree,
        ),
        holder.actor.worktree@ == worktree && !(holder.lifecycle is Active) ==> !foreign_to_run_in_worktree(
            holder,
            run,
            worktree,
        ),
        holder.actor.worktree@ == worktree && holder.provenance is EngineCreated ==> !foreign_to_run_in_worktree(
            holder,
            run,
            worktree,
        ),
        holder.actor.worktree@ == worktree && holder.actor.run@ != run && holder.lifecycle is Active
            && holder.provenance is Presented ==> foreign_to_run_in_worktree(holder, run, worktree),
{
}

} // verus!
