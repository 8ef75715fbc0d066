//! How retained reservations partition into the caller's own work and foreign holds.
use vstd::prelude::*;

use crate::ids::same_text;
use crate::ids::CoordinationRunId;
use crate::ids::ReservationId;
use crate::ids::WorktreeId;
use crate::reservation::record::foreign_to_run_in_worktree;
use crate::reservation::record::Reservation;

verus! {

/// The actor identity permitted to receive its reservation-specific overlap answers.
///
/// Every identified variant names a worktree and the coordination run acting in it: recorded
/// overlap answers bind the worktree, while active work belongs to the run that acquired it.
#[derive(Debug, PartialEq, Eq)]
pub enum AuthorizedEditingIdentity {
    /// A live session mapping identifies one exact reservation.
    SessionReservation {
        coordination_run_id: CoordinationRunId,
        reservation_id: ReservationId,
        worktree_id: WorktreeId,
    },
    /// The environment, a validated marker, or a locked first-touch transaction identifies
    /// this coordination run in this worktree.
    Run { coordination_run_id: CoordinationRunId, worktree_id: WorktreeId },
    /// No coordination run can be proven for this edit.
    Unidentified,
}

/// Whether a holder is foreign to the caller this identity proves.
pub open spec fn foreign_to_identity(identity: AuthorizedEditingIdentity, holder: Reservation) -> bool {
    match identity {
        AuthorizedEditingIdentity::SessionReservation { coordination_run_id, worktree_id, .. } => {
            foreign_to_run_in_worktree(holder, coordination_run_id@, worktree_id@)
        },
        AuthorizedEditingIdentity::Run { coordination_run_id, worktree_id } => {
            foreign_to_run_in_worktree(holder, coordination_run_id@, worktree_id@)
        },
        AuthorizedEditingIdentity::Unidentified => true,
    }
}

/// Whether a reservation is one the caller's own worktree holds.
pub open spec fn identifies(identity: AuthorizedEditingIdentity, requester: Reservation) -> bool {
    match identity {
        AuthorizedEditingIdentity::SessionReservation { worktree_id, .. } => requester.actor.worktree@
            == worktree_id@,
        AuthorizedEditingIdentity::Run { worktree_id, .. } => requester.actor.worktree@
            == worktree_id@,
        AuthorizedEditingIdentity::Unidentified => false,
    }
}

impl AuthorizedEditingIdentity {
    /// Whether this holder is foreign to the caller: another worktree, or another
    /// caller-presented run still occupying this one. An unidentified caller owns nothing.
    pub fn is_foreign(&self, holder: &Reservation) -> (foreign: bool)
        ensures
            foreign == foreign_to_identity(*self, *holder),
    {
        match self {
            AuthorizedEditingIdentity::SessionReservation {
                coordination_run_id,
                worktree_id,
                ..
            } => holder.is_foreign_to_coordination_run_in_worktree(coordination_run_id, worktree_id),
            AuthorizedEditingIdentity::Run { coordination_run_id, worktree_id } => {
                holder.is_foreign_to_coordination_run_in_worktree(coordination_run_id, worktree_id)
            },
            AuthorizedEditingIdentity::Unidentified => true,
        }
    }

    /// Whether this reservation is one the caller's own worktree holds.
    ///
    /// Overlap answers bind the worktree that recorded them, so a later run in the same
    /// worktree inherits them along with the reservations they were recorded against.
    pub fn identifies_requester(&self, requester: &Reservation) -> (own: bool)
        ensures
            own == identifies(*self, *requester),
    {
        match self {
            AuthorizedEditingIdentity::SessionReservation { worktree_id, .. } => same_text(
                &requester.actor.worktree,
                worktree_id,
            ),
            AuthorizedEditingIdentity::Run { worktree_id, .. } => same_text(
                &requester.actor.worktree,
                worktree_id,
            ),
            AuthorizedEditingIdentity::Unidentified => false,
        }
    }
}

/// The caller's own worktree never blocks itself on a holder that has left `Active`, and a
/// holder the caller's worktree holds under the caller's own run is never foreign; an
/// unidentified caller finds every holder foreign and owns none.
pub proof fn own_worktree_does_not_block_itself(
    identity: AuthorizedEditingIdentity,
    holder: Reservation,
)
    ensures
        identity is Unidentified ==> foreign_to_identity(identity, holder) && !identifies(
            identity,
            holder,
        ),
        identities_worktree(identity, holder) && !(holder.lifecycle is Active) ==> !foreign_to_identity(
            identity,
            holder,
        ),
        identities_worktree(identity, holder) && holder.provenance is EngineCreated
            ==> !foreign_to_identity(identity, holder),
        !(identity is Unidentified) && !identifies(identity, holder) ==> foreign_to_identity(
            identity,
            holder,
        ),
{
}

/// Whether the identity names a worktree and the holder is held there.
pub open spec fn identities_worktree(identity: AuthorizedEditingIdentity, holder: Reservation) -> bool {
    !(identity is Unidentified) && identifies(identity, holder)
}

/// A caller never blocks on its own run: a holder kept in the caller's worktree under the
/// coordination run the caller's identity names is not foreign to it, whatever its lifecycle
/// or provenance; a holder kept in another worktree always is.
pub proof fn own_run_is_never_foreign(identity: AuthorizedEditingIdentity, holder: Reservation)
    ensures
        identity matches AuthorizedEditingIdentity::Run { coordination_run_id, worktree_id }
            && holder.actor.worktree@ == worktree_id@ && holder.actor.run@ == coordination_run_id@
            ==> !foreign_to_identity(identity, holder),
        identity matches AuthorizedEditingIdentity::SessionReservation { coordination_run_id, worktree_id, .. }
            && holder.actor.worktree@ == worktree_id@ && holder.actor.run@ == coordination_run_id@
            ==> !foreign_to_identity(identity, holder),
        identity matches AuthorizedEditingIdentity::Run { worktree_id, .. } && holder.actor.worktree@
            != worktree_id@ ==> foreign_to_identity(identity, holder),
        identity matches AuthorizedEditingIdentity::SessionReservation { worktree_id, .. }
            && holder.actor.worktree@ != worktree_id@ ==> foreign_to_identity(identity, holder),
{
}

} // verus!
