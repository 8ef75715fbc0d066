//! Reservation lifecycle, integration evidence and response rendering for cooperative
//! path reservations across git worktrees.
use vstd::prelude::*;

pub mod ids;
pub mod scope;
pub mod text;
pub mod reservation;
pub mod presentation;
pub mod output;
pub mod reconcile;
pub mod recovery;

verus! {

} // verus!
