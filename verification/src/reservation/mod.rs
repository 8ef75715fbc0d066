//! Reservation state: the lifecycle, the evidence that settles it, and the protection it keeps.
pub mod lifecycle;
pub mod evidence;
pub mod merge_extent;
pub mod record;
pub mod partition;
pub mod containment;
pub mod conflict;
