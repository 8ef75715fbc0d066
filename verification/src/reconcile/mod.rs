//! Reconciliation decisions: comparison budgets, scoped evidence, rewrite preflights and
//! settlement.
pub mod budget;
pub mod reachability;
pub mod evaluation;
pub mod rewrite;
pub mod settlement;
pub mod error;
pub mod successor;
pub mod revalidation;
pub mod cover;
pub mod candidates;
pub mod report;
pub mod proposed;
