//! The frozen JSON output contract: one envelope per response, with typed facts.
pub mod status;
pub mod replay;
pub mod payload;
pub mod hook;
pub mod envelope;
pub mod release;
pub mod claim;
pub mod alert;
pub mod board;
pub mod drift;
pub mod integration;
pub mod identity;
pub mod schema;
