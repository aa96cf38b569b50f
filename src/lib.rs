//! Boundary-export synthesis: the decisions behind plugin entry points
//! (which exports a module kind receives, how they are named) and the
//! run-time conventions those exports follow (a bounded result buffer with an
//! overflow payload, and an explicit leak/release ledger for owned bytes).
pub mod buffer;
pub mod json;
pub mod ledger;
pub mod plan;
