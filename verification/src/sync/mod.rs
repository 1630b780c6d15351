//! Synchronisation primitives.

pub mod revocable;
pub mod state;
