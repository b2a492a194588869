//! The modeled core of the native engine's interface.
//!
//! These modules hold the data and the state transitions that the rest of
//! the crate, its tests, and the unverified native shell build on.

pub mod tag;
pub mod td;
pub mod header;
pub mod archive;
pub mod problem;
pub mod te;
pub mod ts;
pub mod global_state;
pub mod iterator;
