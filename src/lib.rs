//! Mirrors the file lifecycle of a watched directory onto a remote
//! model-management backend.
//!
//! The library holds the decisions of that mirroring: which paths take part,
//! how raw filesystem notifications become synchronization intents, and the
//! state machine that carries each intent through its remote calls. Performing
//! those calls, sleeping and watching the disk is left to the caller, which
//! hands the outcome of each call back to the state machine.
use vstd::prelude::*;

pub mod events;
pub mod path_filter;
pub mod run;
pub mod synchronizer;

verus! {

} // verus!
