//! Core of a hierarchical actor runtime: per-actor cells that own identity,
//! parent/child links, the supervision state machine, and the dispatch path
//! by which envelopes reach an actor's mailboxes.
//!
//! The executor, the timer wheel, the dead-letter bus and path resolution are
//! collaborators: the library states what is handed to them (as `Action` and
//! `Effect` values and as timer `Job`s) and verifies the decisions that
//! produce those values.

pub mod cell;
pub mod context;
pub mod children;
pub mod extended;
pub mod laws;
pub mod mailbox;
pub mod msg;
pub mod refs;
pub mod selection;
pub mod system;
pub mod timer;
pub mod trusted;
pub mod uri;

use vstd::prelude::*;

verus! {

/// Process-unique actor identity; `0` is reserved for the root cell.
pub type ActorId = u64;

} // verus!
