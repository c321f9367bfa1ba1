//! Timer jobs: what a cell hands to the external timer wheel. The wheel
//! itself (its channel, its clock) is a collaborator; the packaging of a job
//! — its id, its due time, the one-shot flag on the carried message — is
//! verified logic.

use vstd::prelude::*;
use crate::msg::AnyMessage;
use crate::refs::BasicActorRef;

verus! {

/// When a job falls due: after a delay from the moment it is handed over, or
/// at an absolute point in time (seconds since the Unix epoch).
#[derive(Clone, Copy, PartialEq, Eq, Structural, Debug)]
pub enum SendAt {
    Delay { millis: u64 },
    EpochSecs { secs: u64 },
}

/// A job delivered once; its message may be consumed only once.
#[derive(Debug)]
pub struct OnceJob<M> {
    pub id: uuid::Uuid,
    pub send_at: SendAt,
    pub receiver: BasicActorRef,
    pub sender: Option<BasicActorRef>,
    pub msg: AnyMessage<M>,
}

/// A job delivered over and over, every `interval_ms` after the first time.
#[derive(Debug)]
pub struct RepeatJob<M> {
    pub id: uuid::Uuid,
    pub send_at: SendAt,
    pub interval_ms: u64,
    pub receiver: BasicActorRef,
    pub sender: Option<BasicActorRef>,
    pub msg: AnyMessage<M>,
}

/// What travels to the timer: schedule once, schedule repeating, or cancel
/// the job with the given id.
#[derive(Debug)]
pub enum Job<M> {
    Once(OnceJob<M>),
    Repeat(RepeatJob<M>),
    Cancel(uuid::Uuid),
}

} // verus!
