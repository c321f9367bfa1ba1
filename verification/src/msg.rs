//! Messages, envelopes and error values that flow between cells.

use vstd::prelude::*;
use crate::refs::BasicActorRef;

verus! {

/// A user message together with the reference of whoever sent it.
#[derive(Debug)]
pub struct Envelope<M> {
    pub msg: M,
    pub sender: Option<BasicActorRef>,
}

/// Lifecycle commands carried on the system mailbox.
#[derive(Clone, Copy, PartialEq, Eq, Structural, Debug)]
pub enum SystemCmd {
    Stop,
    Restart,
}

/// System-priority messages: commands, failure notifications from children,
/// and death-watch notifications.
#[derive(Debug)]
pub enum SystemMsg {
    Cmd(SystemCmd),
    /// A child reports that it failed; the parent applies its strategy.
    Failed(BasicActorRef),
    /// A child reports that it has terminated (death watch).
    Terminated(BasicActorRef),
}

/// The parent's policy for a failing child.
#[derive(Clone, Copy, PartialEq, Eq, Structural, Debug)]
pub enum Strategy {
    Stop,
    Restart,
    Escalate,
}

/// A type-erased envelope carrier: a type tag plus the payload, flagged
/// `one_shot` when the payload may be consumed only once.
#[derive(Debug)]
pub struct AnyMessage<M> {
    pub tag: u64,
    pub msg: Option<M>,
    pub one_shot: bool,
}

impl<M> AnyMessage<M> {
    pub fn new(tag: u64, msg: M, one_shot: bool) -> (r: AnyMessage<M>)
        ensures
            r.tag == tag,
            r.msg == Some(msg),
            r.one_shot == one_shot,
    {
        AnyMessage { tag, msg: Some(msg), one_shot }
    }
}

/// A send failed: the mailbox is closed. Carries the envelope back to the
/// caller for recovery.
#[derive(Debug)]
pub struct SendError<T>(pub T);

/// Spawning a child failed.
#[derive(Clone, Copy, PartialEq, Eq, Structural, Debug)]
pub enum CreateError {
    /// The name is empty or contains `/`.
    InvalidName,
    /// The parent already has a child of that name.
    DuplicateName,
    /// The system is shutting down, or the parent is itself terminating and
    /// may not gain children.
    SystemDown,
}

/// A selection path was rejected.
#[derive(Debug)]
pub struct InvalidPath {
    pub path: String,
}

} // verus!
