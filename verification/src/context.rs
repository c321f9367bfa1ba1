//! The per-invocation context handed to an actor's receive: its own typed
//! reference, the user root for absolute selections, and the outbox of timer
//! jobs produced during the invocation. It is rebuilt for every receive and
//! carries no cross-invocation state.
//!
//! Spawning and stopping go through the system's node table (`ActorSystem`),
//! which owns the tree; running a future is the executor's business and
//! stays outside the verified core.

use vstd::prelude::*;
use crate::cell::KernelHandle;
use crate::msg::{AnyMessage, InvalidPath};
use crate::refs::{ActorRef, BasicActorRef};
use crate::selection::{selection_parts, valid_rel_path, ActorSelection};
use crate::timer::{Job, OnceJob, RepeatJob, SendAt};
use crate::trusted::new_uuid;

verus! {

pub struct Context<M> {
    pub myself: ActorRef,
    pub user_root: BasicActorRef,
    pub kernel: KernelHandle,
    /// The timer jobs this invocation has scheduled, in order; the runtime
    /// forwards them to the timer's channel when the invocation ends.
    pub timer_out: Vec<Job<M>>,
}

/// The job last appended is a repeating one with exactly these parts.
pub open spec fn repeat_job_parts<M>(
    job: Job<M>,
    id: uuid::Uuid,
    initial_delay_ms: u64,
    interval_ms: u64,
    receiver: ActorRef,
    sender: Option<BasicActorRef>,
    msg: M,
) -> bool {
    &&& job matches Job::Repeat(j) && j.id == id && j.send_at == (SendAt::Delay {
        millis: initial_delay_ms,
    }) && j.interval_ms == interval_ms && j.receiver@ == receiver.basic@ && j.sender == sender
        && j.msg.tag == receiver.msg_tag && j.msg.msg == Some(msg) && !j.msg.one_shot
}

/// The job last appended is a one-shot one with exactly these parts.
pub open spec fn once_job_parts<M>(
    job: Job<M>,
    id: uuid::Uuid,
    send_at: SendAt,
    receiver: ActorRef,
    sender: Option<BasicActorRef>,
    msg: M,
) -> bool {
    &&& job matches Job::Once(j) && j.id == id && j.send_at == send_at && j.receiver@
        == receiver.basic@ && j.sender == sender && j.msg.tag == receiver.msg_tag && j.msg.msg
        == Some(msg) && j.msg.one_shot
}

impl<M> Context<M> {
    /// The reference of the actor this invocation runs for.
    pub fn myself(&self) -> (r: ActorRef)
        ensures
            r.basic@ == self.myself.basic@,
            r.msg_tag == self.myself.msg_tag,
    {
        self.myself.clone()
    }

    /// Parses a selection path from this actor's point of view (see
    /// [`crate::selection::select`]).
    pub fn select(&self, path: &str) -> (r: Result<ActorSelection, InvalidPath>)
        ensures
            ({
                let (anchor, rel) = selection_parts(path@, self.myself.basic@, self.user_root@);
                &&& valid_rel_path(rel) <==> r is Ok
                &&& r matches Ok(sel) ==> sel.anchor@ == anchor && sel.path@ == rel
                &&& r matches Err(e) ==> e.path@ == path@
            }),
    {
        crate::selection::select(&self.myself.basic, &self.user_root, path)
    }

    /// Schedules `msg` to be sent to `receiver` every `interval_ms`, first
    /// after `initial_delay_ms`. Exactly one repeating job is appended; its
    /// message is reusable (not one-shot); the fresh id is returned.
    pub fn schedule(
        &mut self,
        initial_delay_ms: u64,
        interval_ms: u64,
        receiver: &ActorRef,
        sender: Option<BasicActorRef>,
        msg: M,
    ) -> (id: uuid::Uuid)
        ensures
            final(self).timer_out@.len() == old(self).timer_out@.len() + 1,
            final(self).timer_out@.subrange(0, old(self).timer_out@.len() as int) == old(
                self,
            ).timer_out@,
            repeat_job_parts(
                final(self).timer_out@.last(),
                id,
                initial_delay_ms,
                interval_ms,
                *receiver,
                sender,
                msg,
            ),
            final(self).myself == old(self).myself,
            final(self).user_root == old(self).user_root,
            final(self).kernel == old(self).kernel,
    {
        let id = new_uuid();
        let job = RepeatJob {
            id,
            send_at: SendAt::Delay { millis: initial_delay_ms },
            interval_ms,
            receiver: receiver.basic.clone(),
            sender,
            msg: AnyMessage::new(receiver.msg_tag, msg, false),
        };
        self.timer_out.push(Job::Repeat(job));
        proof {
            assert(self.timer_out@.subrange(0, old(self).timer_out@.len() as int) =~= old(
                self,
            ).timer_out@);
        }
        id
    }

    /// Schedules `msg` to be sent to `receiver` once, after `delay_ms`.
    /// Exactly one one-shot job is appended; the fresh id is returned.
    pub fn schedule_once(
        &mut self,
        delay_ms: u64,
        receiver: &ActorRef,
        sender: Option<BasicActorRef>,
        msg: M,
    ) -> (id: uuid::Uuid)
        ensures
            final(self).timer_out@.len() == old(self).timer_out@.len() + 1,
            final(self).timer_out@.subrange(0, old(self).timer_out@.len() as int) == old(
                self,
            ).timer_out@,
            once_job_parts(
                final(self).timer_out@.last(),
                id,
                SendAt::Delay { millis: delay_ms },
                *receiver,
                sender,
                msg,
            ),
            final(self).myself == old(self).myself,
            final(self).user_root == old(self).user_root,
            final(self).kernel == old(self).kernel,
    {
        let id = new_uuid();
        let job = OnceJob {
            id,
            send_at: SendAt::Delay { millis: delay_ms },
            receiver: receiver.basic.clone(),
            sender,
            msg: AnyMessage::new(receiver.msg_tag, msg, true),
        };
        self.timer_out.push(Job::Once(job));
        proof {
            assert(self.timer_out@.subrange(0, old(self).timer_out@.len() as int) =~= old(
                self,
            ).timer_out@);
        }
        id
    }

    /// Schedules `msg` to be sent to `receiver` once, at an absolute time
    /// given in seconds since the Unix epoch. Exactly one one-shot job is
    /// appended; the fresh id is returned.
    pub fn schedule_at_time(
        &mut self,
        at_epoch_secs: u64,
        receiver: &ActorRef,
        sender: Option<BasicActorRef>,
        msg: M,
    ) -> (id: uuid::Uuid)
        ensures
            final(self).timer_out@.len() == old(self).timer_out@.len() + 1,
            final(self).timer_out@.subrange(0, old(self).timer_out@.len() as int) == old(
                self,
            ).timer_out@,
            once_job_parts(
                final(self).timer_out@.last(),
                id,
                SendAt::EpochSecs { secs: at_epoch_secs },
                *receiver,
                sender,
                msg,
            ),
            final(self).myself == old(self).myself,
            final(self).user_root == old(self).user_root,
            final(self).kernel == old(self).kernel,
    {
        let id = new_uuid();
        let job = OnceJob {
            id,
            send_at: SendAt::EpochSecs { secs: at_epoch_secs },
            receiver: receiver.basic.clone(),
            sender,
            msg: AnyMessage::new(receiver.msg_tag, msg, true),
        };
        self.timer_out.push(Job::Once(job));
        proof {
            assert(self.timer_out@.subrange(0, old(self).timer_out@.len() as int) =~= old(
                self,
            ).timer_out@);
        }
        id
    }

    /// Asks the timer to cancel the job with the given id: exactly one
    /// cancel job is appended.
    pub fn cancel_schedule(&mut self, id: uuid::Uuid)
        ensures
            final(self).timer_out@ == old(self).timer_out@.push(Job::Cancel(id)),
            final(self).myself == old(self).myself,
            final(self).user_root == old(self).user_root,
            final(self).kernel == old(self).kernel,
    {
        self.timer_out.push(Job::Cancel(id));
    }
}

} // verus!
