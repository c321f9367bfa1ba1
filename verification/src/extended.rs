//! The typed cell: a cell plus typed user-message dispatch. A user message
//! that cannot be delivered is never silently dropped — it travels back to
//! the caller inside the error, and a dead letter is produced for the
//! `"dead_letter"` topic of the pub/sub.

use vstd::prelude::*;
use crate::cell::{Action, ActorCell, Actor, KernelHandle};
use crate::children::contains_uid;
use crate::msg::{Envelope, SendError, Strategy, SystemCmd, SystemMsg};
use crate::refs::{ActorRef, BasicActorRef};
use crate::uri::ActorUri;

verus! {

/// What the dead-letter pub/sub is handed when a user message cannot be
/// delivered: the topic, the stringified message, and both ends of the
/// failed send.
#[derive(Debug)]
pub struct DeadLetter {
    pub topic: String,
    pub msg: String,
    pub sender: Option<BasicActorRef>,
    pub recipient: BasicActorRef,
}

/// A cell whose user mailbox is driven through a typed sender.
pub struct ExtendedCell<M> {
    pub cell: ActorCell<M>,
}

impl<M> ExtendedCell<M> {
    /// Constructs a fresh typed cell (see [`ActorCell::new`]).
    pub fn new(uid: u64, uri: ActorUri, parent: Option<BasicActorRef>, msg_tag: u64) -> (r:
        ExtendedCell<M>)
        ensures
            r.cell.uid == uid,
            r.cell.uri@ == uri@,
            r.cell.parent == parent,
            r.cell.children@ =~= Seq::<crate::refs::RefView>::empty(),
            !r.cell.is_terminating,
            !r.cell.is_restarting,
            r.cell.status == 0,
            r.cell.kernel is None,
            r.cell.msg_tag == msg_tag,
            r.cell.mailbox.msgs() =~= Seq::<Envelope<M>>::empty(),
            !r.cell.mailbox.is_closed(),
            r.cell.sys_mailbox.msgs() =~= Seq::<Envelope<SystemMsg>>::empty(),
            !r.cell.sys_mailbox.is_closed(),
            r.cell.wf(),
    {
        ExtendedCell { cell: ActorCell::new(uid, uri, parent, msg_tag) }
    }

    /// Attaches the kernel (see [`ActorCell::init`]).
    pub fn init(self, kernel: KernelHandle) -> (r: ExtendedCell<M>)
        requires
            self.cell.kernel is None,
        ensures
            r.cell.kernel == Some(kernel),
            r.cell.uid == self.cell.uid,
            r.cell.uri@ == self.cell.uri@,
            r.cell.parent == self.cell.parent,
            r.cell.children == self.cell.children,
            r.cell.is_terminating == self.cell.is_terminating,
            r.cell.is_restarting == self.cell.is_restarting,
            r.cell.status == self.cell.status,
            r.cell.msg_tag == self.cell.msg_tag,
            r.cell.mailbox == self.cell.mailbox,
            r.cell.sys_mailbox == self.cell.sys_mailbox,
    {
        ExtendedCell { cell: self.cell.init(kernel) }
    }

    /// A strongly-typed reference to this cell: the same identity, plus the
    /// tag under which its mailbox accepts messages.
    pub fn myself(&self) -> (r: ActorRef)
        ensures
            r.basic@.uid == self.cell.uid,
            r.basic@.uri == self.cell.uri@,
            r.msg_tag == self.cell.msg_tag,
    {
        ActorRef { basic: self.cell.myself(), msg_tag: self.cell.msg_tag }
    }

    pub fn uri(&self) -> (r: &ActorUri)
        ensures
            r@ == self.cell.uri@,
    {
        self.cell.uri()
    }

    pub fn parent(&self) -> (r: BasicActorRef)
        requires
            self.cell.parent is Some,
        ensures
            r@ == self.cell.parent.unwrap()@,
    {
        self.cell.parent()
    }

    pub fn has_children(&self) -> (r: bool)
        ensures
            r == (self.cell.children@.len() > 0),
    {
        self.cell.has_children()
    }

    pub fn is_child(&self, actor: &BasicActorRef) -> (r: bool)
        ensures
            r == contains_uid(self.cell.children@, actor@.uid),
    {
        self.cell.is_child(actor)
    }

    /// A snapshot of the current children.
    pub fn children(&self) -> (r: Vec<BasicActorRef>)
        ensures
            r@.len() == self.cell.children@.len(),
            forall|k: int| 0 <= k < r@.len() ==> r@[k]@ == self.cell.children@[k],
    {
        self.cell.children()
    }

    pub fn is_root(&self) -> (r: bool)
        ensures
            r == (self.cell.uid == 0),
    {
        self.cell.is_root()
    }

    /// The user root of the system this cell lives in (see
    /// [`ActorCell::user_root`]).
    pub fn user_root<A: Actor<Msg = M>>(&self, sys: &crate::system::ActorSystem<A>) -> (r:
        BasicActorRef)
        ensures
            r@ == sys.user_root@,
    {
        self.cell.user_root(sys)
    }

    /// Is this cell a direct child of the user root?
    pub fn is_user<A: Actor<Msg = M>>(&self, sys: &crate::system::ActorSystem<A>) -> (r: bool)
        requires
            sys.wf(),
            sys.has_uid(sys.user_root@.uid),
        ensures
            r == crate::children::contains_uid(
                sys.slots@[sys.slot_index(sys.user_root@.uid)].cell.cell.children@,
                self.cell.uid,
            ),
    {
        self.cell.is_user(sys)
    }

    /// Enqueues a system message (see [`ActorCell::send_sys_msg`]).
    pub fn send_sys_msg(&mut self, msg: Envelope<SystemMsg>) -> (r: Result<
        (),
        SendError<Envelope<SystemMsg>>,
    >)
        requires
            old(self).cell.kernel is Some,
        ensures
            old(self).cell.sys_mailbox.is_closed() ==> (r matches Err(e) && e.0 == msg
                && *final(self) == *old(self)),
            !old(self).cell.sys_mailbox.is_closed() ==> r is Ok && final(self).cell.sys_mailbox.msgs()
                == old(self).cell.sys_mailbox.msgs().push(msg)
                && !final(self).cell.sys_mailbox.is_closed(),
            final(self).cell.same_identity(&old(self).cell),
            final(self).cell.children == old(self).cell.children,
            final(self).cell.is_terminating == old(self).cell.is_terminating,
            final(self).cell.is_restarting == old(self).cell.is_restarting,
            final(self).cell.mailbox == old(self).cell.mailbox,
    {
        self.cell.send_sys_msg(msg)
    }

    /// Applies the supervisor's decision to a failing child (see
    /// [`ActorCell::handle_failure`]).
    pub fn handle_failure(&self, failed: BasicActorRef, strategy: Strategy) -> (acts: Vec<Action>)
        ensures
            acts@ == crate::cell::failure_acts(
                self.cell.parent,
                self.cell.uid,
                failed@.uid,
                strategy,
            ),
    {
        self.cell.handle_failure(failed, strategy)
    }

    /// Consumes a lifecycle command (see [`ActorCell::receive_cmd`]).
    pub fn receive_cmd<A: Actor>(&mut self, cmd: SystemCmd, actor: &mut Option<A>) -> (acts: Vec<
        Action,
    >)
        requires
            old(self).cell.wf(),
        ensures
            final(self).cell.wf(),
            cmd == SystemCmd::Stop ==> crate::cell::terminate_post(
                old(self).cell,
                final(self).cell,
                acts@,
            ),
            cmd == SystemCmd::Restart ==> crate::cell::restart_post(
                old(self).cell,
                final(self).cell,
                acts@,
            ),
    {
        self.cell.receive_cmd(cmd, actor)
    }

    /// Consumes a death-watch notification (see [`ActorCell::death_watch`]).
    pub fn death_watch<A: Actor>(
        &mut self,
        terminated: &BasicActorRef,
        actor: &mut Option<A>,
    ) -> (acts: Vec<Action>)
        requires
            old(self).cell.wf(),
        ensures
            final(self).cell.wf(),
            crate::cell::death_watch_post(old(self).cell, final(self).cell, terminated@, acts@),
    {
        self.cell.death_watch(terminated, actor)
    }
}

impl<M: core::fmt::Display> ExtendedCell<M> {
    /// Dispatches a typed user envelope. On a closed mailbox the envelope
    /// comes back inside the error — best-effort delivery, never silent —
    /// together with the dead letter owed to the `"dead_letter"` topic: the
    /// stringified message, the original sender, and this cell as recipient.
    pub fn send_msg(&mut self, env: Envelope<M>) -> (r: (
        Result<(), SendError<Envelope<M>>>,
        Option<DeadLetter>,
    ))
        requires
            old(self).cell.kernel is Some,
        ensures
            !old(self).cell.mailbox.is_closed() ==> r.0 is Ok && r.1 is None
                && final(self).cell.mailbox.msgs() == old(self).cell.mailbox.msgs().push(env)
                && !final(self).cell.mailbox.is_closed(),
            old(self).cell.mailbox.is_closed() ==> {
                &&& r.0 matches Err(e) && e.0 == env
                &&& r.1 matches Some(dl) && dead_letter_for(
                    dl,
                    env,
                    old(self).cell.uid,
                    old(self).cell.uri@,
                )
                &&& *final(self) == *old(self)
            },
            final(self).cell.same_identity(&old(self).cell),
            final(self).cell.children == old(self).cell.children,
            final(self).cell.is_terminating == old(self).cell.is_terminating,
            final(self).cell.is_restarting == old(self).cell.is_restarting,
            final(self).cell.sys_mailbox == old(self).cell.sys_mailbox,
    {
        let myself = self.cell.myself();
        match self.cell.mailbox.try_send(env) {
            Ok(()) => (Ok(()), None),
            Err(SendError(env)) => {
                let text = env.msg.to_string();
                let sender_copy = match &env.sender {
                    Some(s) => Some(s.clone()),
                    None => None,
                };
                let dl = DeadLetter {
                    topic: String::from_str("dead_letter"),
                    msg: text,
                    sender: sender_copy,
                    recipient: myself,
                };
                (Err(SendError(env)), Some(dl))
            },
        }
    }
}

/// The dead letter owed for a failed send of `env` to the cell `uid`/`uri`:
/// topic `"dead_letter"`, the stringified message, the original sender, and
/// the failed recipient. The message is rendered through `Display` — the
/// one rendering with a specification — rather than a debug format; the
/// payload it stands for is otherwise the same.
pub open spec fn dead_letter_for<M: core::fmt::Display>(
    dl: DeadLetter,
    env: Envelope<M>,
    uid: u64,
    uri: crate::uri::UriView,
) -> bool {
    &&& dl.topic@ == "dead_letter"@
    &&& vstd::string::to_string_from_display_ensures(&env.msg, dl.msg)
    &&& dl.sender is Some <==> env.sender is Some
    &&& env.sender is Some ==> dl.sender.unwrap()@ == env.sender.unwrap()@
    &&& dl.recipient@.uid == uid
    &&& dl.recipient@.uri == uri
}

impl<M> From<ExtendedCell<M>> for ActorCell<M> {
    fn from(cell: ExtendedCell<M>) -> (r: ActorCell<M>) {
        cell.cell
    }
}

impl<M> vstd::std_specs::convert::FromSpecImpl<ExtendedCell<M>> for ActorCell<M> {
    open spec fn obeys_from_spec() -> bool {
        true
    }

    open spec fn from_spec(cell: ExtendedCell<M>) -> ActorCell<M> {
        cell.cell
    }
}

} // verus!
