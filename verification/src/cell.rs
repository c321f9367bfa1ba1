//! The actor cell: identity, parent/children links, lifecycle flags, both
//! mailboxes, and the supervision state machine.
//!
//! Supervision decisions are returned as [`Action`] values — what the kernel
//! and the other cells are asked to do — so that every decision is a checked
//! function of the cell's state. The system's node table (see `system`)
//! performs them.

use vstd::prelude::*;
use crate::children::{contains_name, contains_uid, Children};
use crate::mailbox::Mailbox;
use crate::msg::{AnyMessage, Envelope, SendError, Strategy, SystemCmd, SystemMsg};
use crate::refs::BasicActorRef;
use crate::uri::ActorUri;
use crate::ActorId;

verus! {

/// What a cell asks its surroundings to do. Everything it carries is plain
/// identity data, so contracts can pin each action exactly.
#[derive(Clone, Copy, PartialEq, Eq, Structural, Debug)]
pub enum Action {
    /// Enqueue a lifecycle command on the system mailbox of `target`.
    SysSend { target: u64, cmd: SystemCmd },
    /// Notify `parent` that `failed` has failed (escalation).
    EscalateFailed { parent: u64, failed: u64 },
    /// The kernel stops this cell: its actor is done, death watch fires.
    KernelTerminate,
    /// The kernel rebuilds this cell's actor and resumes it.
    KernelRestart,
    /// Escalation reached the root: a terminal system failure.
    SystemFailure,
}

/// The stop command addressed to `target`.
pub open spec fn stop_cmd(target: u64) -> Action {
    Action::SysSend { target, cmd: SystemCmd::Stop }
}

/// One stop command per child, in registry order.
pub open spec fn stop_all(children: Seq<crate::refs::RefView>) -> Seq<Action> {
    children.map(|i: int, c: crate::refs::RefView| stop_cmd(c.uid))
}

/// An actor's user-defined behaviour, as far as the cell drives it. The
/// runtime's users implement it; the cell only promises *when* the hooks run.
pub trait Actor {
    /// The message type the actor's mailbox accepts.
    type Msg;

    /// Runs once, after the actor is permanently stopped.
    fn post_stop(&mut self);
}

/// Runs the actor's `post_stop` hook. The instance is `None` when the actor
/// already failed and is being terminated by an escalated supervisor; then
/// nothing runs and nothing is mutated. What the hook itself does to a
/// present instance is the user's business: it carries no contract.
pub fn post_stop<A: Actor>(actor: &mut Option<A>)
    ensures
        *old(actor) is None ==> *final(actor) is None && *final(actor) == *old(actor),
        *old(actor) is Some ==> *final(actor) is Some,
{
    match actor {
        Some(act) => act.post_stop(),
        None => {},
    }
}

/// A handle to the kernel that schedules this cell. Written once by `init`,
/// read-only thereafter.
#[derive(Clone, Copy, PartialEq, Eq, Structural, Debug)]
pub struct KernelHandle {
    pub id: u64,
}

/// The per-actor container. `uid` and `uri` are immutable identity; the
/// lifecycle flags and the children registry evolve under the supervision
/// state machine.
pub struct ActorCell<M> {
    pub uid: ActorId,
    pub uri: ActorUri,
    pub parent: Option<BasicActorRef>,
    pub children: Children,
    pub is_terminating: bool,
    pub is_restarting: bool,
    /// Reserved for finer-grained states; zero at creation.
    pub status: u32,
    pub kernel: Option<KernelHandle>,
    /// The tag under which type-erased dispatch may deliver to this cell.
    pub msg_tag: u64,
    pub mailbox: Mailbox<Envelope<M>>,
    pub sys_mailbox: Mailbox<Envelope<SystemMsg>>,
}

impl<M> ActorCell<M> {
    /// The registry holds no duplicate names. (That no entry points back at
    /// the cell itself is a system-level invariant: see `system`.)
    pub open spec fn wf(&self) -> bool {
        self.children.wf()
    }

    /// Everything but the children registry and the two lifecycle flags is
    /// the same in both cells.
    pub open spec fn same_identity(&self, other: &ActorCell<M>) -> bool {
        &&& self.uid == other.uid
        &&& self.uri@ == other.uri@
        &&& self.parent == other.parent
        &&& self.status == other.status
        &&& self.kernel == other.kernel
        &&& self.msg_tag == other.msg_tag
    }

    /// Constructs a fresh cell: no children, flags clear, kernel unattached,
    /// both mailboxes empty and open.
    pub fn new(uid: u64, uri: ActorUri, parent: Option<BasicActorRef>, msg_tag: u64) -> (r:
        ActorCell<M>)
        ensures
            r.uid == uid,
            r.uri@ == uri@,
            r.parent == parent,
            r.children@ =~= Seq::<crate::refs::RefView>::empty(),
            !r.is_terminating,
            !r.is_restarting,
            r.status == 0,
            r.kernel is None,
            r.msg_tag == msg_tag,
            r.mailbox.msgs() =~= Seq::<Envelope<M>>::empty(),
            !r.mailbox.is_closed(),
            r.sys_mailbox.msgs() =~= Seq::<Envelope<SystemMsg>>::empty(),
            !r.sys_mailbox.is_closed(),
            r.wf(),
    {
        ActorCell {
            uid,
            uri,
            parent,
            children: Children::new(),
            is_terminating: false,
            is_restarting: false,
            status: 0,
            kernel: None,
            msg_tag,
            mailbox: Mailbox::new(),
            sys_mailbox: Mailbox::new(),
        }
    }

    /// Attaches the kernel. Runs exactly once, before the cell is observable
    /// to user code; nothing ever clears the handle again.
    pub fn init(self, kernel: KernelHandle) -> (r: ActorCell<M>)
        requires
            self.kernel is None,
        ensures
            r.kernel == Some(kernel),
            r.uid == self.uid,
            r.uri@ == self.uri@,
            r.parent == self.parent,
            r.children == self.children,
            r.is_terminating == self.is_terminating,
            r.is_restarting == self.is_restarting,
            r.status == self.status,
            r.msg_tag == self.msg_tag,
            r.mailbox == self.mailbox,
            r.sys_mailbox == self.sys_mailbox,
    {
        ActorCell { kernel: Some(kernel), ..self }
    }

    /// The attached kernel handle.
    pub fn kernel(&self) -> (r: &KernelHandle)
        requires
            self.kernel is Some,
        ensures
            Some(*r) == self.kernel,
    {
        match &self.kernel {
            Some(k) => k,
            None => unreached(),
        }
    }

    /// A weakly-typed reference to this cell.
    pub fn myself(&self) -> (r: BasicActorRef)
        ensures
            r@.uid == self.uid,
            r@.uri == self.uri@,
    {
        BasicActorRef { uid: self.uid, uri: self.uri.clone() }
    }

    pub fn uri(&self) -> (r: &ActorUri)
        ensures
            r@ == self.uri@,
    {
        &self.uri
    }

    /// The parent reference; only the root has none.
    pub fn parent(&self) -> (r: BasicActorRef)
        requires
            self.parent is Some,
        ensures
            r@ == self.parent.unwrap()@,
    {
        match &self.parent {
            Some(p) => p.clone(),
            None => unreached(),
        }
    }

    pub fn has_children(&self) -> (r: bool)
        ensures
            r == (self.children@.len() > 0),
    {
        self.children.len() > 0
    }

    /// A snapshot of the current children.
    pub fn children(&self) -> (r: Vec<BasicActorRef>)
        ensures
            r@.len() == self.children@.len(),
            forall|k: int| 0 <= k < r@.len() ==> r@[k]@ == self.children@[k],
    {
        self.children.iter()
    }

    /// The user root of the system this cell lives in. Cells do not own
    /// their system — the node table owns the cells — so the handle is
    /// passed in.
    pub fn user_root<A: Actor<Msg = M>>(&self, sys: &crate::system::ActorSystem<A>) -> (r:
        BasicActorRef)
        ensures
            r@ == sys.user_root@,
    {
        sys.user_root.clone()
    }

    /// Is this cell a direct child of the user root?
    pub fn is_user<A: Actor<Msg = M>>(&self, sys: &crate::system::ActorSystem<A>) -> (r: bool)
        requires
            sys.wf(),
            sys.has_uid(sys.user_root@.uid),
        ensures
            r == contains_uid(
                sys.slots@[sys.slot_index(sys.user_root@.uid)].cell.cell.children@,
                self.uid,
            ),
    {
        sys.is_user(self.uid)
    }

    /// The root cell is the one with `uid` 0.
    pub fn is_root(&self) -> (r: bool)
        ensures
            r == (self.uid == 0),
    {
        self.uid == 0
    }

    /// Is `actor` one of this cell's children? References compare by `uid`.
    pub fn is_child(&self, actor: &BasicActorRef) -> (r: bool)
        ensures
            r == contains_uid(self.children@, actor@.uid),
    {
        self.children.contains(actor.uid)
    }

    /// Registers a spawned child.
    pub fn add_child(&mut self, actor: BasicActorRef)
        requires
            old(self).children.wf(),
        ensures
            final(self).children.wf(),
            contains_name(old(self).children@, actor@.uri.name) ==> exists|i: int|
                0 <= i < old(self).children@.len() && old(self).children@[i].uri.name
                    == actor@.uri.name && final(self).children@ == old(self).children@.update(
                    i,
                    actor@,
                ),
            !contains_name(old(self).children@, actor@.uri.name) ==> final(self).children@ == old(
                self,
            ).children@.push(actor@),
            final(self).same_identity(old(self)),
            final(self).is_terminating == old(self).is_terminating,
            final(self).is_restarting == old(self).is_restarting,
            final(self).mailbox == old(self).mailbox,
            final(self).sys_mailbox == old(self).sys_mailbox,
    {
        self.children.add(actor);
    }

    /// Unregisters a child; a no-op if it is not present.
    pub fn remove_child(&mut self, actor: &BasicActorRef)
        requires
            old(self).children.wf(),
        ensures
            final(self).children.wf(),
            contains_name(old(self).children@, actor@.uri.name) ==> exists|i: int|
                0 <= i < old(self).children@.len() && old(self).children@[i].uri.name
                    == actor@.uri.name && final(self).children@ == old(self).children@.remove(i),
            !contains_name(old(self).children@, actor@.uri.name) ==> final(self).children@ == old(
                self,
            ).children@,
            !contains_name(final(self).children@, actor@.uri.name),
            final(self).same_identity(old(self)),
            final(self).is_terminating == old(self).is_terminating,
            final(self).is_restarting == old(self).is_restarting,
            final(self).mailbox == old(self).mailbox,
            final(self).sys_mailbox == old(self).sys_mailbox,
    {
        self.children.remove(actor);
    }

    /// Enqueues a system message. Closure is surfaced to the caller — a lost
    /// supervision signal must never be silent — and nothing else changes.
    pub fn send_sys_msg(&mut self, msg: Envelope<SystemMsg>) -> (r: Result<
        (),
        SendError<Envelope<SystemMsg>>,
    >)
        requires
            old(self).kernel is Some,
        ensures
            old(self).sys_mailbox.is_closed() ==> (r matches Err(e) && e.0 == msg && *final(self)
                == *old(self)),
            !old(self).sys_mailbox.is_closed() ==> r is Ok && final(self).sys_mailbox.msgs() == old(
                self,
            ).sys_mailbox.msgs().push(msg) && !final(self).sys_mailbox.is_closed(),
            final(self).same_identity(old(self)),
            final(self).children == old(self).children,
            final(self).is_terminating == old(self).is_terminating,
            final(self).is_restarting == old(self).is_restarting,
            final(self).mailbox == old(self).mailbox,
    {
        self.sys_mailbox.try_send(msg)
    }

    /// Type-erased dispatch: delivers the payload as a user envelope when the
    /// tag matches this cell's message type and the mailbox is open; the
    /// payload is consumed exactly on success.
    pub fn send_any_msg(&mut self, msg: &mut AnyMessage<M>, sender: Option<BasicActorRef>) -> (r:
        Result<(), ()>)
        requires
            old(self).kernel is Some,
        ensures
            r is Ok <==> (old(msg).tag == old(self).msg_tag && old(msg).msg is Some && !old(
                self,
            ).mailbox.is_closed()),
            r is Ok ==> final(msg).msg is None && final(self).mailbox.msgs() == old(
                self,
            ).mailbox.msgs().push(
                Envelope { msg: old(msg).msg.unwrap(), sender: sender },
            ) && !final(self).mailbox.is_closed(),
            r is Err ==> *final(self) == *old(self) && *final(msg) == *old(msg),
            final(msg).tag == old(msg).tag,
            final(msg).one_shot == old(msg).one_shot,
            final(self).same_identity(old(self)),
            final(self).children == old(self).children,
            final(self).is_terminating == old(self).is_terminating,
            final(self).is_restarting == old(self).is_restarting,
            final(self).sys_mailbox == old(self).sys_mailbox,
    {
        if msg.tag == self.msg_tag && msg.msg.is_some() && !self.mailbox.closed() {
            let payload = msg.msg.take();
            match payload {
                Some(m) => {
                    let sent = self.mailbox.try_send(Envelope { msg: m, sender });
                    match sent {
                        Ok(()) => Ok(()),
                        Err(_) => unreached(),
                    }
                },
                None => unreached(),
            }
        } else {
            Err(())
        }
    }

    /// Consumes a lifecycle command from the system mailbox. Called only from
    /// the kernel while the cell is scheduled.
    pub fn receive_cmd<A: Actor>(&mut self, cmd: SystemCmd, actor: &mut Option<A>) -> (acts: Vec<
        Action,
    >)
        requires
            old(self).wf(),
        ensures
            final(self).wf(),
            cmd == SystemCmd::Stop ==> terminate_post(*old(self), *final(self), acts@),
            cmd == SystemCmd::Restart ==> restart_post(*old(self), *final(self), acts@),
    {
        match cmd {
            SystemCmd::Stop => self.terminate(actor),
            SystemCmd::Restart => self.restart(),
        }
    }

    /// Begins (or continues) termination: the terminating flag is set and
    /// never reverts. A leaf asks its kernel to stop it and runs `post_stop`;
    /// a parent instead sends `Stop` to every child and awaits death watch.
    pub fn terminate<A: Actor>(&mut self, actor: &mut Option<A>) -> (acts: Vec<Action>)
        requires
            old(self).wf(),
        ensures
            final(self).wf(),
            terminate_post(*old(self), *final(self), acts@),
    {
        self.is_terminating = true;

        if !self.has_children() {
            let acts = vec![Action::KernelTerminate];
            post_stop(actor);
            proof {
                assert(acts@ =~= seq![Action::KernelTerminate]);
            }
            acts
        } else {
            self.stop_children()
        }
    }

    /// Restarts this cell: a leaf asks the kernel at once; a parent first
    /// stops every child, and the restarting flag stays up until the last
    /// death-watch notification clears it.
    pub fn restart(&mut self) -> (acts: Vec<Action>)
        requires
            old(self).wf(),
        ensures
            final(self).wf(),
            restart_post(*old(self), *final(self), acts@),
    {
        if !self.has_children() {
            let acts = vec![Action::KernelRestart];
            proof {
                assert(acts@ =~= seq![Action::KernelRestart]);
            }
            acts
        } else {
            self.is_restarting = true;
            self.stop_children()
        }
    }

    /// One stop command per child, in registry order.
    fn stop_children(&self) -> (acts: Vec<Action>)
        ensures
            acts@ == stop_all(self.children@),
    {
        let snapshot = self.children.iter();
        let mut acts: Vec<Action> = Vec::new();
        let n = snapshot.len();
        let mut i: usize = 0;
        while i < n
            invariant
                n == snapshot@.len(),
                snapshot@.len() == self.children@.len(),
                forall|k: int| 0 <= k < snapshot@.len() ==> snapshot@[k]@ == self.children@[k],
                0 <= i <= n,
                acts@.len() == i,
                forall|k: int| 0 <= k < i ==> acts@[k] == stop_cmd(self.children@[k].uid),
            decreases n - i,
        {
            acts.push(Action::SysSend { target: snapshot[i].uid, cmd: SystemCmd::Stop });
            i = i + 1;
        }
        proof {
            assert(acts@ =~= stop_all(self.children@));
        }
        acts
    }

    /// Consumes a death-watch notification: the child is unregistered, and
    /// when the last one is gone a terminating cell asks the kernel to stop
    /// it (running `post_stop`) while a restarting cell clears its flag and
    /// asks the kernel to rebuild it.
    pub fn death_watch<A: Actor>(
        &mut self,
        terminated: &BasicActorRef,
        actor: &mut Option<A>,
    ) -> (acts: Vec<Action>)
        requires
            old(self).wf(),
        ensures
            final(self).wf(),
            death_watch_post(*old(self), *final(self), terminated@, acts@),
    {
        if self.is_child(terminated) {
            self.remove_child(terminated);
            proof {
                assert forall|u: u64| #[trigger] contains_uid(self.children@, u) implies
                    contains_uid(old(self).children@, u) by {
                    if contains_name(old(self).children@, terminated@.uri.name) {
                        let idx = choose|idx: int|
                            0 <= idx < old(self).children@.len() && old(
                                self,
                            ).children@[idx].uri.name == terminated@.uri.name && self.children@
                                == old(self).children@.remove(idx);
                        let k = choose|k: int|
                            0 <= k < self.children@.len() && self.children@[k].uid == u;
                        if k < idx {
                            assert(self.children@[k] == old(self).children@[k]);
                            assert(old(self).children@[k].uid == u);
                        } else {
                            assert(self.children@[k] == old(self).children@[k + 1]);
                            assert(old(self).children@[k + 1].uid == u);
                        }
                    }
                }
            }

            if !self.has_children() {
                let mut acts: Vec<Action> = Vec::new();
                if self.is_terminating {
                    acts.push(Action::KernelTerminate);
                    post_stop(actor);
                }
                if self.is_restarting {
                    self.is_restarting = false;
                    acts.push(Action::KernelRestart);
                }
                proof {
                    assert(acts@ =~= death_watch_acts(*old(self), *final(self)));
                }
                acts
            } else {
                let acts: Vec<Action> = Vec::new();
                proof {
                    assert(acts@ =~= death_watch_acts(*old(self), *final(self)));
                }
                acts
            }
        } else {
            let acts: Vec<Action> = Vec::new();
            proof {
                assert(acts@ =~= death_watch_acts(*old(self), *final(self)));
            }
            acts
        }
    }

    /// Applies the supervisor's decision to a failing child.
    pub fn handle_failure(&self, failed: BasicActorRef, strategy: Strategy) -> (acts: Vec<Action>)
        ensures
            acts@ == failure_acts(self.parent, self.uid, failed@.uid, strategy),
    {
        match strategy {
            Strategy::Stop => self.stop(failed),
            Strategy::Restart => self.restart_child(failed),
            Strategy::Escalate => self.escalate_failure(),
        }
    }

    /// Asks `actor` to stop, by a system command.
    pub fn stop(&self, actor: BasicActorRef) -> (acts: Vec<Action>)
        ensures
            acts@ =~= seq![stop_cmd(actor@.uid)],
    {
        vec![Action::SysSend { target: actor.uid, cmd: SystemCmd::Stop }]
    }

    /// Asks `actor` to restart, by a system command.
    pub fn restart_child(&self, actor: BasicActorRef) -> (acts: Vec<Action>)
        ensures
            acts@ =~= seq![Action::SysSend { target: actor@.uid, cmd: SystemCmd::Restart }],
    {
        vec![Action::SysSend { target: actor.uid, cmd: SystemCmd::Restart }]
    }

    /// Passes this cell's failure to its parent. At the root there is no
    /// parent: escalation there is a terminal system failure.
    pub fn escalate_failure(&self) -> (acts: Vec<Action>)
        ensures
            acts@ =~= escalate_acts(self.parent, self.uid),
    {
        match &self.parent {
            Some(p) => {
                vec![Action::EscalateFailed { parent: p.uid, failed: self.uid }]
            },
            None => {
                vec![Action::SystemFailure]
            },
        }
    }
}

/// What escalation emits: `Failed` to the parent, or — at the root — the
/// terminal system failure.
pub open spec fn escalate_acts(parent: Option<BasicActorRef>, uid: u64) -> Seq<Action> {
    match parent {
        Some(p) => seq![Action::EscalateFailed { parent: p@.uid, failed: uid }],
        None => seq![Action::SystemFailure],
    }
}

/// The exact effect of `terminate`, short of the system mailbox (which the
/// kernel pops independently while draining): the terminating flag is set
/// (and never reverts — it was kept if already up); a childless cell emits
/// exactly the kernel-terminate action, any other exactly one stop per
/// child. Nothing else moves.
pub open spec fn terminate_core<M>(pre: ActorCell<M>, post: ActorCell<M>, acts: Seq<
    Action,
>) -> bool {
    &&& post.is_terminating
    &&& post.is_restarting == pre.is_restarting
    &&& post.children == pre.children
    &&& post.same_identity(&pre)
    &&& post.mailbox == pre.mailbox
    &&& pre.children@.len() == 0 ==> acts == seq![Action::KernelTerminate]
    &&& pre.children@.len() > 0 ==> acts == stop_all(pre.children@)
}

/// [`terminate_core`], with the system mailbox untouched too.
pub open spec fn terminate_post<M>(pre: ActorCell<M>, post: ActorCell<M>, acts: Seq<
    Action,
>) -> bool {
    &&& terminate_core(pre, post, acts)
    &&& post.sys_mailbox == pre.sys_mailbox
}

/// The exact effect of `restart`, short of the system mailbox: a childless
/// cell emits exactly the kernel-restart action and no flag moves; any
/// other raises the restarting flag and emits exactly one stop per child.
pub open spec fn restart_core<M>(pre: ActorCell<M>, post: ActorCell<M>, acts: Seq<
    Action,
>) -> bool {
    &&& post.is_terminating == pre.is_terminating
    &&& post.children == pre.children
    &&& post.same_identity(&pre)
    &&& post.mailbox == pre.mailbox
    &&& pre.children@.len() == 0 ==> acts == seq![Action::KernelRestart]
        && post.is_restarting == pre.is_restarting
    &&& pre.children@.len() > 0 ==> acts == stop_all(pre.children@) && post.is_restarting
}

/// [`restart_core`], with the system mailbox untouched too.
pub open spec fn restart_post<M>(pre: ActorCell<M>, post: ActorCell<M>, acts: Seq<
    Action,
>) -> bool {
    &&& restart_core(pre, post, acts)
    &&& post.sys_mailbox == pre.sys_mailbox
}

/// The kernel actions a death-watch step emits: nothing while children
/// remain; on the last child, kernel-terminate if the cell was terminating
/// and kernel-restart if it was restarting, in that order.
pub open spec fn death_watch_acts<M>(pre: ActorCell<M>, post: ActorCell<M>) -> Seq<Action> {
    if post.children@.len() == 0 && pre.children@.len() > 0 {
        (if pre.is_terminating {
            seq![Action::KernelTerminate]
        } else {
            Seq::empty()
        }) + (if pre.is_restarting {
            seq![Action::KernelRestart]
        } else {
            Seq::empty()
        })
    } else {
        Seq::empty()
    }
}

/// The exact effect of `death_watch`, short of the system mailbox: a
/// notification from a stranger changes nothing; one from a child removes
/// exactly that child's entry, the restarting flag is cleared exactly when
/// the last child goes, and the kernel actions are [`death_watch_acts`].
pub open spec fn death_watch_core<M>(
    pre: ActorCell<M>,
    post: ActorCell<M>,
    terminated: crate::refs::RefView,
    acts: Seq<Action>,
) -> bool {
    &&& forall|u: u64| #[trigger] contains_uid(post.children@, u) ==> contains_uid(
        pre.children@,
        u,
    )
    &&& post.same_identity(&pre)
    &&& post.mailbox == pre.mailbox
    &&& post.is_terminating == pre.is_terminating
    &&& !contains_uid(pre.children@, terminated.uid) ==> post.children == pre.children
        && post.is_restarting == pre.is_restarting && acts == Seq::<Action>::empty()
    &&& contains_uid(pre.children@, terminated.uid) ==> {
        &&& contains_name(pre.children@, terminated.uri.name) ==> exists|i: int|
            0 <= i < pre.children@.len() && pre.children@[i].uri.name == terminated.uri.name
                && post.children@ == pre.children@.remove(i)
        &&& !contains_name(pre.children@, terminated.uri.name) ==> post.children@
            == pre.children@
        &&& post.is_restarting == (pre.is_restarting && post.children@.len() > 0)
        &&& acts == death_watch_acts(pre, post)
    }
}

/// [`death_watch_core`], with the system mailbox untouched too.
pub open spec fn death_watch_post<M>(
    pre: ActorCell<M>,
    post: ActorCell<M>,
    terminated: crate::refs::RefView,
    acts: Seq<Action>,
) -> bool {
    &&& death_watch_core(pre, post, terminated, acts)
    &&& post.sys_mailbox == pre.sys_mailbox
}

/// What a supervisor decides for a failing child: stop it, restart it, or
/// escalate its own failure.
pub open spec fn failure_acts(
    parent: Option<BasicActorRef>,
    self_uid: u64,
    failed_uid: u64,
    strategy: Strategy,
) -> Seq<Action> {
    match strategy {
        Strategy::Stop => seq![stop_cmd(failed_uid)],
        Strategy::Restart => seq![Action::SysSend { target: failed_uid, cmd: SystemCmd::Restart }],
        Strategy::Escalate => escalate_acts(parent, self_uid),
    }
}

/// What consuming one system message does to a cell: the message leaves the
/// front of the system mailbox, and the cell steps by the message's meaning
/// — a stop or restart command, a failure notification answered under
/// `strategy`, or a death-watch notification.
pub open spec fn dispatched<M>(
    pre: ActorCell<M>,
    post: ActorCell<M>,
    head: Envelope<SystemMsg>,
    strategy: Strategy,
    acts: Seq<Action>,
) -> bool {
    &&& post.sys_mailbox.msgs() == pre.sys_mailbox.msgs().drop_first()
    &&& post.sys_mailbox.is_closed() == pre.sys_mailbox.is_closed()
    &&& match head.msg {
        SystemMsg::Cmd(SystemCmd::Stop) => terminate_core(pre, post, acts),
        SystemMsg::Cmd(SystemCmd::Restart) => restart_core(pre, post, acts),
        SystemMsg::Failed(f) => {
            &&& acts == failure_acts(pre.parent, pre.uid, f@.uid, strategy)
            &&& post.same_identity(&pre)
            &&& post.children == pre.children
            &&& post.is_terminating == pre.is_terminating
            &&& post.is_restarting == pre.is_restarting
            &&& post.mailbox == pre.mailbox
        },
        SystemMsg::Terminated(t) => death_watch_core(pre, post, t@, acts),
    }
}

} // verus!
