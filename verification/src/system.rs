//! The actor system: the owner of the node table. Cells never point at each
//! other — parent and children links are held as references (identity data),
//! and the table resolves them — which breaks the parent/child ownership
//! cycle without cycle-collecting garbage.
//!
//! The system also plays the kernel's part: it drains system mailboxes one
//! message at a time (`process_one`), performs the [`Action`]s a cell
//! decides on, and records what the outside world would observe in an
//! [`Effect`] log: kernel terminations and restarts, dead letters, and the
//! terminal failure when an escalation reaches the root.

use vstd::prelude::*;
use crate::cell::{Action, Actor, KernelHandle};
use crate::children::{contains_name, contains_uid};
use crate::extended::{DeadLetter, ExtendedCell};
use crate::msg::{CreateError, Envelope, SendError, Strategy, SystemMsg};
use crate::refs::{ActorRef, BasicActorRef};
use crate::uri::{child_path, is_valid_name, make_child_uri, valid_name, ActorUri};

verus! {

/// What the world outside the cells observes of a run.
#[derive(Debug)]
pub enum Effect {
    /// The kernel stopped the cell `uid`.
    KernelTerminated { uid: u64 },
    /// The kernel rebuilt and resumed the cell `uid`.
    KernelRestarted { uid: u64 },
    /// A dead letter went out on the `"dead_letter"` topic.
    DeadLetter(DeadLetter),
    /// An escalation reached the root: terminal failure of the system.
    SystemFailure { uid: u64 },
}

/// One entry of the node table: a cell, its actor instance (absent once the
/// actor failed), the strategy it applies to failing children, and whether
/// the kernel has stopped it.
pub struct Slot<A: Actor> {
    pub cell: ExtendedCell<A::Msg>,
    pub actor: Option<A>,
    pub strategy: Strategy,
    pub stopped: bool,
}

pub struct ActorSystem<A: Actor> {
    pub slots: Vec<Slot<A>>,
    pub effects: Vec<Effect>,
    pub next_uid: u64,
    pub msg_tag: u64,
    pub is_shutting_down: bool,
    pub user_root: BasicActorRef,
    pub temp_root: BasicActorRef,
}

impl<A: Actor> ActorSystem<A> {
    pub open spec fn uid_at(&self, i: int) -> u64 {
        self.slots@[i].cell.cell.uid
    }

    pub open spec fn has_uid(&self, uid: u64) -> bool {
        exists|i: int| 0 <= i < self.slots@.len() && self.uid_at(i) == uid
    }

    /// The table index of the cell `uid`.
    pub open spec fn slot_index(&self, uid: u64) -> int {
        choose|i: int| 0 <= i < self.slots@.len() && self.uid_at(i) == uid
    }

    /// The table's invariant: cell ids are unique and below the allocation
    /// counter, every children registry is well-formed, and a cell is
    /// restarting only while it still has children.
    pub open spec fn wf(&self) -> bool {
        &&& forall|i: int, j: int|
            0 <= i < j < self.slots@.len() ==> self.uid_at(i) != self.uid_at(j)
        &&& forall|i: int|
            0 <= i < self.slots@.len() ==> (#[trigger] self.slots@[i]).cell.cell.wf()
        &&& forall|i: int| 0 <= i < self.slots@.len() ==> #[trigger] self.uid_at(i) < self.next_uid
        &&& forall|i: int|
            0 <= i < self.slots@.len() ==> ((#[trigger] self.slots@[i]).cell.cell.is_restarting
                ==> self.slots@[i].cell.cell.children@.len() > 0)
        &&& forall|i: int|
            0 <= i < self.slots@.len() ==> (#[trigger] self.slots@[i]).cell.cell.kernel is Some
        &&& forall|i: int|
            0 <= i < self.slots@.len() ==> !contains_uid(
                (#[trigger] self.slots@[i]).cell.cell.children@,
                self.uid_at(i),
            )
    }

    /// Builds a fresh system: the root cell (id 0, the only cell without a
    /// parent), and under it the user root at `/user` and the temporary
    /// root at `/temp`. All mailboxes are empty and open, no flags are up,
    /// nothing has been observed yet.
    pub fn new(msg_tag: u64) -> (r: ActorSystem<A>)
        ensures
            r.wf(),
            r.slots@.len() == 3,
            r.effects@.len() == 0,
            !r.is_shutting_down,
            r.next_uid == 3,
            r.msg_tag == msg_tag,
            r.uid_at(0) == 0 && r.uid_at(1) == 1 && r.uid_at(2) == 2,
            r.has_uid(0) && r.has_uid(1) && r.has_uid(2),
            r.user_root@.uid == 1,
            r.user_root@.uri.name == "user"@,
            r.user_root@.uri.path == "/user"@,
            r.temp_root@.uid == 2,
            r.temp_root@.uri.name == "temp"@,
            r.temp_root@.uri.path == "/temp"@,
            r.slots@[0].cell.cell.parent is None,
            (r.slots@[1].cell.cell.parent matches Some(p) && p@.uid == 0),
            (r.slots@[2].cell.cell.parent matches Some(p) && p@.uid == 0),
            r.slots@[0].cell.cell.children@.len() == 2,
            r.slots@[1].cell.cell.children@.len() == 0,
            r.slots@[2].cell.cell.children@.len() == 0,
            r.slots@[1].cell.cell.uri@ == r.user_root@.uri,
            r.slots@[2].cell.cell.uri@ == r.temp_root@.uri,
            forall|i: int|
                0 <= i < 3 ==> !(#[trigger] r.slots@[i]).cell.cell.is_terminating
                    && !r.slots@[i].cell.cell.is_restarting && !r.slots@[i].stopped
                    && !r.slots@[i].cell.cell.mailbox.is_closed()
                    && !r.slots@[i].cell.cell.sys_mailbox.is_closed()
                    && r.slots@[i].cell.cell.mailbox.msgs().len() == 0
                    && r.slots@[i].cell.cell.sys_mailbox.msgs().len() == 0,
    {
        let root_uri = ActorUri {
            name: String::from_str(""),
            path: String::from_str(""),
            host: String::from_str("local"),
        };
        let mut root = ExtendedCell::<A::Msg>::new(0, root_uri, None, msg_tag).init(
            KernelHandle { id: 0 },
        );
        let user_uri = make_child_uri(&root.cell.uri, "user");
        let user_ref = BasicActorRef { uid: 1, uri: user_uri.clone() };
        let temp_uri = make_child_uri(&root.cell.uri, "temp");
        let temp_ref = BasicActorRef { uid: 2, uri: temp_uri.clone() };
        proof {
            reveal_strlit("user");
            reveal_strlit("temp");
            reveal_strlit("/user");
            reveal_strlit("/temp");
            reveal_strlit("");
            reveal_strlit("/");
            assert("user"@ != "temp"@) by {
                assert("user"@[0] == 'u');
                assert("temp"@[0] == 't');
            }
            assert(user_uri@.path =~= "/user"@);
            assert(temp_uri@.path =~= "/temp"@);
        }
        root.cell.add_child(user_ref.clone());
        proof {
            assert(!contains_name(root.cell.children@, "temp"@));
        }
        root.cell.add_child(temp_ref.clone());
        let root_ref = root.cell.myself();
        let user = ExtendedCell::<A::Msg>::new(1, user_uri, Some(root_ref.clone()), msg_tag).init(
            KernelHandle { id: 1 },
        );
        let temp = ExtendedCell::<A::Msg>::new(2, temp_uri, Some(root_ref), msg_tag).init(
            KernelHandle { id: 2 },
        );
        let mut slots: Vec<Slot<A>> = Vec::new();
        slots.push(Slot { cell: root, actor: None, strategy: Strategy::Restart, stopped: false });
        slots.push(Slot { cell: user, actor: None, strategy: Strategy::Restart, stopped: false });
        slots.push(Slot { cell: temp, actor: None, strategy: Strategy::Restart, stopped: false });
        let r = ActorSystem {
            slots,
            effects: Vec::new(),
            next_uid: 3,
            msg_tag,
            is_shutting_down: false,
            user_root: user_ref,
            temp_root: temp_ref,
        };
        proof {
            assert(r.uid_at(0) == 0);
            assert(r.uid_at(1) == 1);
            assert(r.uid_at(2) == 2);
            assert forall|i: int, j: int|
                0 <= i < j < r.slots@.len() implies r.uid_at(i) != r.uid_at(j) by {
                assert(r.uid_at(0) == 0 && r.uid_at(1) == 1 && r.uid_at(2) == 2);
            }
        }
        r
    }

    /// Spawns a temporary actor under the dedicated temporary root, with a
    /// randomly generated decimal name. A drawn name can in principle collide
    /// with an existing one and surfaces as `DuplicateName`; with no
    /// temporaries alive, success is owed.
    pub fn tmp_actor_of(&mut self, actor: A) -> (r: Result<ActorRef, CreateError>)
        requires
            old(self).wf(),
            old(self).has_uid(old(self).temp_root@.uid),
        ensures
            final(self).wf(),
            r is Err ==> *final(self) == *old(self),
            r matches Ok(child) ==> {
                &&& child.basic@.uid == old(self).next_uid
                &&& final(self).next_uid == old(self).next_uid + 1
                &&& final(self).slots@.len() == old(self).slots@.len() + 1
                &&& final(self).slots@.last().cell.cell.uid == old(self).next_uid
                &&& (final(self).slots@.last().cell.cell.parent matches Some(p) && p@.uid == old(
                    self,
                ).temp_root@.uid)
                &&& !final(self).slots@.last().cell.cell.is_terminating
            },
            ({
                let troot = old(self).slots@[old(self).slot_index(
                    old(self).temp_root@.uid,
                )].cell.cell;
                &&& old(self).is_shutting_down ==> r is Err
                &&& (!old(self).is_shutting_down && old(self).next_uid < u64::MAX
                    && !troot.is_terminating && troot.children@.len() == 0) ==> r is Ok
                &&& r is Err ==> (old(self).is_shutting_down || old(self).next_uid == u64::MAX
                    || troot.is_terminating || troot.children@.len() > 0)
            }),
    {
        let name_num = crate::trusted::random_u64();
        let name = crate::uri::u64_to_dec(name_num);
        let temp_uid = self.temp_root.uid;
        self.actor_of(temp_uid, name.as_str(), actor, Strategy::Restart)
    }

    /// Is the cell `uid` a direct child of the user root?
    pub fn is_user(&self, uid: u64) -> (r: bool)
        requires
            self.wf(),
            self.has_uid(self.user_root@.uid),
        ensures
            r == contains_uid(
                self.slots@[self.slot_index(self.user_root@.uid)].cell.cell.children@,
                uid,
            ),
    {
        let i = match self.find(self.user_root.uid) {
            Some(i) => i,
            None => {
                return unreached();
            },
        };
        proof {
            let j = self.slot_index(self.user_root@.uid);
            assert(0 <= j < self.slots@.len() && self.uid_at(j) == self.user_root@.uid);
            assert(i as int == j);
        }
        self.slots[i].cell.cell.children.contains(uid)
    }

    /// Begins system shutdown: from here on nothing spawns. Shutdown is
    /// permanent.
    pub fn shutdown(&mut self)
        ensures
            final(self).is_shutting_down,
            final(self).slots@ == old(self).slots@,
            final(self).effects@ == old(self).effects@,
            final(self).next_uid == old(self).next_uid,
            final(self).msg_tag == old(self).msg_tag,
            final(self).user_root == old(self).user_root,
            final(self).temp_root == old(self).temp_root,
    {
        self.is_shutting_down = true;
    }

    /// How many cells the table holds.
    pub fn len(&self) -> (r: usize)
        ensures
            r == self.slots@.len(),
    {
        self.slots.len()
    }

    /// The table index of the cell `uid`, if it is present.
    pub fn find(&self, uid: u64) -> (r: Option<usize>)
        ensures
            r matches Some(i) ==> 0 <= i < self.slots@.len() && self.uid_at(i as int) == uid,
            r is None <==> !self.has_uid(uid),
    {
        let n = self.slots.len();
        let mut i: usize = 0;
        while i < n
            invariant
                n == self.slots@.len(),
                0 <= i <= n,
                forall|j: int| 0 <= j < i ==> self.uid_at(j) != uid,
            decreases n - i,
        {
            if self.slots[i].cell.cell.uid == uid {
                proof {
                    assert(self.uid_at(i as int) == uid);
                }
                return Some(i);
            }
            i = i + 1;
        }
        None
    }

    /// Spawns a child cell named `name` under the cell `parent_uid`, running
    /// `actor` with `strategy` for its own children. Exactly the listed
    /// errors occur, each on exactly the stated inputs; on success the child
    /// gets the next fresh id, the parent's path extended by its name, and a
    /// place in the parent's registry — and nothing else in the table moves.
    pub fn actor_of(
        &mut self,
        parent_uid: u64,
        name: &str,
        actor: A,
        strategy: Strategy,
    ) -> (r: Result<ActorRef, CreateError>)
        requires
            old(self).wf(),
            old(self).has_uid(parent_uid),
        ensures
            final(self).wf(),
            ({
                let pi = old(self).slot_index(parent_uid);
                let parent = old(self).slots@[pi].cell.cell;
                &&& r is Ok <==> (!old(self).is_shutting_down && old(self).next_uid < u64::MAX
                    && valid_name(name@) && !parent.is_terminating && !contains_name(
                    parent.children@,
                    name@,
                ))
                &&& old(self).is_shutting_down ==> r == Err::<ActorRef, CreateError>(
                    CreateError::SystemDown,
                )
                &&& !old(self).is_shutting_down && old(self).next_uid < u64::MAX && !valid_name(
                    name@,
                ) ==> r == Err::<ActorRef, CreateError>(CreateError::InvalidName)
                &&& !old(self).is_shutting_down && old(self).next_uid < u64::MAX && valid_name(
                    name@,
                ) && parent.is_terminating ==> r == Err::<ActorRef, CreateError>(
                    CreateError::SystemDown,
                )
                &&& !old(self).is_shutting_down && old(self).next_uid < u64::MAX && valid_name(
                    name@,
                ) && !parent.is_terminating && contains_name(parent.children@, name@) ==> r
                    == Err::<ActorRef, CreateError>(CreateError::DuplicateName)
                &&& r is Err ==> *final(self) == *old(self)
                &&& r matches Ok(child) ==> {
                    &&& child.basic@.uid == old(self).next_uid
                    &&& child.basic@.uri.name == name@
                    &&& child.basic@.uri.path == child_path(parent.uri@.path, name@)
                    &&& child.basic@.uri.host == parent.uri@.host
                    &&& child.msg_tag == old(self).msg_tag
                    &&& final(self).next_uid == old(self).next_uid + 1
                    &&& final(self).slots@.len() == old(self).slots@.len() + 1
                    &&& forall|i: int|
                        0 <= i < old(self).slots@.len() && i != pi ==> final(self).slots@[i]
                            == old(self).slots@[i]
                    &&& final(self).slots@[pi].cell.cell.children@ == old(
                        self,
                    ).slots@[pi].cell.cell.children@.push(child.basic@)
                    &&& final(self).slots@[pi].cell.cell.same_identity(
                        &old(self).slots@[pi].cell.cell,
                    )
                    &&& final(self).slots@[pi].cell.cell.is_terminating
                        == old(self).slots@[pi].cell.cell.is_terminating
                    &&& final(self).slots@[pi].cell.cell.is_restarting
                        == old(self).slots@[pi].cell.cell.is_restarting
                    &&& ({
                        let c = final(self).slots@.last().cell.cell;
                        &&& c.uid == child.basic@.uid
                        &&& c.uri@ == child.basic@.uri
                        &&& c.parent matches Some(p) && p@.uid == parent_uid
                        &&& c.children@.len() == 0
                        &&& !c.is_terminating
                        &&& !c.is_restarting
                        &&& c.msg_tag == old(self).msg_tag
                        &&& c.kernel is Some
                        &&& !c.mailbox.is_closed()
                        &&& c.mailbox.msgs().len() == 0
                        &&& !c.sys_mailbox.is_closed()
                        &&& c.sys_mailbox.msgs().len() == 0
                    })
                    &&& final(self).effects@ == old(self).effects@
                    &&& final(self).is_shutting_down == old(self).is_shutting_down
                }
            }),
    {
        if self.is_shutting_down {
            return Err(CreateError::SystemDown);
        }
        if self.next_uid == u64::MAX {
            return Err(CreateError::SystemDown);
        }
        if !is_valid_name(name) {
            return Err(CreateError::InvalidName);
        }
        let pi = match self.find(parent_uid) {
            Some(i) => i,
            None => {
                return unreached();
            },
        };
        proof {
            let j = old(self).slot_index(parent_uid);
            assert(0 <= j < old(self).slots@.len() && old(self).uid_at(j) == parent_uid);
            assert(pi as int == j);
        }
        if self.slots[pi].cell.cell.is_terminating {
            return Err(CreateError::SystemDown);
        }
        let name_string = String::from_str(name);
        if self.slots[pi].cell.cell.children.contains_named(&name_string) {
            return Err(CreateError::DuplicateName);
        }

        let uid = self.next_uid;
        self.next_uid = self.next_uid + 1;

        let mut pslot = self.slots.remove(pi);
        let uri = make_child_uri(&pslot.cell.cell.uri, name);
        let child_ref = BasicActorRef { uid, uri: uri.clone() };
        let parent_ref = pslot.cell.cell.myself();
        pslot.cell.cell.add_child(child_ref.clone());
        self.slots.insert(pi, pslot);

        let cell = ExtendedCell::<A::Msg>::new(uid, uri, Some(parent_ref), self.msg_tag).init(
            KernelHandle { id: uid },
        );
        self.slots.push(Slot { cell, actor: Some(actor), strategy, stopped: false });

        proof {
            let pi0 = pi as int;
            let pre = old(self).slots@;
            assert(self.slots@.len() == pre.len() + 1);
            assert forall|i: int| 0 <= i < pre.len() && i != pi0 implies self.slots@[i]
                == pre[i] by {
                assert(self.slots@[i] == pre.remove(pi0).insert(pi0, self.slots@[pi0])[i]);
            }
            assert(!contains_name(pre[pi0].cell.cell.children@, name@));
            assert(self.slots@[pi0].cell.cell.children@ == pre[pi0].cell.cell.children@.push(
                child_ref@,
            ));
            assert forall|i: int, j: int|
                0 <= i < j < self.slots@.len() implies self.uid_at(i) != self.uid_at(j) by {
                if j == self.slots@.len() - 1 {
                    assert(self.uid_at(j) == uid);
                    if i != pi0 {
                        assert(self.uid_at(i) == old(self).uid_at(i));
                    }
                } else {
                    if i != pi0 {
                        assert(self.uid_at(i) == old(self).uid_at(i));
                    }
                    if j != pi0 {
                        assert(self.uid_at(j) == old(self).uid_at(j));
                    }
                }
            }
            assert forall|i: int|
                0 <= i < self.slots@.len() implies (#[trigger] self.slots@[i]).cell.cell.wf() by {
                if i < pre.len() && i != pi0 {
                    assert(self.slots@[i] == pre[i]);
                }
            }
            assert forall|i: int|
                0 <= i < self.slots@.len() implies #[trigger] self.uid_at(i) < self.next_uid by {
                if i < pre.len() && i != pi0 {
                    assert(self.slots@[i] == pre[i]);
                    assert(old(self).uid_at(i) < old(self).next_uid);
                }
            }
            assert forall|i: int|
                0 <= i < self.slots@.len() implies ((#[trigger] self.slots@[i]).cell.cell.is_restarting
                ==> self.slots@[i].cell.cell.children@.len() > 0) by {
                if i < pre.len() && i != pi0 {
                    assert(self.slots@[i] == pre[i]);
                }
            }
            assert forall|i: int|
                0 <= i < self.slots@.len() implies (#[trigger] self.slots@[i]).cell.cell.kernel
                is Some by {
                if i < pre.len() && i != pi0 {
                    assert(self.slots@[i] == pre[i]);
                }
            }
        }

        Ok(ActorRef { basic: child_ref, msg_tag: self.msg_tag })
    }

    /// Everything of the system but the node table is unchanged.
    pub open spec fn same_meta(&self, other: &ActorSystem<A>) -> bool {
        &&& self.effects@ == other.effects@
        &&& self.next_uid == other.next_uid
        &&& self.msg_tag == other.msg_tag
        &&& self.is_shutting_down == other.is_shutting_down
        &&& self.user_root == other.user_root
        &&& self.temp_root == other.temp_root
    }

    /// Enqueues a system message on the cell `target`. A closed system
    /// mailbox — or a target the table does not know — surfaces the error to
    /// the caller; supervision signals are never dead-lettered.
    pub fn sys_tell(&mut self, target: u64, msg: SystemMsg) -> (r: Result<
        (),
        SendError<Envelope<SystemMsg>>,
    >)
        requires
            old(self).wf(),
        ensures
            final(self).wf(),
            final(self).same_meta(old(self)),
            r matches Err(e) ==> e.0.msg == msg && e.0.sender is None && final(self).slots@ == old(
                self,
            ).slots@,
            !old(self).has_uid(target) ==> r is Err,
            old(self).has_uid(target) ==> ({
                let i = old(self).slot_index(target);
                let pre = old(self).slots@[i].cell.cell;
                let post = final(self).slots@[i].cell.cell;
                &&& same_but(old(self).slots@, final(self).slots@, i)
                &&& pre.sys_mailbox.is_closed() ==> r is Err
                &&& !pre.sys_mailbox.is_closed() ==> r is Ok && post.sys_mailbox.msgs()
                    == pre.sys_mailbox.msgs().push(Envelope { msg, sender: None })
                    && cell_untouched_but_sys(pre, post) && slot_meta_same(
                    old(self).slots@[i],
                    final(self).slots@[i],
                )
            }),
    {
        let env = Envelope { msg, sender: None };
        let i = match self.find(target) {
            Some(i) => i,
            None => {
                return Err(SendError(env));
            },
        };
        proof {
            let j = old(self).slot_index(target);
            assert(0 <= j < old(self).slots@.len() && old(self).uid_at(j) == target);
            assert(i as int == j);
        }
        let mut slot = self.slots.remove(i);
        let r = slot.cell.send_sys_msg(env);
        self.slots.insert(i, slot);
        proof {
            self.lemma_wf_after_slot_touch(*old(self), i as int);
        }
        r
    }

    /// Dispatches a typed user envelope to the cell of `target`, publishing
    /// a dead letter exactly once when it cannot be delivered (closed
    /// mailbox, or a target the table does not know): the caller sees the
    /// error, the `"dead_letter"` topic sees the stringified message with
    /// both ends of the failed send, and nobody sees a silent drop.
    pub fn tell(&mut self, target: &ActorRef, msg: A::Msg, sender: Option<BasicActorRef>) -> (r:
        Result<(), SendError<Envelope<A::Msg>>>) where A::Msg: core::fmt::Display
        requires
            old(self).wf(),
        ensures
            final(self).wf(),
            final(self).next_uid == old(self).next_uid,
            final(self).msg_tag == old(self).msg_tag,
            final(self).is_shutting_down == old(self).is_shutting_down,
            r matches Err(e) ==> e.0.msg == msg && e.0.sender == sender,
            r is Err ==> ({
                &&& final(self).effects@.len() == old(self).effects@.len() + 1
                &&& final(self).effects@.subrange(0, old(self).effects@.len() as int) == old(
                    self,
                ).effects@
                &&& final(self).effects@.last() matches Effect::DeadLetter(dl)
                    && dl.topic@ == "dead_letter"@ && vstd::string::to_string_from_display_ensures(
                    &msg,
                    dl.msg,
                ) && dl.recipient@.uid == target.basic@.uid && (dl.sender is Some <==> sender
                    is Some) && (sender is Some ==> dl.sender.unwrap()@ == sender.unwrap()@)
            }),
            r is Ok ==> final(self).effects@ == old(self).effects@,
            !old(self).has_uid(target.basic@.uid) ==> r is Err && final(self).slots@ == old(
                self,
            ).slots@,
            old(self).has_uid(target.basic@.uid) ==> ({
                let i = old(self).slot_index(target.basic@.uid);
                let pre = old(self).slots@[i].cell.cell;
                let post = final(self).slots@[i].cell.cell;
                &&& same_but(old(self).slots@, final(self).slots@, i)
                &&& !pre.mailbox.is_closed() <==> r is Ok
                &&& r is Ok ==> post.mailbox.msgs() == pre.mailbox.msgs().push(
                    Envelope { msg, sender },
                ) && cell_untouched_but_user(pre, post) && slot_meta_same(
                    old(self).slots@[i],
                    final(self).slots@[i],
                )
                &&& r is Err ==> final(self).slots@ == old(self).slots@
            }),
    {
        let env = Envelope { msg, sender };
        let i = match self.find(target.basic.uid) {
            Some(i) => i,
            None => {
                let text = env.msg.to_string();
                let sender_copy = match &env.sender {
                    Some(s) => Some(s.clone()),
                    None => None,
                };
                let dl = DeadLetter {
                    topic: String::from_str("dead_letter"),
                    msg: text,
                    sender: sender_copy,
                    recipient: target.basic.clone(),
                };
                self.effects.push(Effect::DeadLetter(dl));
                proof {
                    assert(self.effects@.subrange(0, old(self).effects@.len() as int) =~= old(
                        self,
                    ).effects@);
                    self.lemma_wf_same_slots(*old(self));
                }
                return Err(SendError(env));
            },
        };
        proof {
            let j = old(self).slot_index(target.basic@.uid);
            assert(0 <= j < old(self).slots@.len() && old(self).uid_at(j) == target.basic@.uid);
            assert(i as int == j);
        }
        let mut slot = self.slots.remove(i);
        let (r, dl) = slot.cell.send_msg(env);
        self.slots.insert(i, slot);
        proof {
            self.lemma_wf_after_slot_touch(*old(self), i as int);
            if old(self).slots@[i as int].cell.cell.mailbox.is_closed() {
                assert(self.slots@ =~= old(self).slots@);
            }
        }
        let ghost mid = *self;
        match dl {
            Some(d) => {
                self.effects.push(Effect::DeadLetter(d));
                proof {
                    assert(self.effects@.subrange(0, old(self).effects@.len() as int) =~= old(
                        self,
                    ).effects@);
                    self.lemma_wf_same_slots(mid);
                }
            },
            None => {},
        }
        r
    }

    /// Asks the cell `actor` to stop: its system mailbox gains exactly the
    /// `Stop` command, or — when it is closed, or the table does not know
    /// the target — the error carries the command back to the caller.
    pub fn stop(&mut self, actor: &BasicActorRef) -> (r: Result<
        (),
        SendError<Envelope<SystemMsg>>,
    >)
        requires
            old(self).wf(),
        ensures
            final(self).wf(),
            final(self).same_meta(old(self)),
            r matches Err(e) ==> e.0.msg == SystemMsg::Cmd(crate::msg::SystemCmd::Stop)
                && e.0.sender is None && final(self).slots@ == old(self).slots@,
            !old(self).has_uid(actor@.uid) ==> r is Err,
            old(self).has_uid(actor@.uid) ==> ({
                let i = old(self).slot_index(actor@.uid);
                let pre = old(self).slots@[i].cell.cell;
                let post = final(self).slots@[i].cell.cell;
                &&& same_but(old(self).slots@, final(self).slots@, i)
                &&& pre.sys_mailbox.is_closed() ==> r is Err
                &&& !pre.sys_mailbox.is_closed() ==> r is Ok && post.sys_mailbox.msgs()
                    == pre.sys_mailbox.msgs().push(
                    Envelope { msg: SystemMsg::Cmd(crate::msg::SystemCmd::Stop), sender: None },
                ) && cell_untouched_but_sys(pre, post) && slot_meta_same(
                    old(self).slots@[i],
                    final(self).slots@[i],
                )
            }),
    {
        self.sys_tell(actor.uid, SystemMsg::Cmd(crate::msg::SystemCmd::Stop))
    }

    /// Dequeues the next user message of the cell `uid` — but only when its
    /// system mailbox is drained (system messages have priority) and the
    /// cell is neither restarting nor terminating: a restarting cell returns
    /// to rest before it next sees a user message.
    pub fn dequeue_user(&mut self, uid: u64) -> (r: Option<Envelope<A::Msg>>)
        requires
            old(self).wf(),
            old(self).has_uid(uid),
        ensures
            final(self).wf(),
            final(self).same_meta(old(self)),
            ({
                let i = old(self).slot_index(uid);
                let pre = old(self).slots@[i].cell.cell;
                let post = final(self).slots@[i].cell.cell;
                &&& r is Some ==> pre.sys_mailbox.msgs().len() == 0 && !pre.is_restarting
                    && !pre.is_terminating
                &&& r is Some <==> (pre.sys_mailbox.msgs().len() == 0 && !pre.is_restarting
                    && !pre.is_terminating && pre.mailbox.msgs().len() > 0)
                &&& r matches Some(e) ==> e == pre.mailbox.msgs()[0] && same_but(
                    old(self).slots@,
                    final(self).slots@,
                    i,
                ) && post.mailbox.msgs() == pre.mailbox.msgs().drop_first()
                    && cell_untouched_but_user(pre, post) && slot_meta_same(
                    old(self).slots@[i],
                    final(self).slots@[i],
                )
                &&& r is None ==> final(self).slots@ == old(self).slots@
            }),
    {
        let i = match self.find(uid) {
            Some(i) => i,
            None => {
                return unreached();
            },
        };
        proof {
            let j = old(self).slot_index(uid);
            assert(0 <= j < old(self).slots@.len() && old(self).uid_at(j) == uid);
            assert(i as int == j);
        }
        if self.slots[i].cell.cell.sys_mailbox.len() > 0 {
            return None;
        }
        if self.slots[i].cell.cell.is_restarting || self.slots[i].cell.cell.is_terminating {
            return None;
        }
        let mut slot = self.slots.remove(i);
        let r = slot.cell.cell.mailbox.pop_front();
        self.slots.insert(i, slot);
        proof {
            self.lemma_wf_after_slot_touch(*old(self), i as int);
            if old(self).slots@[i as int].cell.cell.mailbox.msgs().len() == 0 {
                assert(self.slots@ =~= old(self).slots@);
            }
        }
        r
    }

    /// Performs one [`Action`] decided by the cell `origin_uid`: system
    /// commands and escalations travel to their targets' system mailboxes,
    /// kernel terminations stop the slot (dead-lettering its pending user
    /// messages and notifying the parent for death watch), kernel restarts
    /// and the terminal failure are logged; the failure also shuts the
    /// system down. Every case obeys [`frame_facts`].
    #[verifier::loop_isolation(false)]
    pub fn apply_action(&mut self, origin_uid: u64, act: Action) where
        A::Msg: core::fmt::Display,

        requires
            old(self).wf(),
            old(self).has_uid(origin_uid),
        ensures
            final(self).wf(),
            frame_facts(*old(self), *final(self)),
            applied_action(*old(self), *final(self), origin_uid, act),
    {
        match act {
            Action::SysSend { target, cmd } => {
                let _ = self.sys_tell(target, SystemMsg::Cmd(cmd));
                proof {
                    self.lemma_frame_after_sys_tell(*old(self), target);
                    assert(sys_send_applied(*old(self), *self, target, cmd));
                }
            },
            Action::EscalateFailed { parent, failed } => {
                let fref = match self.find(failed) {
                    Some(fi) => self.slots[fi].cell.cell.myself(),
                    None => {
                        proof {
                            lemma_frame_refl(*self);
                        }
                        return ;
                    },
                };
                let ghost fv = fref@;
                proof {
                    let fj = old(self).slot_index(failed);
                    assert(0 <= fj < old(self).slots@.len() && old(self).uid_at(fj) == failed);
                    assert(fv.uid == failed);
                    assert(fv.uri == old(self).slots@[fj].cell.cell.uri@);
                }
                let _ = self.sys_tell(parent, SystemMsg::Failed(fref));
                proof {
                    self.lemma_frame_after_sys_tell(*old(self), parent);
                    assert(escalate_applied(*old(self), *self, parent, failed)) by {
                        if old(self).has_uid(parent) {
                            let i = old(self).slot_index(parent);
                            let pc = old(self).slots@[i].cell.cell;
                            if !pc.sys_mailbox.is_closed() {
                                let qm = self.slots@[i].cell.cell.sys_mailbox.msgs();
                                let pm = pc.sys_mailbox.msgs();
                                assert(qm.subrange(0, pm.len() as int) =~= pm);
                                assert(qm.last().msg matches SystemMsg::Failed(f) && f@ == fv);
                            }
                        }
                    }
                }
            },
            Action::KernelTerminate => {
                let i = match self.find(origin_uid) {
                    Some(i) => i,
                    None => {
                        return unreached();
                    },
                };
                proof {
                    let j = old(self).slot_index(origin_uid);
                    assert(0 <= j < old(self).slots@.len() && old(self).uid_at(j) == origin_uid);
                    assert(i as int == j);
                }
                let mut slot = self.slots.remove(i);
                slot.stopped = true;
                slot.cell.cell.sys_mailbox.close();
                slot.cell.cell.mailbox.close();
                let drained = slot.cell.cell.mailbox.drain();
                let myref = slot.cell.cell.myself();
                let parent_uid: Option<u64> = match &slot.cell.cell.parent {
                    Some(p) => Some(p.uid),
                    None => None,
                };
                self.slots.insert(i, slot);
                proof {
                    self.lemma_wf_after_slot_touch(*old(self), i as int);
                    assert(frame_facts(*old(self), *self)) by {
                        assert(old(self).effects@ =~= self.effects@.subrange(
                            0,
                            old(self).effects@.len() as int,
                        ));
                        assert forall|j: int|
                            0 <= j < old(self).slots@.len() implies self.uid_at(j) == old(
                            self,
                        ).uid_at(j) by {
                            if j != i {
                                assert(self.slots@[j] == old(self).slots@[j]);
                            }
                        }
                    }
                }
                let ghost closed_state = *self;
                let n = drained.len();
                let mut k: usize = 0;
                while k < n
                    invariant
                        n == drained@.len(),
                        0 <= k <= n,
                        self.wf(),
                        self.slots@ == closed_state.slots@,
                        self.next_uid == closed_state.next_uid,
                        self.msg_tag == closed_state.msg_tag,
                        self.is_shutting_down == closed_state.is_shutting_down,
                        self.user_root == closed_state.user_root,
                        self.temp_root == closed_state.temp_root,
                        self.effects@.len() == closed_state.effects@.len() + k,
                        self.effects@.subrange(0, closed_state.effects@.len() as int)
                            == closed_state.effects@,
                        forall|j: int|
                            closed_state.effects@.len() <= j < self.effects@.len()
                                ==> (#[trigger] self.effects@[j]) is DeadLetter,
                    decreases n - k,
                {
                    let ghost before = *self;
                    let env = &drained[k];
                    let text = env.msg.to_string();
                    let sender_copy = match &env.sender {
                        Some(s) => Some(s.clone()),
                        None => None,
                    };
                    let dl = DeadLetter {
                        topic: String::from_str("dead_letter"),
                        msg: text,
                        sender: sender_copy,
                        recipient: myref.clone(),
                    };
                    self.effects.push(Effect::DeadLetter(dl));
                    proof {
                        self.lemma_wf_same_slots(before);
                        assert(self.effects@.subrange(0, closed_state.effects@.len() as int)
                            =~= closed_state.effects@);
                    }
                    k = k + 1;
                }
                let ghost drained_state = *self;
                self.effects.push(Effect::KernelTerminated { uid: origin_uid });
                proof {
                    self.lemma_wf_same_slots(drained_state);
                    let dls = drained_state.effects@.subrange(
                        closed_state.effects@.len() as int,
                        drained_state.effects@.len() as int,
                    );
                    assert(self.effects@ =~= old(self).effects@ + dls + seq![
                        Effect::KernelTerminated { uid: origin_uid },
                    ]);
                    assert(kernel_terminate_post(*old(self), *self, origin_uid));
                    assert(frame_facts(*old(self), *self)) by {
                        assert(old(self).effects@ =~= self.effects@.subrange(
                            0,
                            old(self).effects@.len() as int,
                        ));
                        assert forall|j: int|
                            0 <= j < old(self).slots@.len() implies self.uid_at(j) == old(
                            self,
                        ).uid_at(j) by {
                            if j != i {
                                assert(self.slots@[j] == old(self).slots@[j]);
                            }
                        }
                    }
                }
                let ghost logged_state = *self;
                match parent_uid {
                    Some(p) => {
                        let _ = self.sys_tell(p, SystemMsg::Terminated(myref));
                        proof {
                            self.lemma_frame_after_sys_tell(logged_state, p);
                            lemma_frame_trans(*old(self), logged_state, *self);
                            assert(self.effects@ == logged_state.effects@);
                            assert(self.slots@[i as int].stopped) by {
                                assert(logged_state.slots@[i as int].stopped);
                            }
                        }
                    },
                    None => {},
                }
            },
            Action::KernelRestart => {
                self.effects.push(Effect::KernelRestarted { uid: origin_uid });
                proof {
                    self.lemma_wf_same_slots(*old(self));
                    assert(frame_facts(*old(self), *self)) by {
                        assert(old(self).effects@ =~= self.effects@.subrange(
                            0,
                            old(self).effects@.len() as int,
                        ));
                    }
                }
            },
            Action::SystemFailure => {
                self.is_shutting_down = true;
                self.effects.push(Effect::SystemFailure { uid: origin_uid });
                proof {
                    self.lemma_wf_same_slots(*old(self));
                    assert(frame_facts(*old(self), *self)) by {
                        assert(old(self).effects@ =~= self.effects@.subrange(
                            0,
                            old(self).effects@.len() as int,
                        ));
                    }
                }
            },
        }
    }

    /// A step of [`apply_action`] through `sys_tell` obeys [`frame_facts`]:
    /// at most one system mailbox gained a message.
    proof fn lemma_frame_after_sys_tell(&self, pre: ActorSystem<A>, target: u64)
        requires
            pre.wf(),
            self.same_meta(&pre),
            !pre.has_uid(target) ==> self.slots@ == pre.slots@,
            pre.has_uid(target) ==> ({
                let i = pre.slot_index(target);
                ||| self.slots@ == pre.slots@
                ||| (same_but(pre.slots@, self.slots@, i) && cell_untouched_but_sys(
                    pre.slots@[i].cell.cell,
                    self.slots@[i].cell.cell,
                ) && slot_meta_same(pre.slots@[i], self.slots@[i]))
            }),
        ensures
            frame_facts(pre, *self),
            self.effects@ == pre.effects@,
    {
        assert(pre.effects@ =~= self.effects@.subrange(0, pre.effects@.len() as int));
        if pre.has_uid(target) {
            let i = pre.slot_index(target);
            if self.slots@ != pre.slots@ {
                assert forall|j: int|
                    0 <= j < pre.slots@.len() implies self.uid_at(j) == pre.uid_at(j) by {
                    if j != i {
                        assert(self.slots@[j] == pre.slots@[j]);
                    }
                }
                assert forall|j: int|
                    0 <= j < pre.slots@.len() implies ((
                    #[trigger] pre.slots@[j]).cell.cell.is_terminating
                    ==> self.slots@[j].cell.cell.is_terminating) by {
                    if j != i {
                        assert(self.slots@[j] == pre.slots@[j]);
                    }
                }
                assert forall|j: int|
                    0 <= j < pre.slots@.len() implies ((#[trigger] pre.slots@[j]).stopped
                    ==> self.slots@[j].stopped) by {
                    if j != i {
                        assert(self.slots@[j] == pre.slots@[j]);
                    }
                }
            }
        }
    }

    /// Consumes the oldest pending system message of the cell `uid`, if any:
    /// the cell interprets it (command, failure notification, or death
    /// watch) and the resulting actions are performed. Returns whether a
    /// message was consumed. The step obeys [`frame_facts`] — in particular
    /// a terminating cell stays terminating through every step.
    #[verifier::loop_isolation(false)]
    pub fn process_one(&mut self, uid: u64) -> (did: bool) where A::Msg: core::fmt::Display
        requires
            old(self).wf(),
            old(self).has_uid(uid),
        ensures
            final(self).wf(),
            frame_facts(*old(self), *final(self)),
            did == (old(self).slots@[old(self).slot_index(uid)].cell.cell.sys_mailbox.msgs().len()
                > 0),
            did ==> process_step(*old(self), *final(self), uid),
    {
        let i = match self.find(uid) {
            Some(i) => i,
            None => {
                return unreached();
            },
        };
        proof {
            let j = old(self).slot_index(uid);
            assert(0 <= j < old(self).slots@.len() && old(self).uid_at(j) == uid);
            assert(i as int == j);
        }
        let mut slot = self.slots.remove(i);
        let popped = slot.cell.cell.sys_mailbox.pop_front();
        let env = match popped {
            None => {
                self.slots.insert(i, slot);
                proof {
                    assert(self.slots@ =~= old(self).slots@);
                    self.lemma_wf_same_slots(*old(self));
                    lemma_frame_refl(*self);
                    assert(frame_facts(*old(self), *self));
                }
                return false;
            },
            Some(env) => env,
        };
        let ghost ghead = env;
        let ghost strat = old(self).slots@[i as int].strategy;
        let acts = match env.msg {
            SystemMsg::Cmd(cmd) => slot.cell.receive_cmd(cmd, &mut slot.actor),
            SystemMsg::Failed(child) => {
                let strategy = slot.strategy;
                slot.cell.handle_failure(child, strategy)
            },
            SystemMsg::Terminated(child) => slot.cell.death_watch(&child, &mut slot.actor),
        };
        self.slots.insert(i, slot);
        proof {
            assert(self.slots@[i as int].cell.cell.uid == old(self).uid_at(i as int));
            assert(self.slots@[i as int].cell.cell.wf());
            assert(self.slots@[i as int].cell.cell.is_restarting
                ==> self.slots@[i as int].cell.cell.children@.len() > 0);
            assert(self.slots@[i as int].cell.cell.kernel is Some);
            assert(!contains_uid(
                self.slots@[i as int].cell.cell.children@,
                self.slots@[i as int].cell.cell.uid,
            )) by {
                let pre_c = old(self).slots@[i as int].cell.cell;
                let post_c = self.slots@[i as int].cell.cell;
                assert(!contains_uid(pre_c.children@, pre_c.uid));
                if contains_uid(post_c.children@, post_c.uid) {
                    assert(contains_uid(pre_c.children@, pre_c.uid));
                }
            }
            self.lemma_wf_after_slot_step(*old(self), i as int);
            assert(frame_facts(*old(self), *self)) by {
                assert(old(self).effects@ =~= self.effects@.subrange(
                    0,
                    old(self).effects@.len() as int,
                ));
                assert forall|j: int|
                    0 <= j < old(self).slots@.len() implies self.uid_at(j) == old(
                    self,
                ).uid_at(j) by {
                    if j != i {
                        assert(self.slots@[j] == old(self).slots@[j]);
                    }
                }
            }
            assert(ghead == old(self).slots@[i as int].cell.cell.sys_mailbox.msgs()[0]);
            assert(crate::cell::dispatched(
                old(self).slots@[i as int].cell.cell,
                self.slots@[i as int].cell.cell,
                ghead,
                strat,
                acts@,
            ));
        }
        let ghost mid_sys = *self;
        proof {
            assert(same_but(old(self).slots@, mid_sys.slots@, i as int));
            assert(mid_sys.same_meta(old(self)));
            assert(acts@.subrange(0, 0) =~= Seq::<Action>::empty());
            assert(applied_actions(mid_sys, *self, uid, acts@.subrange(0, 0)));
        }
        let n = acts.len();
        let mut k: usize = 0;
        while k < n
            invariant
                n == acts@.len(),
                0 <= k <= n,
                self.wf(),
                frame_facts(*old(self), *self),
                applied_actions(mid_sys, *self, uid, acts@.subrange(0, k as int)),
            decreases n - k,
        {
            let ghost before = *self;
            proof {
                let j = old(self).slot_index(uid);
                assert(0 <= j < old(self).slots@.len() && old(self).uid_at(j) == uid);
                assert(self.uid_at(j) == uid);
            }
            let act = acts[k];
            self.apply_action(uid, act);
            proof {
                lemma_frame_trans(*old(self), before, *self);
                assert(acts@.subrange(0, k as int + 1) =~= acts@.subrange(0, k as int).push(
                    acts@[k as int],
                ));
                lemma_applied_actions_snoc(
                    mid_sys,
                    before,
                    *self,
                    uid,
                    acts@.subrange(0, k as int),
                    acts@[k as int],
                );
            }
            k = k + 1;
        }
        proof {
            assert(acts@.subrange(0, n as int) =~= acts@);
            assert(applied_actions(mid_sys, *self, uid, acts@));
            assert(process_step(*old(self), *self, uid));
        }
        true
    }

    /// Cells touched by a supervision step keep their id, stay well-formed,
    /// restart only with children, and keep their kernel: the invariant
    /// carries over.
    proof fn lemma_wf_after_slot_step(&self, pre: ActorSystem<A>, i: int)
        requires
            pre.wf(),
            0 <= i < pre.slots@.len(),
            self.slots@.len() == pre.slots@.len(),
            forall|j: int| 0 <= j < pre.slots@.len() && j != i ==> self.slots@[j] == pre.slots@[j],
            self.slots@[i].cell.cell.uid == pre.slots@[i].cell.cell.uid,
            self.slots@[i].cell.cell.wf(),
            self.slots@[i].cell.cell.is_restarting ==> self.slots@[i].cell.cell.children@.len()
                > 0,
            self.slots@[i].cell.cell.kernel is Some,
            !contains_uid(self.slots@[i].cell.cell.children@, self.slots@[i].cell.cell.uid),
            self.next_uid == pre.next_uid,
        ensures
            self.wf(),
    {
        assert forall|p: int, q: int|
            0 <= p < q < self.slots@.len() implies self.uid_at(p) != self.uid_at(q) by {
            assert(self.uid_at(p) == pre.uid_at(p));
            assert(self.uid_at(q) == pre.uid_at(q));
        }
        assert forall|j: int|
            0 <= j < self.slots@.len() implies (#[trigger] self.slots@[j]).cell.cell.wf() by {
            if j != i {
                assert(self.slots@[j] == pre.slots@[j]);
            }
        }
        assert forall|j: int|
            0 <= j < self.slots@.len() implies #[trigger] self.uid_at(j) < self.next_uid by {
            assert(self.uid_at(j) == pre.uid_at(j));
            assert(pre.uid_at(j) < pre.next_uid);
        }
        assert forall|j: int|
            0 <= j < self.slots@.len() implies ((#[trigger] self.slots@[j]).cell.cell.is_restarting
            ==> self.slots@[j].cell.cell.children@.len() > 0) by {
            if j != i {
                assert(self.slots@[j] == pre.slots@[j]);
            }
        }
        assert forall|j: int|
            0 <= j < self.slots@.len() implies (#[trigger] self.slots@[j]).cell.cell.kernel
            is Some by {
            if j != i {
                assert(self.slots@[j] == pre.slots@[j]);
            }
        }
        assert forall|j: int|
            0 <= j < self.slots@.len() implies !contains_uid(
            (#[trigger] self.slots@[j]).cell.cell.children@,
            self.uid_at(j),
        ) by {
            if j != i {
                assert(self.slots@[j] == pre.slots@[j]);
                assert(!contains_uid(pre.slots@[j].cell.cell.children@, pre.uid_at(j)));
            }
        }
    }

    /// The id of some cell with a pending system message, if any.
    pub fn find_pending(&self) -> (r: Option<u64>)
        ensures
            r matches Some(uid) ==> self.has_uid(uid) && exists|i: int|
                0 <= i < self.slots@.len() && self.uid_at(i) == uid
                    && self.slots@[i].cell.cell.sys_mailbox.msgs().len() > 0,
            r is None ==> forall|i: int|
                0 <= i < self.slots@.len() ==> (
                #[trigger] self.slots@[i]).cell.cell.sys_mailbox.msgs().len() == 0,
    {
        let n = self.slots.len();
        let mut i: usize = 0;
        while i < n
            invariant
                n == self.slots@.len(),
                0 <= i <= n,
                forall|j: int|
                    0 <= j < i ==> (#[trigger] self.slots@[j]).cell.cell.sys_mailbox.msgs().len()
                        == 0,
            decreases n - i,
        {
            if self.slots[i].cell.cell.sys_mailbox.len() > 0 {
                let uid = self.slots[i].cell.cell.uid;
                proof {
                    assert(self.uid_at(i as int) == uid);
                    assert(self.slots@[i as int].cell.cell.sys_mailbox.msgs().len() > 0);
                }
                return Some(uid);
            }
            i = i + 1;
        }
        None
    }

    /// Drains system mailboxes until none is pending or `fuel` steps have
    /// run — supervision gives no global termination bound: a child that
    /// never acknowledges blocks its parent forever. Returns whether the
    /// system went quiet. The whole run obeys [`frame_facts`].
    #[verifier::loop_isolation(false)]
    pub fn run(&mut self, fuel: u64) -> (quiet: bool) where A::Msg: core::fmt::Display
        requires
            old(self).wf(),
        ensures
            final(self).wf(),
            frame_facts(*old(self), *final(self)),
            quiet ==> forall|i: int|
                0 <= i < final(self).slots@.len() ==> (
                #[trigger] final(self).slots@[i]).cell.cell.sys_mailbox.msgs().len() == 0,
    {
        let mut left = fuel;
        proof {
            lemma_frame_refl(*old(self));
        }
        loop
            invariant
                self.wf(),
                frame_facts(*old(self), *self),
            decreases left,
        {
            let pending = self.find_pending();
            let uid = match pending {
                None => {
                    return true;
                },
                Some(uid) => uid,
            };
            if left == 0 {
                return false;
            }
            left = left - 1;
            let ghost before = *self;
            let _ = self.process_one(uid);
            proof {
                lemma_frame_trans(*old(self), before, *self);
            }
        }
    }

    /// The invariant only reads the table and the allocation counter: it
    /// carries over to a system that kept both.
    proof fn lemma_wf_same_slots(&self, pre: ActorSystem<A>)
        requires
            pre.wf(),
            self.slots@ == pre.slots@,
            self.next_uid == pre.next_uid,
        ensures
            self.wf(),
    {
        assert forall|p: int, q: int|
            0 <= p < q < self.slots@.len() implies self.uid_at(p) != self.uid_at(q) by {
            assert(self.uid_at(p) == pre.uid_at(p));
            assert(self.uid_at(q) == pre.uid_at(q));
        }
        assert forall|j: int|
            0 <= j < self.slots@.len() implies (#[trigger] self.slots@[j]).cell.cell.wf() by {
            assert(self.slots@[j] == pre.slots@[j]);
        }
        assert forall|j: int|
            0 <= j < self.slots@.len() implies #[trigger] self.uid_at(j) < self.next_uid by {
            assert(self.uid_at(j) == pre.uid_at(j));
            assert(pre.uid_at(j) < pre.next_uid);
        }
        assert forall|j: int|
            0 <= j < self.slots@.len() implies ((#[trigger] self.slots@[j]).cell.cell.is_restarting
            ==> self.slots@[j].cell.cell.children@.len() > 0) by {
            assert(self.slots@[j] == pre.slots@[j]);
        }
        assert forall|j: int|
            0 <= j < self.slots@.len() implies (#[trigger] self.slots@[j]).cell.cell.kernel
            is Some by {
            assert(self.slots@[j] == pre.slots@[j]);
        }
        assert forall|j: int|
            0 <= j < self.slots@.len() implies !contains_uid(
            (#[trigger] self.slots@[j]).cell.cell.children@,
            self.uid_at(j),
        ) by {
            assert(self.slots@[j] == pre.slots@[j]);
            assert(!contains_uid(pre.slots@[j].cell.cell.children@, pre.uid_at(j)));
        }
    }

    /// The table's slots are pairwise distinct cells and the one at `i` kept
    /// its identity and supervision state: only its mailboxes moved. Then
    /// the whole invariant carries over.
    proof fn lemma_wf_after_slot_touch(&self, pre: ActorSystem<A>, i: int)
        requires
            pre.wf(),
            0 <= i < pre.slots@.len(),
            self.slots@.len() == pre.slots@.len(),
            forall|j: int| 0 <= j < pre.slots@.len() && j != i ==> self.slots@[j] == pre.slots@[j],
            self.slots@[i].cell.cell.same_identity(&pre.slots@[i].cell.cell),
            self.slots@[i].cell.cell.children == pre.slots@[i].cell.cell.children,
            self.slots@[i].cell.cell.is_terminating == pre.slots@[i].cell.cell.is_terminating,
            self.slots@[i].cell.cell.is_restarting == pre.slots@[i].cell.cell.is_restarting,
            self.next_uid == pre.next_uid,
        ensures
            self.wf(),
    {
        assert forall|p: int, q: int|
            0 <= p < q < self.slots@.len() implies self.uid_at(p) != self.uid_at(q) by {
            assert(self.uid_at(p) == pre.uid_at(p));
            assert(self.uid_at(q) == pre.uid_at(q));
        }
        assert forall|j: int|
            0 <= j < self.slots@.len() implies (#[trigger] self.slots@[j]).cell.cell.wf() by {
            if j != i {
                assert(self.slots@[j] == pre.slots@[j]);
            } else {
                assert(self.slots@[j].cell.cell.children == pre.slots@[j].cell.cell.children);
            }
        }
        assert forall|j: int|
            0 <= j < self.slots@.len() implies #[trigger] self.uid_at(j) < self.next_uid by {
            assert(self.uid_at(j) == pre.uid_at(j));
            assert(pre.uid_at(j) < pre.next_uid);
        }
        assert forall|j: int|
            0 <= j < self.slots@.len() implies ((#[trigger] self.slots@[j]).cell.cell.is_restarting
            ==> self.slots@[j].cell.cell.children@.len() > 0) by {
            if j != i {
                assert(self.slots@[j] == pre.slots@[j]);
            } else {
                assert(self.slots@[j].cell.cell.children == pre.slots@[j].cell.cell.children);
            }
        }
        assert forall|j: int|
            0 <= j < self.slots@.len() implies (#[trigger] self.slots@[j]).cell.cell.kernel
            is Some by {
            if j != i {
                assert(self.slots@[j] == pre.slots@[j]);
            }
        }
        assert forall|j: int|
            0 <= j < self.slots@.len() implies !contains_uid(
            (#[trigger] self.slots@[j]).cell.cell.children@,
            self.uid_at(j),
        ) by {
            if j != i {
                assert(self.slots@[j] == pre.slots@[j]);
            } else {
                assert(self.slots@[j].cell.cell.children == pre.slots@[j].cell.cell.children);
            }
            assert(!contains_uid(pre.slots@[j].cell.cell.children@, pre.uid_at(j)));
        }
    }
}

/// What performing `Action::KernelTerminate` for the cell `uid` leaves
/// behind: the slot is marked stopped with both mailboxes closed, every
/// user message still pending went out as a dead letter — never a silent
/// drop — and the log gains exactly those dead letters followed by the
/// kernel-terminated effect.
pub open spec fn kernel_terminate_post<A: Actor>(
    pre: ActorSystem<A>,
    post: ActorSystem<A>,
    uid: u64,
) -> bool {
    let i = pre.slot_index(uid);
    let cpre = pre.slots@[i].cell.cell;
    &&& post.slots@[i].stopped
    &&& post.slots@[i].cell.cell.mailbox.is_closed()
    &&& post.slots@[i].cell.cell.mailbox.msgs().len() == 0
    &&& post.slots@[i].cell.cell.sys_mailbox.is_closed()
    &&& exists|dls: Seq<Effect>|
        {
            &&& post.effects@ == pre.effects@ + dls + seq![Effect::KernelTerminated { uid }]
            &&& dls.len() == cpre.mailbox.msgs().len()
            &&& forall|k: int| 0 <= k < dls.len() ==> dls[k] is DeadLetter
        }
}

/// What every kernel step preserves: the table keeps its cells (same count,
/// same ids, in place), a terminating cell never reverts, a stopped cell
/// stays stopped, the effect log only grows, identity data stands still,
/// and shutdown is permanent.
pub open spec fn frame_facts<A: Actor>(pre: ActorSystem<A>, post: ActorSystem<A>) -> bool {
    &&& post.slots@.len() == pre.slots@.len()
    &&& forall|i: int| 0 <= i < pre.slots@.len() ==> post.uid_at(i) == pre.uid_at(i)
    &&& forall|i: int|
        0 <= i < pre.slots@.len() ==> ((#[trigger] pre.slots@[i]).cell.cell.is_terminating
            ==> post.slots@[i].cell.cell.is_terminating)
    &&& forall|i: int|
        0 <= i < pre.slots@.len() ==> ((#[trigger] pre.slots@[i]).stopped
            ==> post.slots@[i].stopped)
    &&& pre.effects@.is_prefix_of(post.effects@)
    &&& post.next_uid == pre.next_uid
    &&& post.msg_tag == pre.msg_tag
    &&& (pre.is_shutting_down ==> post.is_shutting_down)
    &&& post.user_root == pre.user_root
    &&& post.temp_root == pre.temp_root
}

/// What delivering a `cmd` to the cell `target` does: its system mailbox
/// gains exactly the command — when the table knows the target and the
/// mailbox is open — and nothing moves otherwise.
pub open spec fn sys_send_applied<A: Actor>(
    pre: ActorSystem<A>,
    post: ActorSystem<A>,
    target: u64,
    cmd: crate::msg::SystemCmd,
) -> bool {
    &&& !pre.has_uid(target) ==> post.slots@ == pre.slots@
    &&& pre.has_uid(target) ==> ({
        let i = pre.slot_index(target);
        let pc = pre.slots@[i].cell.cell;
        let qc = post.slots@[i].cell.cell;
        &&& same_but(pre.slots@, post.slots@, i)
        &&& pc.sys_mailbox.is_closed() ==> post.slots@ == pre.slots@
        &&& !pc.sys_mailbox.is_closed() ==> qc.sys_mailbox.msgs() == pc.sys_mailbox.msgs().push(
            Envelope { msg: SystemMsg::Cmd(cmd), sender: None },
        ) && cell_untouched_but_sys(pc, qc) && slot_meta_same(pre.slots@[i], post.slots@[i])
    })
}

/// What escalating the failure of `failed` to `parent` does: the parent's
/// system mailbox gains exactly the failure notification carrying the
/// failed cell's reference — when the table knows both cells and the
/// mailbox is open — and nothing moves otherwise.
pub open spec fn escalate_applied<A: Actor>(
    pre: ActorSystem<A>,
    post: ActorSystem<A>,
    parent: u64,
    failed: u64,
) -> bool {
    &&& !pre.has_uid(failed) ==> post.slots@ == pre.slots@
    &&& pre.has_uid(failed) && !pre.has_uid(parent) ==> post.slots@ == pre.slots@
    &&& pre.has_uid(failed) && pre.has_uid(parent) ==> ({
        let fj = pre.slot_index(failed);
        let i = pre.slot_index(parent);
        let pc = pre.slots@[i].cell.cell;
        let qc = post.slots@[i].cell.cell;
        &&& same_but(pre.slots@, post.slots@, i)
        &&& pc.sys_mailbox.is_closed() ==> post.slots@ == pre.slots@
        &&& !pc.sys_mailbox.is_closed() ==> {
            &&& qc.sys_mailbox.msgs().len() == pc.sys_mailbox.msgs().len() + 1
            &&& qc.sys_mailbox.msgs().subrange(0, pc.sys_mailbox.msgs().len() as int)
                == pc.sys_mailbox.msgs()
            &&& (qc.sys_mailbox.msgs().last().msg matches SystemMsg::Failed(f) && f@.uid == failed
                && f@.uri == pre.slots@[fj].cell.cell.uri@)
            &&& qc.sys_mailbox.msgs().last().sender is None
            &&& cell_untouched_but_sys(pc, qc)
            &&& slot_meta_same(pre.slots@[i], post.slots@[i])
        }
    })
}

/// What performing one [`Action`] decided by the cell `origin` does to the
/// system: commands and escalations land on their targets' system
/// mailboxes, kernel actions and the terminal failure write the effect log,
/// and every case obeys [`frame_facts`].
pub open spec fn applied_action<A: Actor>(
    pre: ActorSystem<A>,
    post: ActorSystem<A>,
    origin: u64,
    act: Action,
) -> bool {
    &&& frame_facts(pre, post)
    &&& match act {
        Action::SysSend { target, cmd } => post.effects@ == pre.effects@ && post.is_shutting_down
            == pre.is_shutting_down && sys_send_applied(pre, post, target, cmd),
        Action::EscalateFailed { parent, failed } => post.effects@ == pre.effects@
            && post.is_shutting_down == pre.is_shutting_down && escalate_applied(
            pre,
            post,
            parent,
            failed,
        ),
        Action::KernelTerminate => kernel_terminate_post(pre, post, origin)
            && post.is_shutting_down == pre.is_shutting_down,
        Action::KernelRestart => post.effects@ == pre.effects@.push(
            Effect::KernelRestarted { uid: origin },
        ) && post.slots@ == pre.slots@ && post.is_shutting_down == pre.is_shutting_down,
        Action::SystemFailure => post.effects@ == pre.effects@.push(
            Effect::SystemFailure { uid: origin },
        ) && post.slots@ == pre.slots@ && post.is_shutting_down,
    }
}

/// The actions of a step, performed in order: each by [`applied_action`],
/// through some chain of intermediate systems.
pub open spec fn applied_actions<A: Actor>(
    pre: ActorSystem<A>,
    post: ActorSystem<A>,
    origin: u64,
    acts: Seq<Action>,
) -> bool
    decreases acts.len(),
{
    if acts.len() == 0 {
        post == pre
    } else {
        exists|mid: ActorSystem<A>|
            #![trigger applied_action(pre, mid, origin, acts[0])]
            applied_action(pre, mid, origin, acts[0]) && applied_actions(
                mid,
                post,
                origin,
                acts.drop_first(),
            )
    }
}

/// Performing one more action extends a chain of performed actions.
pub proof fn lemma_applied_actions_snoc<A: Actor>(
    a: ActorSystem<A>,
    b: ActorSystem<A>,
    c: ActorSystem<A>,
    origin: u64,
    acts: Seq<Action>,
    act: Action,
)
    requires
        applied_actions(a, b, origin, acts),
        applied_action(b, c, origin, act),
    ensures
        applied_actions(a, c, origin, acts.push(act)),
    decreases acts.len(),
{
    reveal_with_fuel(applied_actions, 3);
    let s2 = acts.push(act);
    if acts.len() == 0 {
        assert(b == a);
        assert(s2[0] == act);
        assert(s2.drop_first() =~= Seq::<Action>::empty());
        assert(applied_actions(c, c, origin, s2.drop_first()));
        assert(applied_action(a, c, origin, s2[0]));
        assert(applied_actions(a, c, origin, s2));
    } else {
        let mid = choose|mid: ActorSystem<A>|
            #![trigger applied_action(a, mid, origin, acts[0])]
            applied_action(a, mid, origin, acts[0]) && applied_actions(
                mid,
                b,
                origin,
                acts.drop_first(),
            );
        lemma_applied_actions_snoc(mid, b, c, origin, acts.drop_first(), act);
        assert(s2[0] == acts[0]);
        assert(s2.drop_first() =~= acts.drop_first().push(act));
        assert(applied_action(a, mid, origin, s2[0]));
        assert(applied_actions(mid, c, origin, s2.drop_first()));
        assert(applied_actions(a, c, origin, s2));
    }
}

/// What one kernel step for the cell `uid` amounts to: the cell consumed
/// the head of its system mailbox — the cell's change and the decided
/// actions are exactly [`crate::cell::dispatched`] under its strategy, with
/// nothing else touched — and the system then performed those actions in
/// order.
pub open spec fn process_step<A: Actor>(
    pre: ActorSystem<A>,
    post: ActorSystem<A>,
    uid: u64,
) -> bool {
    let i = pre.slot_index(uid);
    let pc = pre.slots@[i].cell.cell;
    exists|mid: ActorSystem<A>, acts: Seq<Action>|
        #![trigger applied_actions(mid, post, uid, acts)]
        {
            &&& same_but(pre.slots@, mid.slots@, i)
            &&& mid.same_meta(&pre)
            &&& mid.slots@[i].strategy == pre.slots@[i].strategy
            &&& mid.slots@[i].stopped == pre.slots@[i].stopped
            &&& crate::cell::dispatched(
                pc,
                mid.slots@[i].cell.cell,
                pc.sys_mailbox.msgs()[0],
                pre.slots@[i].strategy,
                acts,
            )
            &&& applied_actions(mid, post, uid, acts)
        }
}

/// [`frame_facts`] holds of an unchanged system.
pub proof fn lemma_frame_refl<A: Actor>(a: ActorSystem<A>)
    ensures
        frame_facts(a, a),
{
    assert(a.effects@ =~= a.effects@.subrange(0, a.effects@.len() as int));
}

/// [`frame_facts`] is reflexive and composes across steps.
pub proof fn lemma_frame_trans<A: Actor>(a: ActorSystem<A>, b: ActorSystem<A>, c: ActorSystem<A>)
    requires
        frame_facts(a, b),
        frame_facts(b, c),
    ensures
        frame_facts(a, c),
{
    assert forall|i: int| 0 <= i < a.slots@.len() implies c.uid_at(i) == a.uid_at(i) by {
        assert(b.uid_at(i) == a.uid_at(i));
        assert(c.uid_at(i) == b.uid_at(i));
    }
    assert forall|i: int|
        0 <= i < a.slots@.len() implies ((#[trigger] a.slots@[i]).cell.cell.is_terminating
        ==> c.slots@[i].cell.cell.is_terminating) by {
        if a.slots@[i].cell.cell.is_terminating {
            assert(b.slots@[i].cell.cell.is_terminating);
        }
    }
    assert forall|i: int|
        0 <= i < a.slots@.len() implies ((#[trigger] a.slots@[i]).stopped
        ==> c.slots@[i].stopped) by {
        if a.slots@[i].stopped {
            assert(b.slots@[i].stopped);
        }
    }
    assert forall|k: int|
        0 <= k < a.effects@.len() implies a.effects@[k] == c.effects@[k] by {
        assert(a.effects@[k] == b.effects@[k]);
        assert(b.effects@[k] == c.effects@[k]);
    }
    assert(a.effects@ =~= c.effects@.subrange(0, a.effects@.len() as int));
}

/// The table is unchanged but for the slot at `i`.
pub open spec fn same_but<A: Actor>(pre: Seq<Slot<A>>, post: Seq<Slot<A>>, i: int) -> bool {
    &&& post.len() == pre.len()
    &&& forall|j: int| 0 <= j < pre.len() && j != i ==> post[j] == pre[j]
}

/// The slot's actor instance, strategy and stopped mark are unchanged.
pub open spec fn slot_meta_same<A: Actor>(pre: Slot<A>, post: Slot<A>) -> bool {
    &&& post.actor == pre.actor
    &&& post.strategy == pre.strategy
    &&& post.stopped == pre.stopped
}

/// Only the cell's system mailbox moved.
pub open spec fn cell_untouched_but_sys<M>(
    pre: crate::cell::ActorCell<M>,
    post: crate::cell::ActorCell<M>,
) -> bool {
    &&& post.same_identity(&pre)
    &&& post.children == pre.children
    &&& post.is_terminating == pre.is_terminating
    &&& post.is_restarting == pre.is_restarting
    &&& post.mailbox == pre.mailbox
}

/// Only the cell's user mailbox moved.
pub open spec fn cell_untouched_but_user<M>(
    pre: crate::cell::ActorCell<M>,
    post: crate::cell::ActorCell<M>,
) -> bool {
    &&& post.same_identity(&pre)
    &&& post.children == pre.children
    &&& post.is_terminating == pre.is_terminating
    &&& post.is_restarting == pre.is_restarting
    &&& post.sys_mailbox == pre.sys_mailbox
}

} // verus!
