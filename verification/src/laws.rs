//! The laws of the supervision tree, stated and proved over the spec
//! functions that the cells' and the system's contracts use.

use vstd::prelude::*;
use crate::cell::{
    death_watch_post, restart_post, stop_cmd, Action, ActorCell,
};
use crate::children::contains_uid;
use crate::refs::RefView;
use crate::system::{frame_facts, ActorSystem, Effect};
use crate::cell::Actor;

verus! {

/// A reference is minted by the system: some cell carries exactly its id
/// and URI.
pub open spec fn valid_ref<A: Actor>(sys: ActorSystem<A>, r: RefView) -> bool {
    exists|i: int|
        0 <= i < sys.slots@.len() && sys.slots@[i].cell.cell.uid == r.uid
            && sys.slots@[i].cell.cell.uri@ == r.uri
}

/// References share identity: two references minted by one system with the
/// same `uid` are the same reference — same URI, so the same `path()` — and
/// `==` on references compares exactly that `uid` (see `eq_spec` on
/// `BasicActorRef` and `ActorRef`).
pub proof fn lemma_ref_identity<A: Actor>(sys: ActorSystem<A>, a: RefView, b: RefView)
    requires
        sys.wf(),
        valid_ref(sys, a),
        valid_ref(sys, b),
        a.uid == b.uid,
    ensures
        a == b,
        a.uri.path == b.uri.path,
{
    let i = choose|i: int|
        0 <= i < sys.slots@.len() && sys.slots@[i].cell.cell.uid == a.uid
            && sys.slots@[i].cell.cell.uri@ == a.uri;
    let j = choose|j: int|
        0 <= j < sys.slots@.len() && sys.slots@[j].cell.cell.uid == b.uid
            && sys.slots@[j].cell.cell.uri@ == b.uri;
    if i != j {
        assert(sys.uid_at(i) != sys.uid_at(j));
    }
}

/// Child names are unique under any parent: in a well-formed system no two
/// entries of one cell's registry carry the same name.
pub proof fn lemma_child_names_unique<A: Actor>(sys: ActorSystem<A>, i: int, p: int, q: int)
    requires
        sys.wf(),
        0 <= i < sys.slots@.len(),
        0 <= p < q < sys.slots@[i].cell.cell.children@.len(),
    ensures
        sys.slots@[i].cell.cell.children@[p].uri.name
            != sys.slots@[i].cell.cell.children@[q].uri.name,
{
    assert(sys.slots@[i].cell.cell.wf());
}

/// `is_terminating` never reverts: across any number of kernel steps (each
/// obeys [`frame_facts`]) a cell observed terminating stays terminating.
pub proof fn lemma_terminating_monotone<A: Actor>(
    pre: ActorSystem<A>,
    post: ActorSystem<A>,
    i: int,
)
    requires
        frame_facts(pre, post),
        0 <= i < pre.slots@.len(),
        pre.slots@[i].cell.cell.is_terminating,
    ensures
        post.slots@[i].cell.cell.is_terminating,
{
}

/// Restart fan-out: a restart of a parent with children emits exactly one
/// stop command per child — in registry order, with no kernel restart among
/// them — and raises the restarting flag.
pub proof fn lemma_restart_fanout<M>(pre: ActorCell<M>, post: ActorCell<M>, acts: Seq<Action>)
    requires
        pre.children@.len() > 0,
        restart_post(pre, post, acts),
    ensures
        acts.len() == pre.children@.len(),
        forall|k: int| 0 <= k < acts.len() ==> acts[k] == stop_cmd(pre.children@[k].uid),
        forall|k: int| 0 <= k < acts.len() ==> acts[k] != Action::KernelRestart,
        post.is_restarting,
{
    assert(acts == crate::cell::stop_all(pre.children@));
}

/// Restart completion: while restarting, a death-watch notification from a
/// child emits the kernel restart exactly when the last child goes — once,
/// alone, and the flag falls with it; with children left, nothing is
/// emitted and the flag stands.
pub proof fn lemma_restart_completes<M>(
    pre: ActorCell<M>,
    post: ActorCell<M>,
    terminated: RefView,
    acts: Seq<Action>,
)
    requires
        pre.is_restarting,
        !pre.is_terminating,
        contains_uid(pre.children@, terminated.uid),
        death_watch_post(pre, post, terminated, acts),
    ensures
        post.children@.len() == 0 ==> acts == seq![Action::KernelRestart] && !post.is_restarting,
        post.children@.len() > 0 ==> acts == Seq::<Action>::empty() && post.is_restarting,
{
    if post.children@.len() == 0 {
        assert(pre.children@.len() > 0);
        assert(acts =~= seq![Action::KernelRestart]);
    }
}

/// No silent drop on stop: when the kernel stops a cell, every user message
/// still pending went out as a dead letter — the log gains one dead letter
/// per pending message, then the termination itself.
pub proof fn lemma_stop_dead_letters_pending<A: Actor>(
    pre: ActorSystem<A>,
    post: ActorSystem<A>,
    uid: u64,
)
    requires
        pre.wf(),
        crate::system::kernel_terminate_post(pre, post, uid),
    ensures
        post.effects@.len() == pre.effects@.len() + pre.slots@[pre.slot_index(
            uid,
        )].cell.cell.mailbox.msgs().len() + 1,
        post.slots@[pre.slot_index(uid)].cell.cell.mailbox.msgs().len() == 0,
        post.effects@.last() == (Effect::KernelTerminated { uid }),
        forall|k: int|
            pre.effects@.len() <= k < post.effects@.len() - 1 ==> (
            #[trigger] post.effects@[k]) is DeadLetter,
{
    let i = pre.slot_index(uid);
    let dls = choose|dls: Seq<Effect>|
        {
            &&& post.effects@ == pre.effects@ + dls + seq![Effect::KernelTerminated { uid }]
            &&& dls.len() == pre.slots@[i].cell.cell.mailbox.msgs().len()
            &&& forall|k: int| 0 <= k < dls.len() ==> dls[k] is DeadLetter
        };
    assert forall|k: int|
        pre.effects@.len() <= k < post.effects@.len() - 1 implies (
    #[trigger] post.effects@[k]) is DeadLetter by {
        assert(post.effects@[k] == dls[k - pre.effects@.len()]);
    }
}

} // verus!
