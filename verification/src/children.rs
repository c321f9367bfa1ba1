//! The children registry: a mapping from child name to reference.
//!
//! Names are unique per parent: [`Children::wf`] states it, the constructor
//! establishes it, and every operation preserves it. `add` is idempotent —
//! on a name collision the last write wins.

use vstd::prelude::*;
use crate::refs::{BasicActorRef, RefView};

verus! {

/// The registry of a cell's children.
pub struct Children {
    entries: Vec<BasicActorRef>,
}

impl View for Children {
    type V = Seq<RefView>;

    closed spec fn view(&self) -> Seq<RefView> {
        self.entries@.map(|i: int, r: BasicActorRef| r@)
    }
}

/// Is some entry named `name`?
pub open spec fn contains_name(s: Seq<RefView>, name: Seq<char>) -> bool {
    exists|i: int| 0 <= i < s.len() && s[i].uri.name == name
}

/// Is some entry the cell with id `uid`?
pub open spec fn contains_uid(s: Seq<RefView>, uid: u64) -> bool {
    exists|i: int| 0 <= i < s.len() && s[i].uid == uid
}

impl Children {
    /// Child names are unique.
    pub open spec fn wf(&self) -> bool {
        forall|i: int, j: int|
            0 <= i < j < self@.len() ==> self@[i].uri.name != self@[j].uri.name
    }

    pub fn new() -> (r: Children)
        ensures
            r@ =~= Seq::<RefView>::empty(),
            r.wf(),
    {
        Children { entries: Vec::new() }
    }

    pub fn len(&self) -> (r: usize)
        ensures
            r == self@.len(),
    {
        self.entries.len()
    }

    /// Registers `actor` under its name. If the name is already taken the
    /// entry is replaced (last write wins); otherwise the entry is appended.
    pub fn add(&mut self, actor: BasicActorRef)
        requires
            old(self).wf(),
        ensures
            final(self).wf(),
            contains_name(old(self)@, actor@.uri.name) ==> exists|i: int|
                0 <= i < old(self)@.len() && old(self)@[i].uri.name == actor@.uri.name
                    && final(self)@ == old(self)@.update(i, actor@),
            !contains_name(old(self)@, actor@.uri.name) ==> final(self)@ == old(self)@.push(
                actor@,
            ),
    {
        let n = self.entries.len();
        let mut i: usize = 0;
        while i < n
            invariant
                n == self@.len(),
                0 <= i <= n,
                self@ == old(self)@,
                self.wf(),
                forall|j: int| 0 <= j < i ==> self@[j].uri.name != actor@.uri.name,
        decreases n - i,
        {
            proof {
                assert(self@[i as int] == self.entries@[i as int]@);
            }
            if self.entries[i].uri.name == actor.uri.name {
                let ghost prev = self@;
                self.entries[i] = actor;
                proof {
                    assert(self@ =~= prev.update(i as int, actor@));
                    assert(prev[i as int].uri.name == actor@.uri.name);
                    assert forall|p: int, q: int|
                        0 <= p < q < self@.len() implies self@[p].uri.name
                        != self@[q].uri.name by {
                        assert(prev[p].uri.name != prev[q].uri.name);
                    }
                }
                return ;
            }
            i = i + 1;
        }
        let ghost prev = self@;
        self.entries.push(actor);
        proof {
            assert(self@ =~= prev.push(actor@));
            assert forall|p: int, q: int|
                0 <= p < q < self@.len() implies self@[p].uri.name != self@[q].uri.name by {
                if q < prev.len() {
                    assert(prev[p].uri.name != prev[q].uri.name);
                } else {
                    assert(self@[q] == actor@);
                    assert(prev[p].uri.name != actor@.uri.name);
                }
            }
        }
    }

    /// Unregisters the entry named like `actor`, if any; a no-op when absent.
    pub fn remove(&mut self, actor: &BasicActorRef)
        requires
            old(self).wf(),
        ensures
            final(self).wf(),
            contains_name(old(self)@, actor@.uri.name) ==> exists|i: int|
                0 <= i < old(self)@.len() && old(self)@[i].uri.name == actor@.uri.name
                    && final(self)@ == old(self)@.remove(i),
            !contains_name(old(self)@, actor@.uri.name) ==> final(self)@ == old(self)@,
            !contains_name(final(self)@, actor@.uri.name),
    {
        let n = self.entries.len();
        let mut i: usize = 0;
        while i < n
            invariant
                n == self@.len(),
                0 <= i <= n,
                self@ == old(self)@,
                self.wf(),
                forall|j: int| 0 <= j < i ==> self@[j].uri.name != actor@.uri.name,
        decreases n - i,
        {
            proof {
                assert(self@[i as int] == self.entries@[i as int]@);
            }
            if self.entries[i].uri.name == actor.uri.name {
                let ghost prev = self@;
                self.entries.remove(i);
                proof {
                    assert(self@ =~= prev.remove(i as int));
                    assert(prev[i as int].uri.name == actor@.uri.name);
                    assert forall|k: int| 0 <= k < self@.len() implies self@[k].uri.name
                        != actor@.uri.name by {
                        if k < i {
                            assert(self@[k] == prev[k]);
                            assert(prev[k].uri.name != prev[i as int].uri.name);
                        } else {
                            assert(self@[k] == prev[k + 1]);
                            assert(prev[i as int].uri.name != prev[k + 1].uri.name);
                        }
                    }
                    assert forall|p: int, q: int|
                        0 <= p < q < self@.len() implies self@[p].uri.name
                        != self@[q].uri.name by {
                        let p0: int = if p < i { p } else { p + 1 };
                        let q0: int = if q < i { q } else { q + 1 };
                        assert(self@[p] == prev[p0]);
                        assert(self@[q] == prev[q0]);
                        assert(prev[p0].uri.name != prev[q0].uri.name);
                    }
                }
                return ;
            }
            i = i + 1;
        }
    }

    /// Does the registry hold the cell with id `uid`?
    pub fn contains(&self, uid: u64) -> (r: bool)
        ensures
            r == contains_uid(self@, uid),
    {
        let n = self.entries.len();
        let mut i: usize = 0;
        while i < n
            invariant
                n == self@.len(),
                0 <= i <= n,
                forall|j: int| 0 <= j < i ==> self@[j].uid != uid,
        decreases n - i,
        {
            proof {
                assert(self@[i as int] == self.entries@[i as int]@);
            }
            if self.entries[i].uid == uid {
                return true;
            }
            i = i + 1;
        }
        false
    }

    /// Does the registry hold an entry named `name`?
    pub fn contains_named(&self, name: &String) -> (r: bool)
        ensures
            r == contains_name(self@, name@),
    {
        let n = self.entries.len();
        let mut i: usize = 0;
        while i < n
            invariant
                n == self@.len(),
                0 <= i <= n,
                forall|j: int| 0 <= j < i ==> self@[j].uri.name != name@,
        decreases n - i,
        {
            proof {
                assert(self@[i as int] == self.entries@[i as int]@);
            }
            if self.entries[i].uri.name == *name {
                return true;
            }
            i = i + 1;
        }
        false
    }

    /// A snapshot of the current entries, in registry order.
    pub fn iter(&self) -> (r: Vec<BasicActorRef>)
        ensures
            r@.len() == self@.len(),
            forall|k: int| 0 <= k < r@.len() ==> r@[k]@ == self@[k],
    {
        let n = self.entries.len();
        let mut out: Vec<BasicActorRef> = Vec::new();
        let mut i: usize = 0;
        while i < n
            invariant
                n == self@.len(),
                0 <= i <= n,
                out@.len() == i,
                forall|k: int| 0 <= k < i ==> out@[k]@ == self@[k],
        decreases n - i,
        {
            proof {
                assert(self@[i as int] == self.entries@[i as int]@);
            }
            out.push(self.entries[i].clone());
            i = i + 1;
        }
        out
    }
}

} // verus!
