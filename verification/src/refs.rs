//! References: addressable handles to a cell. Equality is by identity (`uid`).
//!
//! A reference is a value of plain data — the cell's id, its URI and, for the
//! typed flavour, the tag of the message type its mailbox accepts. Cells
//! themselves are owned by the system's node table (see `system`), which
//! breaks the parent/child ownership cycle.

use vstd::prelude::*;
use crate::uri::{ActorUri, UriView};
use crate::ActorId;

verus! {

/// The mathematical content of a reference.
pub struct RefView {
    pub uid: ActorId,
    pub uri: UriView,
}

/// A weakly-typed reference to a cell.
#[derive(Debug)]
pub struct BasicActorRef {
    pub uid: ActorId,
    pub uri: ActorUri,
}

impl View for BasicActorRef {
    type V = RefView;

    open spec fn view(&self) -> RefView {
        RefView { uid: self.uid, uri: self.uri@ }
    }
}

impl Clone for BasicActorRef {
    fn clone(&self) -> (r: Self)
        ensures
            r@ == self@,
    {
        BasicActorRef { uid: self.uid, uri: self.uri.clone() }
    }
}

/// References are equal iff they point at the same cell: equality is by `uid`
/// alone, never by the (derived) URI.
impl PartialEq for BasicActorRef {
    fn eq(&self, other: &Self) -> (r: bool) {
        self.uid == other.uid
    }
}

impl vstd::std_specs::cmp::PartialEqSpecImpl for BasicActorRef {
    open spec fn obeys_eq_spec() -> bool {
        true
    }

    open spec fn eq_spec(&self, other: &Self) -> bool {
        self.uid == other.uid
    }
}

impl BasicActorRef {
    pub fn name(&self) -> (r: &String)
        ensures
            r@ == self@.uri.name,
    {
        &self.uri.name
    }

    pub fn path(&self) -> (r: &String)
        ensures
            r@ == self@.uri.path,
    {
        &self.uri.path
    }

    pub fn uri(&self) -> (r: &ActorUri)
        ensures
            r@ == self@.uri,
    {
        &self.uri
    }
}

/// A strongly-typed reference: the same identity plus the tag under which the
/// target cell accepts user messages.
#[derive(Debug)]
pub struct ActorRef {
    pub basic: BasicActorRef,
    pub msg_tag: u64,
}

impl Clone for ActorRef {
    fn clone(&self) -> (r: Self)
        ensures
            r.basic@ == self.basic@,
            r.msg_tag == self.msg_tag,
    {
        ActorRef { basic: self.basic.clone(), msg_tag: self.msg_tag }
    }
}

/// Typed references share identity with untyped ones: equal iff same `uid`.
impl PartialEq for ActorRef {
    fn eq(&self, other: &Self) -> (r: bool) {
        self.basic.uid == other.basic.uid
    }
}

impl vstd::std_specs::cmp::PartialEqSpecImpl for ActorRef {
    open spec fn obeys_eq_spec() -> bool {
        true
    }

    open spec fn eq_spec(&self, other: &Self) -> bool {
        self.basic.uid == other.basic.uid
    }
}

impl ActorRef {
    pub fn name(&self) -> (r: &String)
        ensures
            r@ == self.basic@.uri.name,
    {
        &self.basic.uri.name
    }

    pub fn path(&self) -> (r: &String)
        ensures
            r@ == self.basic@.uri.path,
    {
        &self.basic.uri.path
    }

    pub fn uri(&self) -> (r: &ActorUri)
        ensures
            r@ == self.basic@.uri,
    {
        &self.basic.uri
    }
}

} // verus!
