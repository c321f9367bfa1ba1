//! A mailbox: a FIFO queue of envelopes that can be closed.
//!
//! The runtime's concrete queue is a collaborator; this is its send/receive
//! contract made precise: `try_send` appends unless the mailbox is closed,
//! in which case the envelope travels back to the caller inside the error.

use vstd::prelude::*;
use crate::msg::SendError;

verus! {

pub struct Mailbox<T> {
    queue: Vec<T>,
    closed: bool,
}

impl<T> Mailbox<T> {
    /// The pending messages, oldest first.
    pub closed spec fn msgs(&self) -> Seq<T> {
        self.queue@
    }

    /// A closed mailbox accepts nothing; closure is permanent.
    pub closed spec fn is_closed(&self) -> bool {
        self.closed
    }

    pub fn new() -> (r: Mailbox<T>)
        ensures
            r.msgs() =~= Seq::<T>::empty(),
            !r.is_closed(),
    {
        Mailbox { queue: Vec::new(), closed: false }
    }

    pub fn len(&self) -> (r: usize)
        ensures
            r == self.msgs().len(),
    {
        self.queue.len()
    }

    pub fn closed(&self) -> (r: bool)
        ensures
            r == self.is_closed(),
    {
        self.closed
    }

    /// Enqueues `t` at the back, or returns it inside the error when the
    /// mailbox is closed. Never silently drops a message.
    pub fn try_send(&mut self, t: T) -> (r: Result<(), SendError<T>>)
        ensures
            old(self).is_closed() ==> (r matches Err(e) && e.0 == t && *final(self) == *old(self)),
            !old(self).is_closed() ==> r is Ok && final(self).msgs() == old(self).msgs().push(t)
                && !final(self).is_closed(),
    {
        if self.closed {
            Err(SendError(t))
        } else {
            self.queue.push(t);
            Ok(())
        }
    }

    /// Dequeues the oldest message, if any.
    pub fn pop_front(&mut self) -> (r: Option<T>)
        ensures
            old(self).msgs().len() == 0 ==> r is None && *final(self) == *old(self),
            old(self).msgs().len() > 0 ==> r == Some(old(self).msgs()[0]) && final(self).msgs()
                == old(self).msgs().drop_first() && final(self).is_closed() == old(
                self,
            ).is_closed(),
    {
        if self.queue.len() == 0 {
            None
        } else {
            let t = self.queue.remove(0);
            proof {
                assert(self.queue@ =~= old(self).msgs().drop_first());
            }
            Some(t)
        }
    }

    /// Closes the mailbox: later sends fail. The pending messages stay for
    /// whoever drains them (the dead-letter path on termination).
    pub fn close(&mut self)
        ensures
            final(self).is_closed(),
            final(self).msgs() == old(self).msgs(),
    {
        self.closed = true;
    }

    /// Removes and returns everything pending, oldest first.
    pub fn drain(&mut self) -> (r: Vec<T>)
        ensures
            r@ == old(self).msgs(),
            final(self).msgs() =~= Seq::<T>::empty(),
            final(self).is_closed() == old(self).is_closed(),
    {
        let mut out: Vec<T> = Vec::new();
        core::mem::swap(&mut out, &mut self.queue);
        out
    }
}

} // verus!
