//! A backend's dispatch queue: a bounded FIFO of pending client connections.
//!
//! Each backend owns exactly one queue, drained by a single worker. Clients
//! are opaque numeric tokens. The queue's view lists the waiting tokens from
//! front (next to be served) to back; its length never exceeds the capacity
//! the queue was made with.

use vstd::prelude::*;

verus! {

/// Queue capacity used when none is configured.
pub const DEFAULT_QUEUE_CAPACITY: usize = 100;

/// Bounded FIFO of client tokens for one backend.
pub struct DispatchQueue {
    items: Vec<u64>,
    cap: usize,
}

impl View for DispatchQueue {
    type V = Seq<u64>;

    closed spec fn view(&self) -> Seq<u64> {
        self.items@
    }
}

impl DispatchQueue {
    /// Capacity the queue was made with.
    pub closed spec fn cap(self) -> nat {
        self.cap as nat
    }

    pub open spec fn wf(self) -> bool {
        &&& self.cap() >= 1
        &&& self@.len() <= self.cap()
    }

    pub fn new(cap: usize) -> (r: DispatchQueue)
        requires
            cap >= 1,
        ensures
            r.wf(),
            r.cap() == cap,
            r@ == Seq::<u64>::empty(),
    {
        DispatchQueue { items: Vec::new(), cap }
    }

    pub fn len(&self) -> (n: usize)
        ensures
            n == self@.len(),
    {
        self.items.len()
    }

    pub fn capacity(&self) -> (c: usize)
        ensures
            c == self.cap(),
    {
        self.cap
    }

    /// Appends `client` at the back if there is room; reports whether the
    /// client was admitted. A full queue admits nothing and is unchanged —
    /// the caller decides whether to wait or to shed the connection.
    pub fn try_enqueue(&mut self, client: u64) -> (admitted: bool)
        requires
            old(self).wf(),
        ensures
            final(self).wf(),
            final(self).cap() == old(self).cap(),
            admitted == (old(self)@.len() < old(self).cap()),
            admitted ==> final(self)@ == old(self)@.push(client),
            !admitted ==> final(self)@ == old(self)@,
    {
        if self.items.len() < self.cap {
            self.items.push(client);
            true
        } else {
            false
        }
    }

    /// Removes and returns the client at the front, in arrival order; an
    /// empty queue reports absence and is unchanged.
    pub fn dequeue(&mut self) -> (r: Option<u64>)
        requires
            old(self).wf(),
        ensures
            final(self).wf(),
            final(self).cap() == old(self).cap(),
            old(self)@.len() == 0 ==> r is None && final(self)@ == old(self)@,
            old(self)@.len() > 0 ==> r == Some(old(self)@[0]) && final(self)@ == old(self)@.drop_first(),
    {
        if self.items.len() == 0 {
            None
        } else {
            let front = self.items.remove(0);
            proof {
                assert(old(self)@.remove(0) =~= old(self)@.drop_first());
            }
            Some(front)
        }
    }
}

} // verus!
