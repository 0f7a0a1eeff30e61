//! The connection pool: at most one idle upstream connection per backend.
//!
//! A pooled connection is an opaque numeric token; the surrounding process
//! maps tokens to live sockets. Slot `b` of the pool belongs to backend `b`
//! of the list. `get` removes what it returns, so no two callers can ever
//! receive the same pooled connection; `put` stores a connection and hands
//! back whatever it displaced, for the caller to close.

use vstd::prelude::*;

verus! {

/// One optional idle connection token per backend index.
pub struct ConnectionPool {
    slots: Vec<Option<u64>>,
}

/// Pool state after `put(b, conn)`.
pub open spec fn put_model(p: Seq<Option<u64>>, b: int, conn: u64) -> Seq<Option<u64>> {
    p.update(b, Some(conn))
}

/// What `get(b)` returns, and the pool state it leaves behind.
pub open spec fn get_model(p: Seq<Option<u64>>, b: int) -> (Option<u64>, Seq<Option<u64>>) {
    (p[b], p.update(b, None))
}

impl View for ConnectionPool {
    type V = Seq<Option<u64>>;

    closed spec fn view(&self) -> Seq<Option<u64>> {
        self.slots@
    }
}

impl ConnectionPool {
    /// An empty pool with one slot per backend.
    pub fn new(k: usize) -> (r: ConnectionPool)
        ensures
            r@.len() == k,
            forall|j: int| 0 <= j < k ==> r@[j] is None,
    {
        let mut slots: Vec<Option<u64>> = Vec::new();
        let mut i: usize = 0;
        while i < k
            invariant
                i <= k,
                slots@.len() == i,
                forall|j: int| 0 <= j < i ==> slots@[j] is None,
            decreases k - i,
        {
            slots.push(None);
            i = i + 1;
        }
        ConnectionPool { slots }
    }

    pub fn len(&self) -> (n: usize)
        ensures
            n == self@.len(),
    {
        self.slots.len()
    }

    /// Removes and returns backend `b`'s idle connection, if one is cached;
    /// a miss leaves the pool as it was (the slot was already empty).
    pub fn get(&mut self, b: usize) -> (r: Option<u64>)
        requires
            b < old(self)@.len(),
        ensures
            (r, final(self)@) == get_model(old(self)@, b as int),
            r == old(self)@[b as int],
            final(self)@[b as int] is None,
            final(self)@.len() == old(self)@.len(),
            forall|j: int| 0 <= j < old(self)@.len() && j != b ==> final(self)@[j] == old(self)@[j],
    {
        let r = self.slots[b];
        self.slots.set(b, None);
        r
    }

    /// Caches `conn` as backend `b`'s idle connection, returning the
    /// connection it displaced so the caller can close it.
    pub fn put(&mut self, b: usize, conn: u64) -> (displaced: Option<u64>)
        requires
            b < old(self)@.len(),
        ensures
            final(self)@ == put_model(old(self)@, b as int, conn),
            displaced == old(self)@[b as int],
            final(self)@[b as int] == Some(conn),
            final(self)@.len() == old(self)@.len(),
            forall|j: int| 0 <= j < old(self)@.len() && j != b ==> final(self)@[j] == old(self)@[j],
    {
        let displaced = self.slots[b];
        self.slots.set(b, Some(conn));
        displaced
    }
}

/// A connection put for backend `b` is handed out by exactly one later
/// `get(b)`: the first such `get` returns it and empties the slot, so a
/// second `get(b)` without an intervening `put` reports absence — the same
/// connection is never handed out twice. Slots of other backends are
/// untouched throughout.
pub proof fn lemma_single_handout(p: Seq<Option<u64>>, b: int, conn: u64)
    requires
        0 <= b < p.len(),
    ensures
        get_model(put_model(p, b, conn), b).0 == Some(conn),
        get_model(get_model(put_model(p, b, conn), b).1, b).0 is None,
        forall|j: int|
            0 <= j < p.len() && j != b ==> get_model(get_model(put_model(p, b, conn), b).1, j).0
                == p[j],
{
}

} // verus!
