//! Round-robin backend selection.
//!
//! The acceptor owns one monotonically growing counter; the `i`-th accepted
//! connection (counting from 0) is dispatched to backend `i % K`. The
//! executable state keeps only the counter's residue, so it never overflows,
//! while a ghost tally of every accepted connection ties each selection to
//! its position in the accept order.

use vstd::prelude::*;
use vstd::arithmetic::div_mod::{lemma_add_mod_noop, lemma_mod_self_0, lemma_small_mod};

verus! {

/// Destination of the `i`-th accepted connection over `k` backends.
pub open spec fn dest(i: nat, k: nat) -> nat {
    i % k
}

/// Round-robin selector over a fixed number `k` of backends.
pub struct RoundRobin {
    k: usize,
    next: usize,
    served: Ghost<nat>,
}

impl RoundRobin {
    /// Number of backends the selector cycles over.
    pub closed spec fn k(self) -> nat {
        self.k as nat
    }

    /// How many connections have been accepted so far (ghost tally).
    pub closed spec fn served(self) -> nat {
        self.served@
    }

    pub closed spec fn wf(self) -> bool {
        &&& self.k >= 1
        &&& self.next < self.k
        &&& self.next as nat == dest(self.served@, self.k as nat)
    }

    pub fn new(k: usize) -> (r: RoundRobin)
        requires
            k >= 1,
        ensures
            r.wf(),
            r.k() == k,
            r.served() == 0,
    {
        proof {
            lemma_small_mod(0, k as nat);
        }
        RoundRobin { k, next: 0, served: Ghost(0nat) }
    }

    /// Picks the backend for the connection accepted now and advances the
    /// counter; the counter grows once per accepted connection, whatever
    /// becomes of the dispatch afterwards.
    pub fn select(&mut self) -> (idx: usize)
        requires
            old(self).wf(),
        ensures
            final(self).wf(),
            final(self).k() == old(self).k(),
            final(self).served() == old(self).served() + 1,
            idx as nat == dest(old(self).served(), old(self).k()),
            idx < old(self).k(),
    {
        let idx = self.next;
        proof {
            lemma_advance_residue(self.served@, self.k as nat);
            self.served@ = self.served@ + 1;
        }
        self.next = if self.next + 1 == self.k {
            0
        } else {
            self.next + 1
        };
        idx
    }
}

/// Advancing the tally by one moves the residue one step around the cycle.
proof fn lemma_advance_residue(s: nat, k: nat)
    requires
        k >= 1,
    ensures
        s % k + 1 == k ==> (s + 1) % k == 0,
        s % k + 1 < k ==> (s + 1) % k == s % k + 1,
{
    lemma_add_mod_noop(s as int, 1, k as int);
    if k == 1 {
        lemma_small_mod(0, k);
        lemma_mod_self_0(k as int);
    } else {
        lemma_small_mod(1, k);
        if s % k + 1 == k {
            lemma_mod_self_0(k as int);
        } else {
            lemma_small_mod((s % k + 1) as nat, k);
        }
    }
}

/// Round-robin is periodic: `k` accepts later, the same backend is chosen.
/// With the selection law `dest` this is what makes the rotation fair: every
/// window of `k` consecutive accepts hits each backend exactly once.
pub proof fn lemma_round_robin_period(i: nat, k: nat)
    requires
        k >= 1,
    ensures
        dest(i + k, k) == dest(i, k),
        dest(i, k) < k,
{
    lemma_add_mod_noop(i as int, k as int, k as int);
    lemma_mod_self_0(k as int);
    lemma_small_mod((i % k) as nat, k);
}

} // verus!
