//! The ordered, immutable list of backend addresses.
//!
//! A backend's identity is its address string (`host:port`); two backends are
//! the same exactly when the strings are equal. The list is fixed at startup
//! and must hold at least one address.

use vstd::prelude::*;

verus! {

/// Ordered list of backend addresses, immutable after construction.
pub struct BackendList {
    hosts: Vec<String>,
}

impl BackendList {
    /// The addresses, each as its sequence of characters, in list order.
    pub closed spec fn addrs(self) -> Seq<Seq<char>> {
        self.hosts@.map(|i: int, h: String| h@)
    }

    /// Number of backends, written `K` throughout: always at least 1.
    pub open spec fn k(self) -> nat {
        self.addrs().len()
    }

    pub open spec fn wf(self) -> bool {
        self.k() >= 1
    }

    /// Builds the list, rejecting an empty set of backends.
    pub fn new(hosts: Vec<String>) -> (r: Option<BackendList>)
        ensures
            hosts@.len() == 0 <==> r is None,
            r matches Some(l) ==> l.wf() && l.addrs() == hosts@.map(|i: int, h: String| h@),
    {
        if hosts.len() >= 1 {
            Some(BackendList { hosts })
        } else {
            None
        }
    }

    pub fn len(&self) -> (n: usize)
        ensures
            n == self.k(),
    {
        self.hosts.len()
    }

    /// The address at position `i`, as the caller's own copy.
    pub fn host_at(&self, i: usize) -> (r: String)
        requires
            i < self.k(),
        ensures
            r@ == self.addrs()[i as int],
    {
        self.hosts[i].clone()
    }
}

} // verus!
