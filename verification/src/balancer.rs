//! The dispatch engine assembled: backend list, round-robin counter, one
//! bounded queue per backend, and the connection pool.
//!
//! The acceptor calls `accept` once per accepted client; workers call the
//! `worker_*` operations as they drain their queues. Every operation says
//! exactly which part of the state it moves and that it leaves the rest
//! alone — in particular, nothing a worker does on one backend's behalf
//! touches another backend's queue or pooled connection.

use vstd::prelude::*;
use crate::backend::BackendList;
use crate::dispatch::{dest, RoundRobin};
use crate::pool::ConnectionPool;
use crate::queue::DispatchQueue;

verus! {

/// The whole dispatch state of the load balancer.
pub struct Balancer {
    backends: BackendList,
    rr: RoundRobin,
    queues: Vec<DispatchQueue>,
    pool: ConnectionPool,
    cap: usize,
}

impl Balancer {
    /// Number of backends.
    pub closed spec fn k(self) -> nat {
        self.backends.k()
    }

    /// The backend addresses, in list order.
    pub closed spec fn addrs(self) -> Seq<Seq<char>> {
        self.backends.addrs()
    }

    /// Connections accepted so far.
    pub closed spec fn accepted(self) -> nat {
        self.rr.served()
    }

    /// Capacity every dispatch queue was made with.
    pub closed spec fn cap(self) -> nat {
        self.cap as nat
    }

    /// Clients waiting for backend `b`, front first.
    pub closed spec fn queue_at(self, b: int) -> Seq<u64> {
        self.queues@[b]@
    }

    /// The pool: backend `b`'s idle connection, if any.
    pub closed spec fn pool_at(self, b: int) -> Option<u64> {
        self.pool@[b]
    }

    pub closed spec fn wf(self) -> bool {
        &&& self.backends.wf()
        &&& self.rr.wf()
        &&& self.rr.k() == self.k()
        &&& self.queues@.len() == self.k()
        &&& self.pool@.len() == self.k()
        &&& self.cap >= 1
        &&& forall|j: int|
            0 <= j < self.k() ==> (#[trigger] self.queues@[j]).wf() && self.queues@[j].cap()
                == self.cap
    }

    /// Builds the engine for a backend list and a queue capacity; an empty
    /// list is rejected. Everything starts empty: nothing accepted, no
    /// client queued, no connection pooled.
    pub fn new(hosts: Vec<String>, cap: usize) -> (r: Option<Balancer>)
        requires
            cap >= 1,
        ensures
            hosts@.len() == 0 <==> r is None,
            r matches Some(b) ==> {
                &&& b.wf()
                &&& b.k() == hosts@.len()
                &&& b.addrs() == hosts@.map(|i: int, h: String| h@)
                &&& b.accepted() == 0
                &&& b.cap() == cap
                &&& forall|j: int|
                    0 <= j < b.k() ==> b.queue_at(j) == Seq::<u64>::empty() && b.pool_at(j) is None
            },
    {
        let backends = match BackendList::new(hosts) {
            Some(l) => l,
            None => {
                return None;
            },
        };
        let k = backends.len();
        let rr = RoundRobin::new(k);
        let pool = ConnectionPool::new(k);
        let mut queues: Vec<DispatchQueue> = Vec::new();
        let mut i: usize = 0;
        while i < k
            invariant
                i <= k,
                cap >= 1,
                queues@.len() == i,
                forall|j: int|
                    0 <= j < i ==> (#[trigger] queues@[j]).wf() && queues@[j].cap() == cap
                        && queues@[j]@ == Seq::<u64>::empty(),
            decreases k - i,
        {
            queues.push(DispatchQueue::new(cap));
            i = i + 1;
        }
        Some(Balancer { backends, rr, queues, pool, cap })
    }

    pub fn backend_count(&self) -> (n: usize)
        ensures
            n == self.k(),
    {
        self.backends.len()
    }

    /// The address of backend `b`, as the caller's own copy.
    pub fn host_of(&self, b: usize) -> (r: String)
        requires
            b < self.k(),
        ensures
            r@ == self.addrs()[b as int],
    {
        self.backends.host_at(b)
    }

    /// One accepted client: picks the backend by round-robin — the `i`-th
    /// accepted connection goes to backend `i % K`, and the tally grows by
    /// one whatever becomes of the placement — then offers the client to
    /// that backend's queue. Returns the chosen backend and whether the
    /// client was admitted; a full queue admits nothing, and every other
    /// queue and the whole pool stay untouched.
    pub fn accept(&mut self, client: u64) -> (r: (usize, bool))
        requires
            old(self).wf(),
        ensures
            final(self).wf(),
            final(self).k() == old(self).k(),
            final(self).cap() == old(self).cap(),
            final(self).addrs() == old(self).addrs(),
            final(self).accepted() == old(self).accepted() + 1,
            r.0 < old(self).k(),
            r.0 as nat == dest(old(self).accepted(), old(self).k()),
            r.1 == (old(self).queue_at(r.0 as int).len() < old(self).cap()),
            r.1 ==> final(self).queue_at(r.0 as int) == old(self).queue_at(r.0 as int).push(
                client,
            ),
            !r.1 ==> final(self).queue_at(r.0 as int) == old(self).queue_at(r.0 as int),
            forall|j: int|
                0 <= j < old(self).k() && j != r.0 ==> final(self).queue_at(j) == old(
                    self,
                ).queue_at(j),
            forall|j: int|
                0 <= j < old(self).k() ==> final(self).pool_at(j) == old(self).pool_at(j),
    {
        let idx = self.rr.select();
        let mut q = self.queues.remove(idx);
        let admitted = q.try_enqueue(client);
        let ghost placed = q;
        self.queues.insert(idx, q);
        proof {
            assert(self.queues@ =~= old(self).queues@.update(idx as int, placed));
        }
        (idx, admitted)
    }

    /// The worker of backend `b` takes its next waiting client, in arrival
    /// order; an empty queue reports absence. Nothing else moves.
    pub fn worker_dequeue(&mut self, b: usize) -> (r: Option<u64>)
        requires
            old(self).wf(),
            b < old(self).k(),
        ensures
            final(self).wf(),
            final(self).k() == old(self).k(),
            final(self).cap() == old(self).cap(),
            final(self).addrs() == old(self).addrs(),
            final(self).accepted() == old(self).accepted(),
            old(self).queue_at(b as int).len() == 0 ==> r is None && final(self).queue_at(b as int)
                == old(self).queue_at(b as int),
            old(self).queue_at(b as int).len() > 0 ==> r == Some(old(self).queue_at(b as int)[0])
                && final(self).queue_at(b as int) == old(self).queue_at(b as int).drop_first(),
            forall|j: int|
                0 <= j < old(self).k() && j != b ==> final(self).queue_at(j) == old(self).queue_at(
                    j,
                ),
            forall|j: int|
                0 <= j < old(self).k() ==> final(self).pool_at(j) == old(self).pool_at(j),
    {
        let mut q = self.queues.remove(b);
        let r = q.dequeue();
        let ghost drained = q;
        self.queues.insert(b, q);
        proof {
            assert(self.queues@ =~= old(self).queues@.update(b as int, drained));
        }
        r
    }

    /// The worker of backend `b` asks the pool for an idle connection:
    /// removes and returns it, so no second caller can receive it again.
    pub fn worker_pool_get(&mut self, b: usize) -> (r: Option<u64>)
        requires
            old(self).wf(),
            b < old(self).k(),
        ensures
            final(self).wf(),
            final(self).k() == old(self).k(),
            final(self).cap() == old(self).cap(),
            final(self).addrs() == old(self).addrs(),
            final(self).accepted() == old(self).accepted(),
            r == old(self).pool_at(b as int),
            final(self).pool_at(b as int) is None,
            forall|j: int|
                0 <= j < old(self).k() && j != b ==> final(self).pool_at(j) == old(self).pool_at(
                    j,
                ),
            forall|j: int|
                0 <= j < old(self).k() ==> final(self).queue_at(j) == old(self).queue_at(j),
    {
        self.pool.get(b)
    }

    /// The worker of backend `b` caches an idle connection, receiving back
    /// the one it displaced, for closing.
    pub fn worker_pool_put(&mut self, b: usize, conn: u64) -> (displaced: Option<u64>)
        requires
            old(self).wf(),
            b < old(self).k(),
        ensures
            final(self).wf(),
            final(self).k() == old(self).k(),
            final(self).cap() == old(self).cap(),
            final(self).addrs() == old(self).addrs(),
            final(self).accepted() == old(self).accepted(),
            displaced == old(self).pool_at(b as int),
            final(self).pool_at(b as int) == Some(conn),
            forall|j: int|
                0 <= j < old(self).k() && j != b ==> final(self).pool_at(j) == old(self).pool_at(
                    j,
                ),
            forall|j: int|
                0 <= j < old(self).k() ==> final(self).queue_at(j) == old(self).queue_at(j),
    {
        self.pool.put(b, conn)
    }
}

} // verus!
