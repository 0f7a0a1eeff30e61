//! The host worker's decisions, one per dispatched client.
//!
//! A worker drains its backend's queue forever. For each client it first
//! asks the pool for an idle upstream connection; only on a miss does it
//! open a fresh one. A failed connect is contained to that one client — the
//! client is closed, a failure line is logged, and the worker goes on
//! draining — it never brings the worker down, and it leaves the pool, the
//! queues and the round-robin counter exactly as they were.

use vstd::prelude::*;
use crate::dispatch::dest;

verus! {

/// How the worker will obtain the upstream connection for one client.
#[derive(Clone, Copy, PartialEq, Eq, Structural, Debug)]
pub enum UpstreamPlan {
    /// Reuse the pooled idle connection with this token.
    UsePooled(u64),
    /// Nothing cached: open a fresh connection to the backend.
    ConnectFresh,
}

/// What becomes of one dispatched client.
#[derive(Clone, Copy, PartialEq, Eq, Structural, Debug)]
pub enum DispatchOutcome {
    /// Relay the client over the upstream connection with this token.
    Relay(u64),
    /// No upstream could be had: close the client, log, keep draining.
    Abandon,
}

/// The worker's whole decision for one client, given what the pool held and
/// what a fresh connect would yield (asked only on a pool miss).
pub open spec fn resolve_model(pooled: Option<u64>, fresh: Option<u64>) -> DispatchOutcome {
    match pooled {
        Some(conn) => DispatchOutcome::Relay(conn),
        None => match fresh {
            Some(conn) => DispatchOutcome::Relay(conn),
            None => DispatchOutcome::Abandon,
        },
    }
}

/// First step for a dispatched client: a pooled connection is always
/// preferred; only its absence sends the worker to connect afresh.
pub fn plan_upstream(pooled: Option<u64>) -> (p: UpstreamPlan)
    ensures
        (match pooled {
            Some(conn) => p == UpstreamPlan::UsePooled(conn),
            None => p == UpstreamPlan::ConnectFresh,
        }),
{
    match pooled {
        Some(conn) => UpstreamPlan::UsePooled(conn),
        None => UpstreamPlan::ConnectFresh,
    }
}

/// Second step, after a pool miss: a successful connect leads to a relay; a
/// failure abandons this one client and nothing else.
pub fn connect_outcome(fresh: Option<u64>) -> (o: DispatchOutcome)
    ensures
        o == resolve_model(None, fresh),
        fresh is None ==> o is Abandon,
        (match fresh {
            Some(conn) => o == DispatchOutcome::Relay(conn),
            None => o == DispatchOutcome::Abandon,
        }),
{
    match fresh {
        Some(conn) => DispatchOutcome::Relay(conn),
        None => DispatchOutcome::Abandon,
    }
}

/// The text logged when a connect fails and the client is abandoned.
pub open spec fn failure_line_text() -> Seq<char> {
    "Upstream connect failed"@
}

/// The log line recorded for an abandoned dispatch.
pub fn failure_line() -> (r: String)
    ensures
        r@ == failure_line_text(),
{
    "Upstream connect failed".to_owned()
}

/// The pool as the worker's reaction to an abandoned dispatch leaves it.
pub open spec fn abandon_pool(pool: Seq<Option<u64>>, b: int) -> Seq<Option<u64>> {
    pool
}

/// The accept tally as that reaction leaves it.
pub open spec fn abandon_tally(accepted: nat) -> nat {
    accepted
}

/// A connect failure is contained to its one client. Abandoning a dispatch
/// for backend `b` touches neither the pool nor the accept tally, so the
/// next connection is dispatched exactly where it would have gone anyway —
/// no backend's dispatch is disrupted — and once connectivity to `b` is
/// restored, any later dispatch to `b` whose connect succeeds ends in a
/// relay.
pub proof fn lemma_failure_isolated(pool: Seq<Option<u64>>, accepted: nat, k: nat, b: int)
    requires
        k >= 1,
        pool.len() == k,
        0 <= b < k,
    ensures
        abandon_pool(pool, b) == pool,
        abandon_tally(accepted) == accepted,
        dest(abandon_tally(accepted), k) == dest(accepted, k),
        forall|conn: u64|
            resolve_model(abandon_pool(pool, b)[b], Some(conn)) is Relay,
{
}

} // verus!
