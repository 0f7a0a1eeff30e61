use load_balancer::balancer::Balancer;
use load_balancer::worker::{connect_outcome, failure_line, plan_upstream, DispatchOutcome, UpstreamPlan};

#[test]
fn pooled_connection_preferred_over_fresh_connect() {
    assert_eq!(plan_upstream(Some(9)), UpstreamPlan::UsePooled(9));
    assert_eq!(plan_upstream(None), UpstreamPlan::ConnectFresh);
}

#[test]
fn connect_success_leads_to_relay() {
    assert_eq!(connect_outcome(Some(3)), DispatchOutcome::Relay(3));
}

#[test]
fn connect_failure_abandons_only_this_client() {
    assert_eq!(connect_outcome(None), DispatchOutcome::Abandon);
    assert_eq!(failure_line(), "Upstream connect failed".to_string());
}

#[test]
fn failure_does_not_disrupt_later_dispatches() {
    // A connect failure to one backend neither prevents later dispatches
    // to that same backend from succeeding once connectivity returns, nor
    // disturbs dispatch to any other backend.
    let hosts = vec!["a:1".to_string(), "b:2".to_string()];
    let mut bal = Balancer::new(hosts, 100).unwrap();

    // First client goes to backend 0; its connect fails.
    assert_eq!(bal.accept(100), (0, true));
    assert_eq!(bal.worker_dequeue(0), Some(100));
    let pooled = bal.worker_pool_get(0);
    assert_eq!(pooled, None);
    assert_eq!(connect_outcome(None), DispatchOutcome::Abandon);

    // Dispatch to the other backend is untouched.
    assert_eq!(bal.accept(101), (1, true));
    assert_eq!(bal.worker_dequeue(1), Some(101));

    // Connectivity to backend 0 returns: the next dispatch there relays.
    assert_eq!(bal.accept(102), (0, true));
    assert_eq!(bal.worker_dequeue(0), Some(102));
    assert_eq!(bal.worker_pool_get(0), None);
    assert_eq!(connect_outcome(Some(55)), DispatchOutcome::Relay(55));
}

#[test]
fn worker_reuses_then_refills_pool() {
    let hosts = vec!["a:1".to_string()];
    let mut bal = Balancer::new(hosts, 10).unwrap();
    assert_eq!(bal.worker_pool_put(0, 77), None);
    assert_eq!(bal.accept(1), (0, true));
    assert_eq!(bal.worker_dequeue(0), Some(1));
    let pooled = bal.worker_pool_get(0);
    assert_eq!(pooled, Some(77));
    assert_eq!(plan_upstream(pooled), UpstreamPlan::UsePooled(77));
    // The pooled connection was removed as it was handed out.
    assert_eq!(bal.worker_pool_get(0), None);
}
