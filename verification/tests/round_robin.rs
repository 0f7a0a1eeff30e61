use load_balancer::balancer::Balancer;
use load_balancer::dispatch::RoundRobin;

#[test]
fn rotation_over_three_backends() {
    // The i-th accepted connection goes to backend i mod K.
    let mut rr = RoundRobin::new(3);
    let picks: Vec<usize> = (0..7).map(|_| rr.select()).collect();
    assert_eq!(picks, vec![0, 1, 2, 0, 1, 2, 0]);
}

#[test]
fn rotation_single_backend() {
    let mut rr = RoundRobin::new(1);
    for _ in 0..5 {
        assert_eq!(rr.select(), 0);
    }
}

#[test]
fn four_clients_over_two_backends() {
    // Backend list ["127.0.0.1:9001", "127.0.0.1:9002"]; four accepted
    // clients in sequence are routed 9001, 9002, 9001, 9002.
    let hosts = vec!["127.0.0.1:9001".to_string(), "127.0.0.1:9002".to_string()];
    let mut bal = Balancer::new(hosts, 100).unwrap();
    let mut routed: Vec<String> = Vec::new();
    for client in 0..4u64 {
        let (idx, admitted) = bal.accept(client);
        assert!(admitted);
        routed.push(bal.host_of(idx));
    }
    assert_eq!(
        routed,
        vec![
            "127.0.0.1:9001".to_string(),
            "127.0.0.1:9002".to_string(),
            "127.0.0.1:9001".to_string(),
            "127.0.0.1:9002".to_string(),
        ]
    );
    // Each worker then receives its own clients, in accept order.
    assert_eq!(bal.worker_dequeue(0), Some(0));
    assert_eq!(bal.worker_dequeue(0), Some(2));
    assert_eq!(bal.worker_dequeue(0), None);
    assert_eq!(bal.worker_dequeue(1), Some(1));
    assert_eq!(bal.worker_dequeue(1), Some(3));
    assert_eq!(bal.worker_dequeue(1), None);
}

#[test]
fn counter_grows_even_when_queue_is_full() {
    // The round-robin counter advances once per accepted connection
    // regardless of dispatch success: with capacity 1 the second client
    // for backend 0 is refused, yet rotation continues unchanged.
    let hosts = vec!["a:1".to_string(), "b:2".to_string()];
    let mut bal = Balancer::new(hosts, 1).unwrap();
    assert_eq!(bal.accept(10), (0, true));
    assert_eq!(bal.accept(11), (1, true));
    assert_eq!(bal.accept(12), (0, false));
    assert_eq!(bal.accept(13), (1, false));
    assert_eq!(bal.accept(14), (0, false));
    // Backend 0's queue still holds only the first client.
    assert_eq!(bal.worker_dequeue(0), Some(10));
    assert_eq!(bal.worker_dequeue(0), None);
}
