use load_balancer::backend::BackendList;
use load_balancer::balancer::Balancer;
use load_balancer::logbook::LogBook;
use load_balancer::queue::DispatchQueue;

#[test]
fn empty_backend_list_is_rejected() {
    assert!(BackendList::new(Vec::new()).is_none());
    assert!(Balancer::new(Vec::new(), 100).is_none());
}

#[test]
fn backend_list_keeps_order() {
    let list = BackendList::new(vec![
        "one:1".to_string(),
        "two:2".to_string(),
        "three:3".to_string(),
    ])
    .unwrap();
    assert_eq!(list.len(), 3);
    assert_eq!(list.host_at(0), "one:1".to_string());
    assert_eq!(list.host_at(1), "two:2".to_string());
    assert_eq!(list.host_at(2), "three:3".to_string());
}

#[test]
fn queue_is_fifo_and_bounded() {
    let mut q = DispatchQueue::new(2);
    assert_eq!(q.capacity(), 2);
    assert_eq!(q.dequeue(), None);
    assert!(q.try_enqueue(1));
    assert!(q.try_enqueue(2));
    // Full: the third client is not admitted.
    assert!(!q.try_enqueue(3));
    assert_eq!(q.len(), 2);
    // Arrival order is preserved.
    assert_eq!(q.dequeue(), Some(1));
    assert!(q.try_enqueue(4));
    assert_eq!(q.dequeue(), Some(2));
    assert_eq!(q.dequeue(), Some(4));
    assert_eq!(q.dequeue(), None);
}

#[test]
fn log_book_appends_in_order() {
    let mut book = LogBook::new();
    assert_eq!(book.len(), 0);
    book.append("first".to_string());
    book.append("second".to_string());
    assert_eq!(book.len(), 2);
    assert_eq!(book.line_at(0), "first".to_string());
    assert_eq!(book.line_at(1), "second".to_string());
}

#[test]
fn single_backend_takes_every_client() {
    let mut bal = Balancer::new(vec!["only:9".to_string()], 100).unwrap();
    assert_eq!(bal.backend_count(), 1);
    for client in 0..5u64 {
        let (idx, admitted) = bal.accept(client);
        assert_eq!(idx, 0);
        assert!(admitted);
    }
    for client in 0..5u64 {
        assert_eq!(bal.worker_dequeue(0), Some(client));
    }
}
