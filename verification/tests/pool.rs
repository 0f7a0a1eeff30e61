use load_balancer::pool::ConnectionPool;

#[test]
fn pooled_connection_handed_out_once() {
    // A connection put for backend B is returned by exactly one get(B);
    // a second get(B) without an intervening put reports absence.
    let mut pool = ConnectionPool::new(3);
    assert_eq!(pool.put(1, 42), None);
    assert_eq!(pool.get(1), Some(42));
    assert_eq!(pool.get(1), None);
}

#[test]
fn pool_miss_on_other_backend() {
    let mut pool = ConnectionPool::new(2);
    assert_eq!(pool.put(0, 7), None);
    assert_eq!(pool.get(1), None);
    assert_eq!(pool.get(0), Some(7));
}

#[test]
fn put_displaces_previous_idle_connection() {
    // At most one idle connection per backend: a second put hands back the
    // displaced one so the caller can close it.
    let mut pool = ConnectionPool::new(1);
    assert_eq!(pool.put(0, 5), None);
    assert_eq!(pool.put(0, 6), Some(5));
    assert_eq!(pool.get(0), Some(6));
    assert_eq!(pool.get(0), None);
}

#[test]
fn empty_pool_reports_absence_everywhere() {
    let mut pool = ConnectionPool::new(4);
    assert_eq!(pool.len(), 4);
    for b in 0..4 {
        assert_eq!(pool.get(b), None);
    }
}
