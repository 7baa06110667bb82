use http_dispatch::pool::TransportPool;

#[test]
fn round_robin_in_insertion_order() {
    let mut pool = TransportPool::new(vec![10u32, 20, 30]);
    assert_eq!(pool.len(), 3);
    assert_eq!(pool.next(), Some(10));
    assert_eq!(pool.next(), Some(20));
    assert_eq!(pool.next(), Some(30));
    assert_eq!(pool.next(), Some(10));
}

#[test]
fn empty_pool_has_no_client() {
    let mut pool: TransportPool<u32> = TransportPool::new(vec![]);
    assert_eq!(pool.next(), None);
    assert_eq!(pool.next(), None);
}

#[test]
fn single_client_pool_repeats() {
    let mut pool = TransportPool::new(vec![7u8]);
    assert_eq!(pool.next(), Some(7));
    assert_eq!(pool.next(), Some(7));
}
