use deeper_node::cache::{FeeHistoryCache, FeeHistoryItem, FilterPool};

fn item(n: u64) -> FeeHistoryItem {
    FeeHistoryItem { base_fee: n * 10, gas_used: n, gas_limit: 100 }
}

#[test]
fn full_cache_evicts_exactly_the_oldest() {
    let n: usize = 4;
    let mut cache = FeeHistoryCache::new(n);
    for number in 1..=(n as u64 + 1) {
        cache.insert(number, item(number));
    }
    assert_eq!(cache.len(), n);
    assert_eq!(cache.get(1), None);
    for number in 2..=(n as u64 + 1) {
        assert_eq!(cache.get(number), Some(item(number)));
    }
}

#[test]
fn cache_below_its_limit_keeps_everything() {
    let mut cache = FeeHistoryCache::new(3);
    cache.insert(10, item(1));
    cache.insert(11, item(2));
    assert_eq!(cache.len(), 2);
    assert_eq!(cache.get(10), Some(item(1)));
    assert_eq!(cache.get(11), Some(item(2)));
    assert_eq!(cache.get(12), None);
}

#[test]
fn sample_of_a_held_block_is_replaced() {
    let mut cache = FeeHistoryCache::new(2);
    cache.insert(1, item(1));
    cache.insert(2, item(2));
    cache.insert(1, item(9));
    assert_eq!(cache.len(), 2);
    assert_eq!(cache.get(1), Some(item(9)));
    assert_eq!(cache.get(2), Some(item(2)));
    cache.insert(3, item(3));
    assert_eq!(cache.get(1), None);
    assert_eq!(cache.get(2), Some(item(2)));
    assert_eq!(cache.get(3), Some(item(3)));
}

#[test]
fn cache_without_room_keeps_nothing() {
    let mut cache = FeeHistoryCache::new(0);
    cache.insert(1, item(1));
    assert_eq!(cache.len(), 0);
    assert_eq!(cache.get(1), None);
}

#[test]
fn cache_of_one_holds_the_latest() {
    let mut cache = FeeHistoryCache::new(1);
    cache.insert(1, item(1));
    cache.insert(2, item(2));
    assert_eq!(cache.len(), 1);
    assert_eq!(cache.get(1), None);
    assert_eq!(cache.get(2), Some(item(2)));
}

#[test]
fn filters_leave_once_the_window_is_exceeded() {
    let mut pool = FilterPool::new();
    assert!(pool.insert(1, 10));
    assert!(pool.insert(2, 50));
    assert!(!pool.insert(1, 60));
    assert_eq!(pool.len(), 2);
    pool.evict_expired(110, 100);
    assert!(pool.contains(1));
    assert!(pool.contains(2));
    pool.evict_expired(111, 100);
    assert!(!pool.contains(1));
    assert!(pool.contains(2));
    pool.evict_expired(150, 100);
    assert!(pool.contains(2));
    pool.evict_expired(151, 100);
    assert_eq!(pool.len(), 0);
    assert!(!pool.contains(2));
}

#[test]
fn filter_window_does_not_overflow() {
    let mut pool = FilterPool::new();
    assert!(pool.insert(1, u64::MAX));
    assert!(pool.insert(2, 0));
    pool.evict_expired(u64::MAX, u64::MAX);
    assert_eq!(pool.len(), 2);
    pool.evict_expired(u64::MAX, 5);
    assert!(pool.contains(1));
    assert!(!pool.contains(2));
}
