//! Cache behaviour pinned down with explicit instants: every operation
//! takes `now` as an argument, so expiry and recency are exact.

use yori_core::cache::{Cache, CacheError};

const SEC: u64 = 1_000_000_000;

#[test]
fn test_basic_get_set() {
    let mut cache = Cache::new(100, 300);
    cache
        .set_at("key1".to_string(), "value1".to_string(), None, 0)
        .unwrap();
    assert_eq!(cache.get_at("key1", 1), Some("value1".to_string()));
    assert_eq!(cache.get_at("key2", 1), None);
}

#[test]
fn test_ttl_expiration() {
    let mut cache = Cache::new(100, 1);
    cache
        .set_at("key1".to_string(), "value1".to_string(), Some(1), 0)
        .unwrap();
    assert_eq!(cache.get_at("key1", SEC - 1), Some("value1".to_string()));
    // one second has elapsed: the entry is expired and lazily removed
    assert_eq!(cache.get_at("key1", SEC), None);
    assert_eq!(cache.size(), 0);
}

#[test]
fn test_lru_eviction() {
    let mut cache = Cache::new(3, 300);
    cache
        .set_at("key1".to_string(), "value1".to_string(), None, 1)
        .unwrap();
    cache
        .set_at("key2".to_string(), "value2".to_string(), None, 2)
        .unwrap();
    cache
        .set_at("key3".to_string(), "value3".to_string(), None, 3)
        .unwrap();

    // Cache is at capacity, adding one more evicts key1
    cache
        .set_at("key4".to_string(), "value4".to_string(), None, 4)
        .unwrap();

    assert_eq!(cache.get_at("key1", 5), None);
    assert_eq!(cache.get_at("key2", 5), Some("value2".to_string()));
    assert_eq!(cache.get_at("key3", 5), Some("value3".to_string()));
    assert_eq!(cache.get_at("key4", 5), Some("value4".to_string()));
}

#[test]
fn test_get_refreshes_recency() {
    // size 3; insert k1,k2,k3 a tick apart, refresh k2 by reading it,
    // then insert k4: k1 is evicted, k2/k3/k4 remain retrievable.
    let mut cache = Cache::new(3, 300);
    cache
        .set_at("k1".to_string(), "v1".to_string(), None, 1)
        .unwrap();
    cache
        .set_at("k2".to_string(), "v2".to_string(), None, 2)
        .unwrap();
    cache
        .set_at("k3".to_string(), "v3".to_string(), None, 3)
        .unwrap();
    assert_eq!(cache.get_at("k2", 4), Some("v2".to_string()));
    cache
        .set_at("k4".to_string(), "v4".to_string(), None, 5)
        .unwrap();
    assert_eq!(cache.get_at("k1", 6), None);
    assert_eq!(cache.get_at("k2", 6), Some("v2".to_string()));
    assert_eq!(cache.get_at("k3", 6), Some("v3".to_string()));
    assert_eq!(cache.get_at("k4", 6), Some("v4".to_string()));
}

#[test]
fn test_delete() {
    let mut cache = Cache::new(100, 300);
    cache
        .set_at("key1".to_string(), "value1".to_string(), None, 0)
        .unwrap();
    assert!(cache.delete("key1"));
    assert_eq!(cache.get_at("key1", 1), None);
    assert!(!cache.delete("key1")); // Second delete returns false
    assert!(!cache.delete("never_set"));
}

#[test]
fn test_clear() {
    let mut cache = Cache::new(100, 300);
    cache
        .set_at("key1".to_string(), "value1".to_string(), None, 0)
        .unwrap();
    cache
        .set_at("key2".to_string(), "value2".to_string(), None, 0)
        .unwrap();
    cache.clear();
    assert_eq!(cache.size(), 0);
    assert_eq!(cache.get_at("key1", 1), None);
    assert_eq!(cache.get_at("key2", 1), None);
}

#[test]
fn test_cleanup_expired_exact() {
    let mut cache = Cache::new(100, 1);
    cache
        .set_at("key1".to_string(), "value1".to_string(), Some(1), 0)
        .unwrap();
    cache
        .set_at("key2".to_string(), "value2".to_string(), Some(10), 0)
        .unwrap();

    // at 1.1 s only key1 has expired
    let removed = cache.cleanup_expired_at(SEC + SEC / 10);
    assert_eq!(removed, 1);
    assert_eq!(cache.size(), 1);
    assert_eq!(cache.get_at("key1", SEC + SEC / 10), None);
    assert_eq!(
        cache.get_at("key2", SEC + SEC / 10),
        Some("value2".to_string())
    );
    // nothing further to remove
    assert_eq!(cache.cleanup_expired_at(SEC + SEC / 10), 0);
}

#[test]
fn test_capacity_zero_fails_when_empty() {
    let mut cache = Cache::new(0, 300);
    let r = cache.set_at("k".to_string(), "v".to_string(), None, 0);
    assert_eq!(r, Err(CacheError::CapacityExceeded));
    assert_eq!(cache.size(), 0);
}

#[test]
fn test_overwrite_at_capacity_never_evicts() {
    let mut cache = Cache::new(2, 300);
    cache
        .set_at("a".to_string(), "1".to_string(), None, 1)
        .unwrap();
    cache
        .set_at("b".to_string(), "2".to_string(), None, 2)
        .unwrap();
    // overwriting "a" while full must not evict "b"
    cache
        .set_at("a".to_string(), "3".to_string(), None, 3)
        .unwrap();
    assert_eq!(cache.size(), 2);
    assert_eq!(cache.get_at("a", 4), Some("3".to_string()));
    assert_eq!(cache.get_at("b", 4), Some("2".to_string()));
}

#[test]
fn test_sweep_preferred_over_eviction() {
    let mut cache = Cache::new(2, 300);
    cache
        .set_at("short".to_string(), "1".to_string(), Some(1), 0)
        .unwrap();
    cache
        .set_at("long".to_string(), "2".to_string(), Some(100), 1)
        .unwrap();
    // at capacity, but "short" has expired by now: the sweep frees its
    // slot and the live "long" entry survives even though it is the
    // least recently used
    cache
        .set_at("new".to_string(), "3".to_string(), None, 2 * SEC)
        .unwrap();
    assert_eq!(cache.get_at("long", 2 * SEC + 1), Some("2".to_string()));
    assert_eq!(cache.get_at("new", 2 * SEC + 1), Some("3".to_string()));
    assert_eq!(cache.get_at("short", 2 * SEC + 1), None);
}

#[test]
fn test_ttl_override_beats_default() {
    let mut cache = Cache::new(100, 1);
    cache
        .set_at("k".to_string(), "v".to_string(), Some(60), 0)
        .unwrap();
    // default TTL is 1 s, the override 60 s: still live after 2 s
    assert_eq!(cache.get_at("k", 2 * SEC), Some("v".to_string()));
}

#[test]
fn test_huge_ttl_saturates() {
    let mut cache = Cache::new(100, 300);
    cache
        .set_at("k".to_string(), "v".to_string(), Some(u64::MAX), 5)
        .unwrap();
    // the expiry saturates: the entry never expires
    assert_eq!(cache.get_at("k", u64::MAX - 1), Some("v".to_string()));
}

#[test]
fn test_zero_ttl_expires_immediately() {
    let mut cache = Cache::new(100, 300);
    cache
        .set_at("k".to_string(), "v".to_string(), Some(0), 7)
        .unwrap();
    // an entry written with TTL 0 expires the instant it is written
    assert_eq!(cache.get_at("k", 7), None);
}

#[test]
fn test_contains_at() {
    let mut cache = Cache::new(100, 1);
    assert!(!cache.contains_at("k", 0));
    cache
        .set_at("k".to_string(), "v".to_string(), None, 0)
        .unwrap();
    assert!(cache.contains_at("k", SEC - 1));
    assert!(!cache.contains_at("k", SEC));
    // contains does not remove the expired entry
    assert_eq!(cache.size(), 1);
}

#[test]
fn test_interleaved_operations_stay_consistent() {
    // interleaved set/get/delete over overlapping keys: a get never
    // returns a value that was not written for that key, and after a
    // sweep the size is within the bound
    let mut cache = Cache::new(50, 300);
    let mut tick: u64 = 0;
    for round in 0..4u64 {
        for i in 0..60u64 {
            tick += 1;
            let key = format!("key_{}", i % 20);
            let value = format!("value_{}_{}", round, i);
            cache.set_at(key.clone(), value.clone(), None, tick).unwrap();
            tick += 1;
            assert_eq!(cache.get_at(&key, tick), Some(value));
            if i % 7 == 0 {
                cache.delete(&key);
                tick += 1;
                assert_eq!(cache.get_at(&key, tick), None);
            }
        }
    }
    tick += 1;
    cache.cleanup_expired_at(tick);
    assert!(cache.size() <= 50);
}
