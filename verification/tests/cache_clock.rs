//! Cache behaviour against the real monotonic clock.

use std::time::{Duration, Instant};

use yori_core::cache::Cache;

/// Busy-waits until `d` has elapsed.
fn wait_for(d: Duration) {
    let start = Instant::now();
    while start.elapsed() < d {}
}

#[test]
fn test_cache_creation() {
    let cache = Cache::new(1000, 300);
    assert_eq!(cache.max_size(), 1000);
    assert_eq!(cache.default_ttl_secs(), 300);
    assert_eq!(cache.size(), 0);
}

#[test]
fn test_cache_creation_with_defaults() {
    let cache = Cache::new(10000, 3600);
    assert_eq!(cache.max_size(), 10000);
    assert_eq!(cache.default_ttl_secs(), 3600);
    assert_eq!(cache.size(), 0);
}

#[test]
fn test_cache_creation_small_capacity() {
    let cache = Cache::new(1, 1);
    assert_eq!(cache.max_size(), 1);
    assert_eq!(cache.default_ttl_secs(), 1);
    assert_eq!(cache.size(), 0);
}

#[test]
fn test_cache_creation_large_capacity() {
    let cache = Cache::new(1_000_000, 86400);
    assert_eq!(cache.max_size(), 1_000_000);
    assert_eq!(cache.default_ttl_secs(), 86400);
}

#[test]
fn test_cache_set() {
    let mut cache = Cache::new(100, 60);
    let key = "test_key".to_string();
    let result = cache.set(key, "test_value".to_string(), None);
    assert!(result.is_ok());
}

#[test]
fn test_cache_get_missing() {
    let mut cache = Cache::new(100, 60);
    let result = cache.get("missing_key");
    assert!(result.is_none());
}

#[test]
fn test_cache_delete() {
    let mut cache = Cache::new(100, 60);
    let key = "test_key".to_string();
    let result = cache.delete(&key);
    assert!(!result); // nothing was ever stored under the key
}

#[test]
fn test_cache_clear() {
    let mut cache = Cache::new(100, 60);
    cache.set("a".to_string(), "1".to_string(), None).unwrap();
    cache.clear();
    assert_eq!(cache.size(), 0);
}

#[test]
fn test_cache_contains_missing() {
    let cache = Cache::new(100, 60);
    assert!(!cache.contains("test_key"));
}

#[test]
fn test_cache_multiple_instances() {
    let cache1 = Cache::new(100, 60);
    let cache2 = Cache::new(200, 120);
    assert_eq!(cache1.max_size(), 100);
    assert_eq!(cache2.max_size(), 200);
    assert_eq!(cache1.default_ttl_secs(), 60);
    assert_eq!(cache2.default_ttl_secs(), 120);
}

#[test]
fn test_cache_ttl_conversion() {
    let cache = Cache::new(100, 3600);
    assert_eq!(cache.default_ttl_secs(), 3600);
}

#[test]
fn test_cache_zero_ttl() {
    let cache = Cache::new(100, 0);
    assert_eq!(cache.default_ttl_secs(), 0);
}

#[test]
fn test_wall_clock_round_trip() {
    let mut cache = Cache::new(100, 300);
    cache
        .set("key1".to_string(), "value1".to_string(), None)
        .unwrap();
    assert_eq!(cache.get("key1"), Some("value1".to_string()));
    assert_eq!(cache.get("key2"), None);
    assert!(cache.contains("key1"));
}

#[test]
fn test_wall_clock_expiration() {
    // default TTL 1 s; the entry is readable at once, gone after 1.1 s,
    // and the physical slot is reclaimed by the lazy removal in get
    let mut cache = Cache::new(100, 1);
    cache
        .set("key1".to_string(), "value1".to_string(), Some(1))
        .unwrap();
    assert_eq!(cache.get("key1"), Some("value1".to_string()));
    assert_eq!(cache.size(), 1);
    wait_for(Duration::from_millis(1100));
    assert_eq!(cache.get("key1"), None);
    assert_eq!(cache.size(), 0);
    assert_eq!(cache.cleanup_expired(), 0);
}
