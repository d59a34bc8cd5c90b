use proxynet::cache::copy_bytes;
use proxynet::cache::MemoryCache;
use proxynet::clock::NANOS_PER_SEC;

#[test]
fn new_cache_misses() {
    let mut cache = MemoryCache::new();
    assert_eq!(cache.len(), 0);
    assert_eq!(cache.get("cache:a.test:/", 0), None);
}

#[test]
fn entry_is_served_before_its_expiry() {
    let mut cache = MemoryCache::new();
    cache.set("k".to_string(), b"hi".to_vec(), 300, 1_000);
    assert_eq!(cache.get("k", 1_000), Some(b"hi".to_vec()));
    assert_eq!(cache.get("k", 1_000 + 299 * NANOS_PER_SEC), Some(b"hi".to_vec()));
    assert_eq!(cache.get("k", 1_000 + 300 * NANOS_PER_SEC - 1), Some(b"hi".to_vec()));
    assert_eq!(cache.len(), 1);
}

#[test]
fn entry_is_not_served_at_its_expiry() {
    let mut cache = MemoryCache::new();
    cache.set("k".to_string(), b"hi".to_vec(), 300, 1_000);
    assert_eq!(cache.get("k", 1_000 + 300 * NANOS_PER_SEC), None);
}

#[test]
fn expired_entry_is_removed_by_the_lookup_that_finds_it() {
    let mut cache = MemoryCache::new();
    cache.set("k".to_string(), b"hi".to_vec(), 1, 0);
    assert_eq!(cache.len(), 1);
    assert_eq!(cache.get("k", 2 * NANOS_PER_SEC), None);
    assert_eq!(cache.len(), 0);
    // Even a lookup at an earlier instant misses now: the entry is gone.
    assert_eq!(cache.get("k", 0), None);
}

#[test]
fn expired_entry_lingers_until_it_is_looked_up() {
    let mut cache = MemoryCache::new();
    cache.set("old".to_string(), b"a".to_vec(), 1, 0);
    cache.set("new".to_string(), b"b".to_vec(), 100, 0);
    assert_eq!(cache.get("new", 50 * NANOS_PER_SEC), Some(b"b".to_vec()));
    assert_eq!(cache.len(), 2);
}

#[test]
fn set_replaces_body_and_expiry() {
    let mut cache = MemoryCache::new();
    cache.set("k".to_string(), b"one".to_vec(), 10, 0);
    cache.set("k".to_string(), b"two".to_vec(), 1, 5 * NANOS_PER_SEC);
    assert_eq!(cache.len(), 1);
    assert_eq!(cache.get("k", 5 * NANOS_PER_SEC), Some(b"two".to_vec()));
    // The first write would have lived until 10 s; the second ends at 6 s.
    assert_eq!(cache.get("k", 6 * NANOS_PER_SEC), None);
}

#[test]
fn set_renews_an_expired_entry() {
    let mut cache = MemoryCache::new();
    cache.set("k".to_string(), b"one".to_vec(), 1, 0);
    cache.set("k".to_string(), b"two".to_vec(), 1, 10 * NANOS_PER_SEC);
    assert_eq!(cache.get("k", 10 * NANOS_PER_SEC + 1), Some(b"two".to_vec()));
}

#[test]
fn zero_ttl_is_never_served() {
    let mut cache = MemoryCache::new();
    cache.set("k".to_string(), b"hi".to_vec(), 0, 7);
    assert_eq!(cache.get("k", 7), None);
    assert_eq!(cache.len(), 0);
}

#[test]
fn largest_ttl_and_instant_do_not_overflow() {
    let mut cache = MemoryCache::new();
    cache.set("k".to_string(), b"hi".to_vec(), u64::MAX, u64::MAX);
    assert_eq!(cache.get("k", u64::MAX), Some(b"hi".to_vec()));
    cache.set("z".to_string(), b"hi".to_vec(), 0, u64::MAX);
    assert_eq!(cache.get("z", u64::MAX), None);
}

#[test]
fn empty_body_is_a_hit() {
    let mut cache = MemoryCache::new();
    cache.set("k".to_string(), Vec::new(), 1, 0);
    assert_eq!(cache.get("k", 0), Some(Vec::new()));
}

#[test]
fn keys_are_independent() {
    let mut cache = MemoryCache::new();
    cache.set("a".to_string(), b"1".to_vec(), 1, 0);
    cache.set("b".to_string(), b"2".to_vec(), 1, 0);
    assert_eq!(cache.get("a", 0), Some(b"1".to_vec()));
    assert_eq!(cache.get("b", 0), Some(b"2".to_vec()));
    assert_eq!(cache.get("c", 0), None);
}

#[test]
fn cache_key_without_query() {
    assert_eq!(MemoryCache::generate_cache_key("a.test", "/hello", None), "cache:a.test:/hello");
}

#[test]
fn cache_key_with_query() {
    assert_eq!(
        MemoryCache::generate_cache_key("a.test", "/hello", Some("x=1")),
        "cache:a.test:/hello?x=1"
    );
}

#[test]
fn cache_key_tells_an_empty_query_from_none() {
    let none = MemoryCache::generate_cache_key("a.test", "/", None);
    let empty = MemoryCache::generate_cache_key("a.test", "/", Some(""));
    assert_eq!(none, "cache:a.test:/");
    assert_eq!(empty, "cache:a.test:/?");
    assert_ne!(none, empty);
}

#[test]
fn cache_key_keeps_the_query_as_sent() {
    let ab = MemoryCache::generate_cache_key("a.test", "/", Some("a=1&b=2"));
    let ba = MemoryCache::generate_cache_key("a.test", "/", Some("b=2&a=1"));
    assert_ne!(ab, ba);
}

#[test]
fn cache_key_of_empty_parts() {
    assert_eq!(MemoryCache::generate_cache_key("", "", None), "cache::");
}

#[test]
fn copy_bytes_copies() {
    assert_eq!(copy_bytes(&vec![1, 2, 3]), vec![1, 2, 3]);
    assert_eq!(copy_bytes(&Vec::new()), Vec::<u8>::new());
}
