use crawler::cache::DedupCache;

#[test]
fn cache_starts_empty() {
    let mut cache = DedupCache::new(4);
    assert_eq!(cache.len(), 0);
    assert!(!cache.contains("http://example.test/"));
}

#[test]
fn cache_holds_either_outcome() {
    let mut cache = DedupCache::new(4);
    cache.put("http://example.test/ok".to_string(), true);
    cache.put("http://example.test/bad".to_string(), false);
    assert!(cache.contains("http://example.test/ok"));
    assert!(cache.contains("http://example.test/bad"));
    assert!(!cache.contains("http://example.test/other"));
    assert_eq!(cache.len(), 2);
}

#[test]
fn cache_update_keeps_one_entry() {
    let mut cache = DedupCache::new(4);
    cache.put("k".to_string(), false);
    cache.put("k".to_string(), true);
    assert_eq!(cache.len(), 1);
    assert!(cache.contains("k"));
}

#[test]
fn eviction_bound_holds() {
    for capacity in [1usize, 2, 3, 8] {
        let mut cache = DedupCache::new(capacity);
        for i in 0..=capacity {
            cache.put(format!("http://example.test/{}", i), i % 2 == 0);
        }
        assert_eq!(cache.len(), capacity);
        assert!(!cache.contains("http://example.test/0"));
        for i in 1..=capacity {
            assert!(cache.contains(&format!("http://example.test/{}", i)));
        }
    }
}

#[test]
fn eviction_takes_the_least_recently_used() {
    let mut cache = DedupCache::new(2);
    cache.put("a".to_string(), true);
    cache.put("b".to_string(), true);
    assert!(cache.contains("a"));
    cache.put("c".to_string(), true);
    assert_eq!(cache.len(), 2);
    assert!(!cache.contains("b"));
    assert!(cache.contains("a"));
    assert!(cache.contains("c"));
}

#[test]
fn storing_again_counts_as_a_use() {
    let mut cache = DedupCache::new(2);
    cache.put("a".to_string(), true);
    cache.put("b".to_string(), true);
    cache.put("a".to_string(), false);
    cache.put("c".to_string(), true);
    assert!(!cache.contains("b"));
    assert!(cache.contains("a"));
}

#[test]
fn cache_without_room_holds_nothing() {
    let mut cache = DedupCache::new(0);
    cache.put("a".to_string(), true);
    assert_eq!(cache.len(), 0);
    assert!(!cache.contains("a"));
}
