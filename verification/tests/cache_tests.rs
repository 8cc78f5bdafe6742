use nyan_browser::cache::{BoundedCache, BrowserCache};

#[test]
fn zero_capacity_is_a_configuration_error() {
    assert!(BoundedCache::new(0).is_err());
    assert!(BoundedCache::new(1).is_ok());
    assert!(BrowserCache::new(0, 4).is_err());
    assert!(BrowserCache::new(4, 0).is_err());
    assert!(BrowserCache::new(4, 4).is_ok());
}

#[test]
fn get_after_put_returns_the_value() {
    let mut cache = BoundedCache::new(4).unwrap();
    cache.put("page".to_string(), vec![1, 2, 3]);
    assert_eq!(cache.get("page"), Some(vec![1, 2, 3]));
}

#[test]
fn miss_returns_nothing() {
    let mut cache = BoundedCache::new(4).unwrap();
    cache.put("page".to_string(), vec![1]);
    assert_eq!(cache.get("other"), None);
}

#[test]
fn overwrite_updates_value_without_growing() {
    let mut cache = BoundedCache::new(2).unwrap();
    cache.put("a".to_string(), vec![1]);
    cache.put("a".to_string(), vec![2]);
    assert_eq!(cache.len(), 1);
    assert_eq!(cache.get("a"), Some(vec![2]));
}

#[test]
fn eviction_drops_least_recently_used() {
    let mut cache = BoundedCache::new(2).unwrap();
    cache.put("a".to_string(), vec![1]);
    cache.put("b".to_string(), vec![2]);
    cache.put("c".to_string(), vec![3]);
    assert_eq!(cache.len(), 2);
    assert_eq!(cache.get("a"), None);
    assert_eq!(cache.get("b"), Some(vec![2]));
    assert_eq!(cache.get("c"), Some(vec![3]));
}

#[test]
fn distinct_puts_keep_the_most_recent_entries() {
    let mut cache = BoundedCache::new(3).unwrap();
    for (k, v) in [("1", 1u8), ("2", 2), ("3", 3), ("4", 4), ("5", 5)] {
        cache.put(k.to_string(), vec![v]);
    }
    assert_eq!(cache.len(), 3);
    assert_eq!(cache.get("1"), None);
    assert_eq!(cache.get("2"), None);
    assert_eq!(cache.get("3"), Some(vec![3]));
    assert_eq!(cache.get("4"), Some(vec![4]));
    assert_eq!(cache.get("5"), Some(vec![5]));
}

#[test]
fn get_promotes_recency() {
    let mut cache = BoundedCache::new(2).unwrap();
    cache.put("a".to_string(), vec![1]);
    cache.put("b".to_string(), vec![2]);
    // touch `a` so that `b` is now the least recently used entry
    assert_eq!(cache.get("a"), Some(vec![1]));
    cache.put("c".to_string(), vec![3]);
    assert_eq!(cache.get("b"), None);
    assert_eq!(cache.get("a"), Some(vec![1]));
    assert_eq!(cache.get("c"), Some(vec![3]));
}

#[test]
fn clear_empties_the_cache() {
    let mut cache = BoundedCache::new(2).unwrap();
    cache.put("a".to_string(), vec![1]);
    cache.put("b".to_string(), vec![2]);
    cache.clear();
    assert_eq!(cache.len(), 0);
    assert_eq!(cache.get("a"), None);
    assert_eq!(cache.get("b"), None);
    assert_eq!(cache.capacity(), 2);
}

#[test]
fn page_and_asset_tiers_are_independent() {
    let mut cache = BrowserCache::new(2, 2).unwrap();
    cache.store_page("u", vec![1]);
    cache.store_asset("u", vec![2]);
    assert_eq!(cache.get_page("u"), Some(vec![1]));
    assert_eq!(cache.get_asset("u"), Some(vec![2]));
    assert_eq!(cache.page_count(), 1);
    assert_eq!(cache.asset_count(), 1);
}

#[test]
fn clearing_both_tiers_makes_every_lookup_miss() {
    let mut cache = BrowserCache::new(2, 2).unwrap();
    cache.store_page("p", vec![1]);
    cache.store_asset("a", vec![2]);
    cache.clear_old_entries();
    assert_eq!(cache.get_page("p"), None);
    assert_eq!(cache.get_asset("a"), None);
    assert_eq!(cache.page_count(), 0);
    assert_eq!(cache.asset_count(), 0);
}

#[test]
fn batch_store_fills_the_page_tier_in_order() {
    let mut cache = BrowserCache::new(2, 2).unwrap();
    cache.batch_store(vec![
        ("a".to_string(), vec![1]),
        ("b".to_string(), vec![2]),
        ("c".to_string(), vec![3]),
    ]);
    assert_eq!(cache.page_count(), 2);
    assert_eq!(cache.get_page("a"), None);
    assert_eq!(cache.get_page("b"), Some(vec![2]));
    assert_eq!(cache.get_page("c"), Some(vec![3]));
    assert_eq!(cache.asset_count(), 0);
}

#[test]
fn cache_page_is_store_page() {
    let mut cache = BrowserCache::new(2, 2).unwrap();
    cache.cache_page("u".to_string(), vec![9]);
    assert_eq!(cache.get_page("u"), Some(vec![9]));
}
