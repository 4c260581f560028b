use finance_cache::cache::{BoundedExpiringCache, CacheError};

#[test]
fn test_get_never_set_returns_none() {
    let mut c: BoundedExpiringCache<u64> = BoundedExpiringCache::new(3, 100, 100);
    assert_eq!(None, c.get(&42, 0));
    assert_eq!(None, c.get(&42, 99));
}

#[test]
fn test_set_then_get_returns_exact_value() {
    let mut c: BoundedExpiringCache<u64> = BoundedExpiringCache::new(3, 100, 100);
    c.set(1, 7, 10);
    assert_eq!(Some(7), c.get(&1, 10));
    assert_eq!(Some(7), c.get(&1, 20));
}

#[test]
fn test_set_invalidate_then_get_is_empty() {
    let mut c: BoundedExpiringCache<u64> = BoundedExpiringCache::new(3, 100, 100);
    c.set(1, 7, 10);
    assert_eq!(Ok(()), c.invalidate(&1, 15));
    assert_eq!(None, c.get(&1, 16));
}

#[test]
fn test_invalidate_missing_key_names_it() {
    let mut c: BoundedExpiringCache<u64> = BoundedExpiringCache::new(3, 100, 100);
    assert_eq!(Err(CacheError::NotFound { key: 9 }), c.invalidate(&9, 0));
}

#[test]
fn test_invalidate_twice_not_found_both_times() {
    let mut c: BoundedExpiringCache<u64> = BoundedExpiringCache::new(3, 100, 100);
    c.set(5, 11, 0);
    assert_eq!(Ok(()), c.invalidate(&5, 1));
    assert_eq!(Err(CacheError::NotFound { key: 5 }), c.invalidate(&5, 2));
    assert_eq!(Err(CacheError::NotFound { key: 5 }), c.invalidate(&5, 3));
}

#[test]
fn test_fill_to_capacity_keeps_every_entry() {
    let mut c: BoundedExpiringCache<u64> = BoundedExpiringCache::new(3, 1000, 1000);
    c.set(1, 10, 1);
    c.set(2, 20, 2);
    c.set(3, 30, 3);
    assert_eq!(Some(10), c.get(&1, 4));
    assert_eq!(Some(20), c.get(&2, 4));
    assert_eq!(Some(30), c.get(&3, 4));
}

#[test]
fn test_capacity_overflow_evicts_least_recently_accessed() {
    let mut c: BoundedExpiringCache<u64> = BoundedExpiringCache::new(3, 1000, 1000);
    c.set(1, 10, 1);
    c.set(2, 20, 2);
    c.set(3, 30, 3);
    // a fourth distinct key overflows: key 1 has the oldest last access
    c.set(4, 40, 4);
    assert_eq!(None, c.get(&1, 5));
    assert_eq!(Some(20), c.get(&2, 5));
    assert_eq!(Some(30), c.get(&3, 5));
    assert_eq!(Some(40), c.get(&4, 5));
}

#[test]
fn test_get_refreshes_eviction_order() {
    let mut c: BoundedExpiringCache<u64> = BoundedExpiringCache::new(3, 1000, 1000);
    c.set(1, 10, 1);
    c.set(2, 20, 2);
    c.set(3, 30, 3);
    // reading key 1 makes key 2 the least recently accessed
    assert_eq!(Some(10), c.get(&1, 4));
    c.set(4, 40, 5);
    assert_eq!(Some(10), c.get(&1, 6));
    assert_eq!(None, c.get(&2, 6));
    assert_eq!(Some(30), c.get(&3, 6));
    assert_eq!(Some(40), c.get(&4, 6));
}

#[test]
fn test_ttl_expiry_beats_recent_access() {
    let mut c: BoundedExpiringCache<u64> = BoundedExpiringCache::new(3, 10, 100);
    c.set(1, 7, 0);
    // read at 5 refreshes the idle timer, but the time-to-live still ends at 10
    assert_eq!(Some(7), c.get(&1, 5));
    assert_eq!(None, c.get(&1, 10));
}

#[test]
fn test_tti_expiry_beats_recent_insertion() {
    let mut c: BoundedExpiringCache<u64> = BoundedExpiringCache::new(3, 100, 10);
    c.set(1, 7, 0);
    // idle from 0 to 10 kills the entry long before its time-to-live would
    assert_eq!(None, c.get(&1, 10));
}

#[test]
fn test_tti_window_slides_with_each_read() {
    let mut c: BoundedExpiringCache<u64> = BoundedExpiringCache::new(3, 100, 10);
    c.set(1, 7, 0);
    assert_eq!(Some(7), c.get(&1, 9));
    assert_eq!(Some(7), c.get(&1, 18));
    assert_eq!(None, c.get(&1, 30));
}

#[test]
fn test_dead_entry_reclaimed_before_live_one() {
    let mut c: BoundedExpiringCache<u64> = BoundedExpiringCache::new(2, 10, 10);
    c.set(1, 10, 0);
    c.set(2, 20, 5);
    // at 12 key 1 is dead, key 2 live; the new key reclaims the dead slot
    c.set(3, 30, 12);
    assert_eq!(Some(20), c.get(&2, 13));
    assert_eq!(Some(30), c.get(&3, 13));
    assert_eq!(None, c.get(&1, 13));
}

#[test]
fn test_overwrite_resets_both_timestamps() {
    let mut c: BoundedExpiringCache<u64> = BoundedExpiringCache::new(3, 10, 10);
    c.set(1, 5, 0);
    c.set(1, 6, 8);
    // the overwrite at 8 is a fresh entry: alive at 12, value replaced
    assert_eq!(Some(6), c.get(&1, 12));
}

#[test]
fn test_invalidate_dead_entry_reports_not_found() {
    let mut c: BoundedExpiringCache<u64> = BoundedExpiringCache::new(3, 10, 10);
    c.set(1, 5, 0);
    assert_eq!(Err(CacheError::NotFound { key: 1 }), c.invalidate(&1, 20));
    assert_eq!(None, c.get(&1, 21));
}

#[test]
fn test_expired_entry_purged_by_get() {
    let mut c: BoundedExpiringCache<u64> = BoundedExpiringCache::new(2, 10, 10);
    c.set(1, 10, 0);
    c.set(2, 20, 8);
    // the read at 15 finds key 1 dead and purges it, freeing its slot
    assert_eq!(None, c.get(&1, 15));
    c.set(3, 30, 15);
    assert_eq!(Some(20), c.get(&2, 15));
    assert_eq!(Some(30), c.get(&3, 15));
}
