//! The guarantees that hold across several cache operations, stated over the
//! transition predicates (`get_post`, `set_post`, `invalidate_post`) that the
//! operations' own contracts establish.

use vstd::prelude::*;
use crate::cache::{
    entry_live, evicts_no_later, fresh_entry, get_post, invalidate_post, set_post, CacheEntry,
    CacheError,
};

verus! {

/// A key that is absent is read as empty, and the read changes nothing.
pub proof fn lemma_get_never_set<V>(
    m: Map<u32, CacheEntry<V>>,
    ttl: u64,
    tti: u64,
    key: u32,
    now: u64,
    m2: Map<u32, CacheEntry<V>>,
    r: Option<V>,
)
    requires
        !m.dom().contains(key),
        get_post(m, ttl, tti, key, now, m2, r),
    ensures
        r is None,
        m2 == m,
{
}

/// A value set and then retrieved before either expiry window has elapsed is
/// returned exactly as set.
pub proof fn lemma_set_then_get<V>(
    m0: Map<u32, CacheEntry<V>>,
    ttl: u64,
    tti: u64,
    cap: usize,
    key: u32,
    value: V,
    now_set: u64,
    now_get: u64,
    m1: Map<u32, CacheEntry<V>>,
    m2: Map<u32, CacheEntry<V>>,
    r: Option<V>,
)
    requires
        set_post(m0, ttl, tti, cap, key, value, now_set, m1),
        now_get < now_set + ttl,
        now_get < now_set + tti,
        get_post(m1, ttl, tti, key, now_get, m2, r),
    ensures
        r == Some(value),
{
    assert(m1.dom().contains(key) && m1[key] == fresh_entry(value, now_set)) by {
        if !(m0.dom().contains(key) || m0.dom().len() < cap) {
            let victim = choose|victim: u32|
                #[trigger] m0.dom().contains(victim) && m1 == m0.remove(victim).insert(
                    key,
                    fresh_entry(value, now_set),
                );
        }
    }
}

/// Setting a key and invalidating it while still live succeeds, and a later
/// read finds nothing.
pub proof fn lemma_set_invalidate_get<V>(
    m0: Map<u32, CacheEntry<V>>,
    ttl: u64,
    tti: u64,
    cap: usize,
    key: u32,
    value: V,
    now_set: u64,
    now_inv: u64,
    now_get: u64,
    m1: Map<u32, CacheEntry<V>>,
    m2: Map<u32, CacheEntry<V>>,
    m3: Map<u32, CacheEntry<V>>,
    r_inv: Result<(), CacheError>,
    r_get: Option<V>,
)
    requires
        set_post(m0, ttl, tti, cap, key, value, now_set, m1),
        now_inv < now_set + ttl,
        now_inv < now_set + tti,
        invalidate_post(m1, ttl, tti, key, now_inv, m2, r_inv),
        get_post(m2, ttl, tti, key, now_get, m3, r_get),
    ensures
        r_inv == Ok::<(), CacheError>(()),
        r_get is None,
        m3 == m2,
{
    assert(m1.dom().contains(key) && m1[key] == fresh_entry(value, now_set)) by {
        if !(m0.dom().contains(key) || m0.dom().len() < cap) {
            let victim = choose|victim: u32|
                #[trigger] m0.dom().contains(victim) && m1 == m0.remove(victim).insert(
                    key,
                    fresh_entry(value, now_set),
                );
        }
    }
    assert(!m2.dom().contains(key));
}

/// Invalidating a key with no live entry fails with `NotFound`, naming the
/// key; and once a key has been invalidated, invalidating it again keeps
/// failing that way, however often it is retried.
pub proof fn lemma_invalidate_absent_twice<V>(
    m0: Map<u32, CacheEntry<V>>,
    ttl: u64,
    tti: u64,
    key: u32,
    now1: u64,
    now2: u64,
    now3: u64,
    m1: Map<u32, CacheEntry<V>>,
    m2: Map<u32, CacheEntry<V>>,
    m3: Map<u32, CacheEntry<V>>,
    r1: Result<(), CacheError>,
    r2: Result<(), CacheError>,
    r3: Result<(), CacheError>,
)
    requires
        invalidate_post(m0, ttl, tti, key, now1, m1, r1),
        invalidate_post(m1, ttl, tti, key, now2, m2, r2),
        invalidate_post(m2, ttl, tti, key, now3, m3, r3),
    ensures
        r2 == Err::<(), CacheError>((CacheError::NotFound { key })),
        r3 == Err::<(), CacheError>((CacheError::NotFound { key })),
{
    assert(!m1.dom().contains(key));
    assert(!m2.dom().contains(key));
}

/// Capacity law: a new key entering a full cache whose entries are all live
/// leaves exactly `cap` entries, the new key among them, and the one key that
/// left is least-recently-accessed among what was stored.
pub proof fn lemma_capacity_eviction<V>(
    m0: Map<u32, CacheEntry<V>>,
    ttl: u64,
    tti: u64,
    cap: usize,
    key: u32,
    value: V,
    now: u64,
    m1: Map<u32, CacheEntry<V>>,
)
    requires
        set_post(m0, ttl, tti, cap, key, value, now, m1),
        !m0.dom().contains(key),
        m0.dom().finite(),
        m0.dom().len() == cap,
        cap >= 1,
        forall|k: u32| #[trigger] m0.dom().contains(k) ==> entry_live(m0[k], ttl, tti, now),
    ensures
        m1.dom().finite(),
        m1.dom().len() == cap,
        m1.dom().contains(key),
        exists|victim: u32|
            #[trigger] m0.dom().contains(victim) && !m1.dom().contains(victim) && forall|k2: u32|
                #[trigger] m0.dom().contains(k2) ==> evicts_no_later(m0[victim], m0[k2]),
{
    let fresh = fresh_entry(value, now);
    let victim = choose|victim: u32|
        #[trigger] m0.dom().contains(victim) && m1 == m0.remove(victim).insert(key, fresh) && ((
        exists|d: u32| #[trigger] m0.dom().contains(d) && !entry_live(m0[d], ttl, tti, now))
            ==> !entry_live(m0[victim], ttl, tti, now)) && (entry_live(m0[victim], ttl, tti, now)
            ==> forall|k2: u32| #[trigger] m0.dom().contains(k2) ==> evicts_no_later(
            m0[victim],
            m0[k2],
        ));
    assert(entry_live(m0[victim], ttl, tti, now));
    assert(!m1.dom().contains(victim));
    assert(m1.dom() =~= m0.dom().remove(victim).insert(key));
}

/// Expiry law: an entry whose time-to-live has elapsed is unreachable through
/// `get` no matter how recently it was read, and likewise one whose
/// time-to-idle has elapsed no matter how recently it was inserted; the dead
/// entry is purged by the attempt.
pub proof fn lemma_expiry_unreachable<V>(
    m: Map<u32, CacheEntry<V>>,
    ttl: u64,
    tti: u64,
    key: u32,
    now: u64,
    m2: Map<u32, CacheEntry<V>>,
    r: Option<V>,
)
    requires
        m.dom().contains(key),
        now >= m[key].inserted_at + ttl || now >= m[key].last_accessed_at + tti,
        get_post(m, ttl, tti, key, now, m2, r),
    ensures
        r is None,
        !m2.dom().contains(key),
{
}

} // verus!
