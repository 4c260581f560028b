//! A bounded key-value cache with dual expiry: every entry dies once its
//! time-to-live (measured from insertion) or its time-to-idle (measured from
//! the last read) has elapsed, and inserting a fresh key into a full cache
//! evicts the least-recently-accessed entry. Expired entries are purged
//! lazily, at the access that finds them dead.
//!
//! Every operation takes the cache by exclusive reference, so Rust's aliasing
//! rules exclude data races; callers that share one cache across execution
//! contexts guard it with a lock, and each operation is then a single atomic
//! step of the per-key history.

use vstd::prelude::*;

verus! {

/// Largest timestamp (in milliseconds) an operation accepts; keeping
/// timestamps and expiry windows below this bound keeps every expiry sum
/// within `u64`.
pub const MAX_TIME: u64 = 0x7fff_ffff_ffff_ffff;

/// A cached value with the two timestamps that drive expiry. Both are set to
/// the insertion instant by `set`; `last_accessed_at` is refreshed by every
/// successful `get`.
#[derive(Clone, Copy)]
pub struct CacheEntry<V> {
    pub value: V,
    pub inserted_at: u64,
    pub last_accessed_at: u64,
}

/// The only failure the cache reports: `invalidate` was asked to remove a key
/// that has no live entry.
#[derive(Debug, PartialEq, Eq)]
pub enum CacheError {
    NotFound { key: u32 },
}

/// An entry is live at `now` exactly when neither bound has elapsed: less
/// than `ttl` has passed since insertion and less than `tti` since the last
/// access.
pub open spec fn entry_live<V>(e: CacheEntry<V>, ttl: u64, tti: u64, now: u64) -> bool {
    now < e.inserted_at + ttl && now < e.last_accessed_at + tti
}

/// Eviction order: `a` is evicted no later than `b` when its last access is
/// older, with ties broken by the older insertion.
pub open spec fn evicts_no_later<V>(a: CacheEntry<V>, b: CacheEntry<V>) -> bool {
    a.last_accessed_at < b.last_accessed_at
        || (a.last_accessed_at == b.last_accessed_at && a.inserted_at <= b.inserted_at)
}

/// The entry `set(key, value)` writes at instant `now`.
pub open spec fn fresh_entry<V>(value: V, now: u64) -> CacheEntry<V> {
    CacheEntry { value, inserted_at: now, last_accessed_at: now }
}

/// How one `get(key)` at instant `now` turns the contents `m` into `m2` and
/// returns `r`: a live entry is returned and its idle timer refreshed, a dead
/// entry is purged and reported absent, a missing key changes nothing.
pub open spec fn get_post<V>(
    m: Map<u32, CacheEntry<V>>,
    ttl: u64,
    tti: u64,
    key: u32,
    now: u64,
    m2: Map<u32, CacheEntry<V>>,
    r: Option<V>,
) -> bool {
    if !m.dom().contains(key) {
        r is None && m2 == m
    } else if entry_live(m[key], ttl, tti, now) {
        r == Some(m[key].value) && m2 == m.insert(
            key,
            (CacheEntry {
                value: m[key].value,
                inserted_at: m[key].inserted_at,
                last_accessed_at: now,
            }),
        )
    } else {
        r is None && m2 == m.remove(key)
    }
}

/// How one `set(key, value)` at instant `now` turns the contents `m` into
/// `m2`: an existing key is overwritten as a fresh entry; a new key is
/// inserted, evicting one victim when the cache is full. A dead entry is
/// reclaimed in preference to any live one; a live victim is one whose last
/// access is oldest (ties broken by oldest insertion).
pub open spec fn set_post<V>(
    m: Map<u32, CacheEntry<V>>,
    ttl: u64,
    tti: u64,
    cap: usize,
    key: u32,
    value: V,
    now: u64,
    m2: Map<u32, CacheEntry<V>>,
) -> bool {
    if m.dom().contains(key) || m.dom().len() < cap {
        m2 == m.insert(key, fresh_entry(value, now))
    } else {
        exists|victim: u32|
            #[trigger] m.dom().contains(victim) && m2 == m.remove(victim).insert(
                key,
                fresh_entry(value, now),
            ) && ((exists|d: u32| #[trigger] m.dom().contains(d) && !entry_live(m[d], ttl, tti, now))
                ==> !entry_live(m[victim], ttl, tti, now)) && (entry_live(m[victim], ttl, tti, now)
                ==> forall|k2: u32| #[trigger]
                    m.dom().contains(k2) ==> evicts_no_later(m[victim], m[k2]))
    }
}

/// How one `invalidate(key)` at instant `now` turns the contents `m` into
/// `m2` and returns `r`: a live entry is removed with success; a key with no
/// live entry yields `NotFound` naming that key, purging the entry if a dead
/// one was still present.
pub open spec fn invalidate_post<V>(
    m: Map<u32, CacheEntry<V>>,
    ttl: u64,
    tti: u64,
    key: u32,
    now: u64,
    m2: Map<u32, CacheEntry<V>>,
    r: Result<(), CacheError>,
) -> bool {
    if !m.dom().contains(key) {
        r == Err::<(), CacheError>((CacheError::NotFound { key })) && m2 == m
    } else if entry_live(m[key], ttl, tti, now) {
        r == Ok::<(), CacheError>(()) && m2 == m.remove(key)
    } else {
        r == Err::<(), CacheError>((CacheError::NotFound { key })) && m2 == m.remove(key)
    }
}

/// Whether some slot of `s` holds `key`.
spec fn has_key<V>(s: Seq<(u32, CacheEntry<V>)>, key: u32) -> bool {
    exists|i: int| 0 <= i < s.len() && (#[trigger] s[i]).0 == key
}

/// No key occupies two slots.
spec fn keys_distinct<V>(s: Seq<(u32, CacheEntry<V>)>) -> bool {
    forall|i: int, j: int| 0 <= i < j < s.len() ==> (#[trigger] s[i]).0 != (#[trigger] s[j]).0
}

/// The mapping a slot sequence denotes; later slots win, though with distinct
/// keys every slot is authoritative.
spec fn map_of<V>(s: Seq<(u32, CacheEntry<V>)>) -> Map<u32, CacheEntry<V>>
    decreases s.len(),
{
    if s.len() == 0 {
        Map::empty()
    } else {
        map_of(s.drop_last()).insert(s.last().0, s.last().1)
    }
}

proof fn lemma_map_of_contains<V>(s: Seq<(u32, CacheEntry<V>)>, k: u32)
    ensures
        map_of(s).dom().contains(k) <==> has_key(s, k),
    decreases s.len(),
{
    if s.len() > 0 {
        lemma_map_of_contains(s.drop_last(), k);
        if s.last().0 == k {
            assert(s[s.len() - 1].0 == k);
        } else {
            if has_key(s, k) {
                let i = choose|i: int| 0 <= i < s.len() && (#[trigger] s[i]).0 == k;
                assert(s.drop_last()[i] == s[i]);
            }
        }
    }
}

proof fn lemma_map_of_index<V>(s: Seq<(u32, CacheEntry<V>)>, i: int)
    requires
        keys_distinct(s),
        0 <= i < s.len(),
    ensures
        map_of(s).dom().contains(s[i].0),
        map_of(s)[s[i].0] == s[i].1,
    decreases s.len(),
{
    if i < s.len() - 1 {
        lemma_map_of_index(s.drop_last(), i);
        assert(s.drop_last()[i] == s[i]);
    }
}

proof fn lemma_map_of_len<V>(s: Seq<(u32, CacheEntry<V>)>)
    requires
        keys_distinct(s),
    ensures
        map_of(s).dom().finite(),
        map_of(s).dom().len() == s.len(),
    decreases s.len(),
{
    if s.len() > 0 {
        lemma_map_of_len(s.drop_last());
        lemma_map_of_contains(s.drop_last(), s.last().0);
        assert(!has_key(s.drop_last(), s.last().0)) by {
            assert forall|i: int| 0 <= i < s.len() - 1 implies (#[trigger] s.drop_last()[i]).0
                != s.last().0 by {
                assert(s.drop_last()[i] == s[i]);
                assert(s[i].0 != s[s.len() - 1].0);
            }
        }
    }
}

proof fn lemma_map_of_remove<V>(s: Seq<(u32, CacheEntry<V>)>, i: int)
    requires
        keys_distinct(s),
        0 <= i < s.len(),
    ensures
        map_of(s.remove(i)) == map_of(s).remove(s[i].0),
    decreases s.len(),
{
    let k = s[i].0;
    if i == s.len() - 1 {
        assert(s.remove(i) =~= s.drop_last());
        lemma_map_of_contains(s.drop_last(), k);
        assert(!has_key(s.drop_last(), k)) by {
            assert forall|j: int| 0 <= j < s.len() - 1 implies (#[trigger] s.drop_last()[j]).0
                != k by {
                assert(s.drop_last()[j] == s[j]);
            }
        }
        assert(map_of(s.drop_last()).insert(k, s.last().1).remove(k) =~= map_of(s.drop_last()));
    } else {
        lemma_map_of_remove(s.drop_last(), i);
        assert(s.remove(i).drop_last() =~= s.drop_last().remove(i));
        assert(s.remove(i).last() == s.last());
        assert(s.remove(i).len() > 0);
        assert(k != s.last().0);
        assert(map_of(s.drop_last()).remove(k).insert(s.last().0, s.last().1) =~= map_of(
            s.drop_last(),
        ).insert(s.last().0, s.last().1).remove(k));
    }
}

proof fn lemma_map_of_update<V>(s: Seq<(u32, CacheEntry<V>)>, i: int, p: (u32, CacheEntry<V>))
    requires
        keys_distinct(s),
        0 <= i < s.len(),
        p.0 == s[i].0,
    ensures
        map_of(s.update(i, p)) == map_of(s).insert(p.0, p.1),
    decreases s.len(),
{
    if i == s.len() - 1 {
        assert(s.update(i, p).drop_last() =~= s.drop_last());
        assert(s.update(i, p).last() == p);
        assert(map_of(s.drop_last()).insert(s.last().0, s.last().1).insert(p.0, p.1) =~= map_of(
            s.drop_last(),
        ).insert(p.0, p.1));
    } else {
        lemma_map_of_update(s.drop_last(), i, p);
        assert(s.update(i, p).drop_last() =~= s.drop_last().update(i, p));
        assert(s.update(i, p).last() == s.last());
        assert(p.0 != s.last().0);
        assert(map_of(s.drop_last()).insert(p.0, p.1).insert(s.last().0, s.last().1) =~= map_of(
            s.drop_last(),
        ).insert(s.last().0, s.last().1).insert(p.0, p.1));
    }
}

proof fn lemma_map_of_push<V>(s: Seq<(u32, CacheEntry<V>)>, p: (u32, CacheEntry<V>))
    ensures
        map_of(s.push(p)) == map_of(s).insert(p.0, p.1),
{
    assert(s.push(p).drop_last() =~= s);
    assert(s.push(p).last() == p);
}

/// The cache proper: at most `max_capacity` slots, keyed by `u32`, each entry
/// expiring `time_to_live` after insertion or `time_to_idle` after its last
/// read, whichever comes first. Operations take the current instant `now`
/// explicitly, so that expiry is a function of the arguments alone.
pub struct BoundedExpiringCache<V> {
    entries: Vec<(u32, CacheEntry<V>)>,
    max_capacity: usize,
    time_to_live: u64,
    time_to_idle: u64,
}

impl<V> View for BoundedExpiringCache<V> {
    type V = Map<u32, CacheEntry<V>>;

    closed spec fn view(&self) -> Map<u32, CacheEntry<V>> {
        map_of(self.entries@)
    }
}

impl<V: Copy> BoundedExpiringCache<V> {
    pub closed spec fn spec_max_capacity(&self) -> usize {
        self.max_capacity
    }

    pub closed spec fn spec_time_to_live(&self) -> u64 {
        self.time_to_live
    }

    pub closed spec fn spec_time_to_idle(&self) -> u64 {
        self.time_to_idle
    }

    /// Well-formedness: the configuration is in range, no key is stored
    /// twice, the slots never outnumber the capacity, and every stored
    /// timestamp is within `MAX_TIME`.
    pub closed spec fn wf(&self) -> bool {
        &&& keys_distinct(self.entries@)
        &&& self.entries@.len() <= self.max_capacity
        &&& 1 <= self.max_capacity
        &&& 1 <= self.time_to_live <= MAX_TIME
        &&& 1 <= self.time_to_idle <= MAX_TIME
        &&& forall|i: int|
            0 <= i < self.entries@.len() ==> (#[trigger] self.entries@[i]).1.inserted_at <= MAX_TIME
                && self.entries@[i].1.last_accessed_at <= MAX_TIME
    }

    /// A well-formed cache holds finitely many entries, never more than its
    /// capacity.
    pub proof fn lemma_bounded(&self)
        requires
            self.wf(),
        ensures
            self@.dom().finite(),
            self@.dom().len() <= self.spec_max_capacity(),
    {
        lemma_map_of_len(self.entries@);
    }

    /// A fresh cache is empty and keeps the given configuration.
    pub fn new(max_capacity: usize, time_to_live: u64, time_to_idle: u64) -> (r: Self)
        requires
            1 <= max_capacity,
            1 <= time_to_live <= MAX_TIME,
            1 <= time_to_idle <= MAX_TIME,
        ensures
            r.wf(),
            r@ == Map::<u32, CacheEntry<V>>::empty(),
            r.spec_max_capacity() == max_capacity,
            r.spec_time_to_live() == time_to_live,
            r.spec_time_to_idle() == time_to_idle,
    {
        let r = BoundedExpiringCache { entries: Vec::new(), max_capacity, time_to_live, time_to_idle };
        proof {
            assert(r.entries@.len() == 0);
        }
        r
    }

    fn find_index(&self, key: u32) -> (r: Option<usize>)
        ensures
            match r {
                Some(i) => i < self.entries@.len() && self.entries@[i as int].0 == key,
                None => !has_key(self.entries@, key),
            },
    {
        let n = self.entries.len();
        let mut i: usize = 0;
        while i < n
            invariant
                n == self.entries@.len(),
                i <= n,
                forall|j: int| 0 <= j < i ==> (#[trigger] self.entries@[j]).0 != key,
            decreases n - i,
        {
            if self.entries[i].0 == key {
                return Some(i);
            }
            i += 1;
        }
        None
    }

    /// Returns the value under `key` if a live entry holds it, refreshing the
    /// idle timer; purges a dead entry it finds; reports absence as `None`.
    pub fn get(&mut self, key: &u32, now: u64) -> (r: Option<V>)
        requires
            old(self).wf(),
            now <= MAX_TIME,
        ensures
            final(self).wf(),
            final(self).spec_max_capacity() == old(self).spec_max_capacity(),
            final(self).spec_time_to_live() == old(self).spec_time_to_live(),
            final(self).spec_time_to_idle() == old(self).spec_time_to_idle(),
            get_post(
                old(self)@,
                old(self).spec_time_to_live(),
                old(self).spec_time_to_idle(),
                *key,
                now,
                final(self)@,
                r,
            ),
    {
        match self.find_index(*key) {
            None => {
                proof {
                    lemma_map_of_contains(self.entries@, *key);
                }
                None
            },
            Some(i) => {
                let e = self.entries[i].1;
                proof {
                    lemma_map_of_index(self.entries@, i as int);
                }
                if now < e.inserted_at + self.time_to_live && now < e.last_accessed_at
                    + self.time_to_idle {
                    let refreshed = CacheEntry {
                        value: e.value,
                        inserted_at: e.inserted_at,
                        last_accessed_at: now,
                    };
                    proof {
                        lemma_map_of_update(self.entries@, i as int, (*key, refreshed));
                    }
                    self.entries[i] = (*key, refreshed);
                    Some(e.value)
                } else {
                    proof {
                        lemma_map_of_remove(self.entries@, i as int);
                        lemma_distinct_remove(self.entries@, i as int);
                    }
                    self.entries.remove(i);
                    None
                }
            },
        }
    }

    /// Inserts or overwrites `key`, stamping both timestamps with `now`. A
    /// new key entering a full cache evicts one victim: a dead entry if any
    /// is left, else the live entry whose last access is oldest.
    pub fn set(&mut self, key: u32, value: V, now: u64)
        requires
            old(self).wf(),
            now <= MAX_TIME,
        ensures
            final(self).wf(),
            final(self).spec_max_capacity() == old(self).spec_max_capacity(),
            final(self).spec_time_to_live() == old(self).spec_time_to_live(),
            final(self).spec_time_to_idle() == old(self).spec_time_to_idle(),
            set_post(
                old(self)@,
                old(self).spec_time_to_live(),
                old(self).spec_time_to_idle(),
                old(self).spec_max_capacity(),
                key,
                value,
                now,
                final(self)@,
            ),
    {
        let fresh = CacheEntry { value, inserted_at: now, last_accessed_at: now };
        match self.find_index(key) {
            Some(i) => {
                proof {
                    lemma_map_of_index(self.entries@, i as int);
                    lemma_map_of_update(self.entries@, i as int, (key, fresh));
                }
                self.entries[i] = (key, fresh);
            },
            None => {
                proof {
                    lemma_map_of_contains(self.entries@, key);
                    lemma_map_of_len(self.entries@);
                }
                if self.entries.len() == self.max_capacity {
                    let ghost m = self@;
                    let ghost s = self.entries@;
                    let vi = self.choose_victim(now);
                    let ghost victim = self.entries@[vi as int].0;
                    proof {
                        lemma_map_of_index(s, vi as int);
                        lemma_map_of_remove(s, vi as int);
                        lemma_distinct_remove(s, vi as int);
                        assert forall|d: u32|
                            m.dom().contains(d) && !entry_live(
                                m[d],
                                self.time_to_live,
                                self.time_to_idle,
                                now,
                            ) implies !entry_live(
                            m[victim],
                            self.time_to_live,
                            self.time_to_idle,
                            now,
                        ) by {
                            lemma_map_of_contains(s, d);
                            let j = choose|j: int| 0 <= j < s.len() && (#[trigger] s[j]).0 == d;
                            lemma_map_of_index(s, j);
                        }
                        assert forall|k2: u32|
                            entry_live(m[victim], self.time_to_live, self.time_to_idle, now)
                                && m.dom().contains(k2) implies evicts_no_later(
                            m[victim],
                            m[k2],
                        ) by {
                            lemma_map_of_contains(s, k2);
                            let j = choose|j: int| 0 <= j < s.len() && (#[trigger] s[j]).0 == k2;
                            lemma_map_of_index(s, j);
                        }
                    }
                    self.entries.remove(vi);
                    proof {
                        lemma_map_of_contains(self.entries@, key);
                        lemma_map_of_push(self.entries@, (key, fresh));
                        lemma_distinct_push(self.entries@, (key, fresh));
                    }
                    self.entries.push((key, fresh));
                    proof {
                        assert(final(self)@ == m.remove(victim).insert(key, fresh));
                    }
                } else {
                    proof {
                        lemma_map_of_push(self.entries@, (key, fresh));
                        lemma_distinct_push(self.entries@, (key, fresh));
                    }
                    self.entries.push((key, fresh));
                }
            },
        }
    }

    /// Removes the live entry under `key`; when no live entry exists the call
    /// fails with `NotFound` naming the key, purging a dead entry it finds.
    pub fn invalidate(&mut self, key: &u32, now: u64) -> (r: Result<(), CacheError>)
        requires
            old(self).wf(),
            now <= MAX_TIME,
        ensures
            final(self).wf(),
            final(self).spec_max_capacity() == old(self).spec_max_capacity(),
            final(self).spec_time_to_live() == old(self).spec_time_to_live(),
            final(self).spec_time_to_idle() == old(self).spec_time_to_idle(),
            invalidate_post(
                old(self)@,
                old(self).spec_time_to_live(),
                old(self).spec_time_to_idle(),
                *key,
                now,
                final(self)@,
                r,
            ),
    {
        match self.find_index(*key) {
            None => {
                proof {
                    lemma_map_of_contains(self.entries@, *key);
                }
                Err(CacheError::NotFound { key: *key })
            },
            Some(i) => {
                let e = self.entries[i].1;
                proof {
                    lemma_map_of_index(self.entries@, i as int);
                    lemma_map_of_remove(self.entries@, i as int);
                    lemma_distinct_remove(self.entries@, i as int);
                }
                self.entries.remove(i);
                if now < e.inserted_at + self.time_to_live && now < e.last_accessed_at
                    + self.time_to_idle {
                    Ok(())
                } else {
                    Err(CacheError::NotFound { key: *key })
                }
            },
        }
    }

    fn choose_victim(&self, now: u64) -> (r: usize)
        requires
            self.wf(),
            self.entries@.len() >= 1,
            now <= MAX_TIME,
        ensures
            r < self.entries@.len(),
            (exists|j: int|
                0 <= j < self.entries@.len() && !entry_live(
                    (#[trigger] self.entries@[j]).1,
                    self.spec_time_to_live(),
                    self.spec_time_to_idle(),
                    now,
                )) ==> !entry_live(
                self.entries@[r as int].1,
                self.spec_time_to_live(),
                self.spec_time_to_idle(),
                now,
            ),
            entry_live(
                self.entries@[r as int].1,
                self.spec_time_to_live(),
                self.spec_time_to_idle(),
                now,
            ) ==> forall|j: int|
                0 <= j < self.entries@.len() ==> evicts_no_later(
                    self.entries@[r as int].1,
                    (#[trigger] self.entries@[j]).1,
                ),
    {
        let n = self.entries.len();
        let mut best: usize = 0;
        let mut i: usize = 1;
        while i < n
            invariant
                n == self.entries@.len(),
                self.wf(),
                now <= MAX_TIME,
                best < i <= n,
                (exists|j: int|
                    0 <= j < i && !entry_live(
                        (#[trigger] self.entries@[j]).1,
                        self.spec_time_to_live(),
                        self.spec_time_to_idle(),
                        now,
                    )) ==> !entry_live(
                    self.entries@[best as int].1,
                    self.spec_time_to_live(),
                    self.spec_time_to_idle(),
                    now,
                ),
                entry_live(
                    self.entries@[best as int].1,
                    self.spec_time_to_live(),
                    self.spec_time_to_idle(),
                    now,
                ) ==> forall|j: int|
                    0 <= j < i ==> evicts_no_later(
                        self.entries@[best as int].1,
                        (#[trigger] self.entries@[j]).1,
                    ),
            decreases n - i,
        {
            let cur = self.entries[i].1;
            let b = self.entries[best].1;
            let cur_live = now < cur.inserted_at + self.time_to_live && now < cur.last_accessed_at
                + self.time_to_idle;
            let b_live = now < b.inserted_at + self.time_to_live && now < b.last_accessed_at
                + self.time_to_idle;
            let replace = if b_live && !cur_live {
                true
            } else if !b_live {
                false
            } else {
                cur.last_accessed_at < b.last_accessed_at || (cur.last_accessed_at
                    == b.last_accessed_at && cur.inserted_at < b.inserted_at)
            };
            if replace {
                best = i;
            }
            i += 1;
        }
        best
    }
}

proof fn lemma_distinct_remove<V>(s: Seq<(u32, CacheEntry<V>)>, i: int)
    requires
        keys_distinct(s),
        0 <= i < s.len(),
    ensures
        keys_distinct(s.remove(i)),
        forall|j: int|
            0 <= j < s.len() - 1 ==> (#[trigger] s.remove(i)[j]) == (if j < i {
                s[j]
            } else {
                s[j + 1]
            }),
{
    assert forall|j: int| 0 <= j < s.len() - 1 implies (#[trigger] s.remove(i)[j]) == (if j < i {
        s[j]
    } else {
        s[j + 1]
    }) by {
        if j < i {
            assert(s.remove(i)[j] == s[j]);
        } else {
            assert(s.remove(i)[j] == s[j + 1]);
        }
    }
}

proof fn lemma_distinct_push<V>(s: Seq<(u32, CacheEntry<V>)>, p: (u32, CacheEntry<V>))
    requires
        keys_distinct(s),
        !has_key(s, p.0),
    ensures
        keys_distinct(s.push(p)),
{
    assert forall|i: int, j: int| 0 <= i < j < s.push(p).len() implies (#[trigger] s.push(p)[i]).0
        != (#[trigger] s.push(p)[j]).0 by {
        if j < s.len() {
            assert(s.push(p)[i] == s[i]);
            assert(s.push(p)[j] == s[j]);
        } else {
            assert(s.push(p)[i] == s[i]);
            assert(s.push(p)[j] == p);
            assert(!(exists|k: int| 0 <= k < s.len() && (#[trigger] s[k]).0 == p.0));
        }
    }
}

} // verus!
