//! The cache core: a capacity-bounded key-value store with time-based
//! expiration (TTL) and least-recently-used eviction.
//!
//! Time is measured as nanoseconds elapsed since the cache was created,
//! carried in plain `u64` counters so that expiry checks and recency
//! comparisons are simple integer comparisons.  Every operation exists in
//! two forms: one that takes the current instant as an explicit `now`
//! argument and is specified exactly in terms of it, and a convenience
//! form that samples the cache's own monotonic clock and hands the sample
//! to the explicit form.
//!
//! The entry model is the triple `(value, expires_at, last_accessed)`,
//! and the whole cache is modelled as a finite map from keys to entries
//! (the view of [`Cache`]).

use vstd::prelude::*;

use crate::store::{
    contents, empty_contents, store_clear, store_contains, store_entries, store_get, store_insert,
    store_len, store_new, store_remove,
};
use crate::NANOS_PER_SEC;
use dashmap::DashMap;

verus! {

/// A failure surfaced by a cache operation.
///
/// `CapacityExceeded` is the only error the insert path raises on its
/// own.  `InvalidTTL` is reserved for caller-facing validation layers and
/// `Internal` for unexpected failures of an underlying store; the core
/// produces neither.
#[derive(Debug, Clone, PartialEq, Eq)]
pub enum CacheError {
    /// The cache is full and eviction could not free a slot.
    CapacityExceeded,
    /// A TTL value was rejected by a validation layer.
    InvalidTTL(String),
    /// An underlying store operation failed unexpectedly.
    Internal(String),
}

impl CacheError {
    /// A human-readable description of the error.
    pub fn message(&self) -> (r: String)
        ensures
            match self {
                CacheError::CapacityExceeded => r@
                    == "Cache capacity exceeded and eviction failed"@,
                CacheError::InvalidTTL(msg) => r@ == "Invalid TTL: "@ + msg@,
                CacheError::Internal(msg) => r@ == "Internal cache error: "@ + msg@,
            },
    {
        match self {
            CacheError::CapacityExceeded => String::from_str(
                "Cache capacity exceeded and eviction failed",
            ),
            CacheError::InvalidTTL(msg) => String::from_str("Invalid TTL: ").concat(msg.as_str()),
            CacheError::Internal(msg) => String::from_str("Internal cache error: ").concat(
                msg.as_str(),
            ),
        }
    }
}

#[verifier::external_type_specification]
#[verifier::external_body]
pub struct ExInstant(std::time::Instant);

/// Relies on `std::time::Instant::now`: an opaque reading of the
/// monotonic clock.
#[verifier::external_body]
fn instant_now() -> std::time::Instant {
    std::time::Instant::now()
}

/// Relies on `std::time::Instant::saturating_duration_since`: the time
/// elapsed from `origin` to `later` (zero if `later` is the earlier of
/// the two), truncated to 64 bits of nanoseconds.  Nothing is promised of
/// the value: callers treat it as an arbitrary instant.
#[verifier::external_body]
fn nanos_since(origin: std::time::Instant, later: std::time::Instant) -> u64 {
    later.saturating_duration_since(origin).as_nanos() as u64
}

/// The nanosecond count of a TTL given in whole seconds, saturating at
/// `u64::MAX`.
pub open spec fn spec_ttl_nanos(ttl_secs: u64) -> u64 {
    if ttl_secs * NANOS_PER_SEC > u64::MAX {
        u64::MAX
    } else {
        (ttl_secs * NANOS_PER_SEC) as u64
    }
}

/// The absolute expiry instant for an entry written at `now` with the
/// given TTL, saturating at `u64::MAX` (a saturated expiry never passes).
pub open spec fn spec_expiry(now: u64, ttl_secs: u64) -> u64 {
    if now + spec_ttl_nanos(ttl_secs) > u64::MAX {
        u64::MAX
    } else {
        (now + spec_ttl_nanos(ttl_secs)) as u64
    }
}

/// Computes `spec_expiry(now, ttl_secs)` without overflow.
pub fn expiry_instant(now: u64, ttl_secs: u64) -> (r: u64)
    ensures
        r == spec_expiry(now, ttl_secs),
{
    let nanos: u64 = if ttl_secs > u64::MAX / NANOS_PER_SEC {
        u64::MAX
    } else {
        ttl_secs * NANOS_PER_SEC
    };
    proof {
        assert(nanos == spec_ttl_nanos(ttl_secs)) by (nonlinear_arith)
            requires
                nanos == if ttl_secs > u64::MAX / NANOS_PER_SEC {
                    u64::MAX
                } else {
                    (ttl_secs * NANOS_PER_SEC) as u64
                },
        ;
    }
    if nanos > u64::MAX - now {
        u64::MAX
    } else {
        now + nanos
    }
}

/// An entry is live at `now` while its expiry instant has not passed;
/// it is expired as soon as `now` reaches the instant.
pub open spec fn live_at(e: (Seq<char>, u64, u64), now: u64) -> bool {
    now < e.1
}

/// The keys of `m` whose entries have expired by `now`.
pub open spec fn expired_keys(m: Map<Seq<char>, (Seq<char>, u64, u64)>, now: u64) -> Set<
    Seq<char>,
> {
    m.dom().filter(|k: Seq<char>| !live_at(m[k], now))
}

/// `m` with every entry expired by `now` removed.
pub open spec fn swept(m: Map<Seq<char>, (Seq<char>, u64, u64)>, now: u64) -> Map<
    Seq<char>,
    (Seq<char>, u64, u64),
> {
    m.remove_keys(expired_keys(m, now))
}

/// The set of (mathematical) keys among the first `n` elements of a key
/// vector, used to account for partial progress of a removal pass.
pub open spec fn keys_upto(v: Seq<String>, n: int) -> Set<Seq<char>> {
    Set::new(|k: Seq<char>| exists|a: int| 0 <= a < n && v[a]@ == k)
}

/// `k` holds an entry of `m` whose last-access counter is minimal over
/// the whole of `m`: a least-recently-used entry.
pub open spec fn is_lru(m: Map<Seq<char>, (Seq<char>, u64, u64)>, k: Seq<char>) -> bool {
    &&& m.dom().contains(k)
    &&& forall|k2: Seq<char>| #[trigger] m.dom().contains(k2) ==> m[k].2 <= m[k2].2
}

/// The TTL a write uses: the override if one was given, else the cache's
/// default.
pub open spec fn effective_ttl(ttl_secs: Option<u64>, default_ttl_secs: u64) -> u64 {
    match ttl_secs {
        Some(t) => t,
        None => default_ttl_secs,
    }
}

/// A write of `key` must try to reclaim space when the store is at or
/// above the bound and the key does not merely overwrite an existing
/// entry.
pub open spec fn set_needs_space(
    pre: Map<Seq<char>, (Seq<char>, u64, u64)>,
    max_size: usize,
    key: Seq<char>,
) -> bool {
    pre.dom().len() >= max_size && !pre.dom().contains(key)
}

/// The one state in which a write fails: space is needed, nothing has
/// expired, and there is no entry at all to evict — which happens exactly
/// when the cache is empty and its bound is zero.
pub open spec fn set_fails(pre: Map<Seq<char>, (Seq<char>, u64, u64)>, max_size: usize) -> bool {
    pre.dom().len() == 0 && max_size == 0
}

/// How a successful write at `now` takes the cache model from `pre` to
/// `post`: if no space is needed the new entry is simply written; else
/// expired entries are swept first, and only if that sweep removed
/// nothing is one least-recently-used entry evicted.  Which entry leaves
/// on a recency tie is unspecified, as the store's iteration order is.
pub open spec fn set_ok_post(
    pre: Map<Seq<char>, (Seq<char>, u64, u64)>,
    post: Map<Seq<char>, (Seq<char>, u64, u64)>,
    key: Seq<char>,
    value: Seq<char>,
    now: u64,
    ttl_secs: u64,
    max_size: usize,
) -> bool {
    let e = (value, spec_expiry(now, ttl_secs), now);
    if !set_needs_space(pre, max_size, key) {
        post == pre.insert(key, e)
    } else if expired_keys(pre, now).len() > 0 {
        post == swept(pre, now).insert(key, e)
    } else if pre.dom().len() > 0 {
        exists|kmin: Seq<char>|
            #[trigger] is_lru(pre, kmin) && post == pre.remove(kmin).insert(key, e)
    } else {
        false
    }
}

/// A concurrent, capacity-bounded key-value cache with time-based
/// expiration and least-recently-used eviction, as modelled by its view:
/// a finite map from keys to `(value, expires_at, last_accessed)`
/// entries.
///
/// The bound `max_size` is soft: a write that overwrites an existing key
/// never evicts, and a sweep that frees at least one slot is accepted
/// even if the store is still above the bound afterwards.
pub struct Cache {
    map: DashMap<String, (String, u64, u64)>,
    max_size: usize,
    default_ttl_secs: u64,
    start_time: std::time::Instant,
}

impl View for Cache {
    type V = Map<Seq<char>, (Seq<char>, u64, u64)>;

    closed spec fn view(&self) -> Map<Seq<char>, (Seq<char>, u64, u64)> {
        contents(self.map)
    }
}

impl Cache {
    /// The model of a cache is always a finite map.
    pub closed spec fn wf(&self) -> bool {
        self@.dom().finite()
    }

    /// The capacity bound the cache was created with.
    pub closed spec fn spec_max_size(&self) -> usize {
        self.max_size
    }

    /// The default TTL, in seconds, the cache was created with.
    pub closed spec fn spec_default_ttl_secs(&self) -> u64 {
        self.default_ttl_secs
    }

    /// The two caches have the same capacity bound and default TTL.
    pub open spec fn same_shape(a: Cache, b: Cache) -> bool {
        &&& a.spec_max_size() == b.spec_max_size()
        &&& a.spec_default_ttl_secs() == b.spec_default_ttl_secs()
    }

    /// Creates an empty cache holding at most `max_size` entries, whose
    /// entries expire `ttl_secs` seconds after they are written unless a
    /// write overrides the TTL.
    pub fn new(max_size: usize, ttl_secs: u64) -> (r: Cache)
        ensures
            r.wf(),
            r@ == empty_contents(),
            r.spec_max_size() == max_size,
            r.spec_default_ttl_secs() == ttl_secs,
    {
        Cache {
            map: store_new(max_size),
            max_size,
            default_ttl_secs: ttl_secs,
            start_time: instant_now(),
        }
    }

    /// Nanoseconds elapsed on the monotonic clock since the cache was
    /// created.  The value is an arbitrary instant to the specification;
    /// it only feeds the explicit-instant operations.
    pub fn now_nanos(&self) -> u64 {
        nanos_since(self.start_time, instant_now())
    }

    /// The capacity bound.
    pub fn max_size(&self) -> (r: usize)
        ensures
            r == self.spec_max_size(),
    {
        self.max_size
    }

    /// The default TTL in seconds.
    pub fn default_ttl_secs(&self) -> (r: u64)
        ensures
            r == self.spec_default_ttl_secs(),
    {
        self.default_ttl_secs
    }

    /// The number of entries physically present, including entries that
    /// have expired but have not been swept yet.
    pub fn size(&self) -> (r: usize)
        ensures
            r == self@.dom().len(),
    {
        store_len(&self.map)
    }

    /// Whether `key` holds an entry that is live at `now`.
    pub fn contains_at(&self, key: &str, now: u64) -> (r: bool)
        ensures
            r == (self@.dom().contains(key@) && live_at(self@[key@], now)),
    {
        match store_get(&self.map, key) {
            Some(entry) => now < entry.1,
            None => false,
        }
    }

    /// Whether `key` holds an entry that is live now.
    pub fn contains(&self, key: &str) -> (r: bool)
        ensures
            r ==> self@.dom().contains(key@) && exists|now: u64| live_at(self@[key@], now),
            !self@.dom().contains(key@) ==> !r,
    {
        let now = self.now_nanos();
        self.contains_at(key, now)
    }

    /// Removes `key` and reports whether an entry was present, expired or
    /// not.
    pub fn delete(&mut self, key: &str) -> (r: bool)
        requires
            old(self).wf(),
        ensures
            final(self).wf(),
            Cache::same_shape(*old(self), *final(self)),
            r == old(self)@.dom().contains(key@),
            final(self)@ == old(self)@.remove(key@),
    {
        store_remove(&mut self.map, key).is_some()
    }

    /// Looks `key` up as of the instant `now`.  On a live hit the value
    /// is returned and the entry's recency counter is refreshed to `now`;
    /// an expired entry is removed on the spot, so the following lookup
    /// of the same key is a plain miss.
    pub fn get_at(&mut self, key: &str, now: u64) -> (r: Option<String>)
        requires
            old(self).wf(),
        ensures
            final(self).wf(),
            Cache::same_shape(*old(self), *final(self)),
            match r {
                Some(v) => {
                    &&& old(self)@.dom().contains(key@)
                    &&& live_at(old(self)@[key@], now)
                    &&& v@ == old(self)@[key@].0
                    &&& final(self)@ == old(self)@.insert(
                        key@,
                        (old(self)@[key@].0, old(self)@[key@].1, now),
                    )
                },
                None => {
                    &&& !(old(self)@.dom().contains(key@) && live_at(old(self)@[key@], now))
                    &&& final(self)@ == if old(self)@.dom().contains(key@) {
                        old(self)@.remove(key@)
                    } else {
                        old(self)@
                    }
                },
            },
    {
        match store_get(&self.map, key) {
            Some(entry) => {
                if now >= entry.1 {
                    store_remove(&mut self.map, key);
                    None
                } else {
                    store_insert(&mut self.map, key.to_owned(), entry.0.clone(), entry.1, now);
                    Some(entry.0)
                }
            },
            None => None,
        }
    }

    /// Looks `key` up as of the cache's own clock.  A key with no entry
    /// is always a miss and leaves the cache unchanged; a hit returns the
    /// stored value and refreshes the entry's recency; a miss on a
    /// present, expired entry removes it.
    pub fn get(&mut self, key: &str) -> (r: Option<String>)
        requires
            old(self).wf(),
        ensures
            final(self).wf(),
            Cache::same_shape(*old(self), *final(self)),
            match r {
                Some(v) => {
                    &&& old(self)@.dom().contains(key@)
                    &&& v@ == old(self)@[key@].0
                    &&& exists|now: u64|
                        live_at(old(self)@[key@], now) && final(self)@ == old(self)@.insert(
                            key@,
                            (old(self)@[key@].0, old(self)@[key@].1, now),
                        )
                },
                None => final(self)@ == if old(self)@.dom().contains(key@) {
                    old(self)@.remove(key@)
                } else {
                    old(self)@
                },
            },
    {
        let now = self.now_nanos();
        self.get_at(key, now)
    }

    /// Removes, as of the instant `now`, exactly the entries whose
    /// expiration has passed, and returns how many were removed.  Entries
    /// with a future expiration are untouched.
    #[verifier::loop_isolation(false)]
    #[verifier::rlimit(60)]
    pub fn cleanup_expired_at(&mut self, now: u64) -> (r: usize)
        requires
            old(self).wf(),
        ensures
            final(self).wf(),
            Cache::same_shape(*old(self), *final(self)),
            final(self)@ == swept(old(self)@, now),
            r == expired_keys(old(self)@, now).len(),
    {
        let ghost m0 = self@;
        let snapshot = store_entries(&self.map);
        let mut expired: Vec<String> = Vec::new();
        let mut i: usize = 0;
        while i < snapshot.len()
            invariant
                i <= snapshot.len(),
                forall|a: int|
                    #![trigger expired@[a]]
                    0 <= a < expired@.len() ==> {
                        &&& m0.dom().contains(expired@[a]@)
                        &&& !live_at(m0[expired@[a]@], now)
                        &&& exists|b: int| 0 <= b < i && snapshot@[b].0@ == expired@[a]@
                    },
                forall|a: int, b: int|
                    0 <= a < b < expired@.len() ==> expired@[a]@ != expired@[b]@,
                forall|b: int|
                    #![trigger snapshot@[b]]
                    0 <= b < i && !live_at(m0[snapshot@[b].0@], now) ==> exists|a: int|
                        0 <= a < expired@.len() && expired@[a]@ == snapshot@[b].0@,
            decreases snapshot.len() - i,
        {
            let e = &snapshot[i];
            if now >= e.1 {
                let ghost before = expired@;
                expired.push(e.0.clone());
                proof {
                    assert(expired@[expired@.len() - 1]@ == snapshot@[i as int].0@);
                    assert forall|a: int, b: int|
                        0 <= a < b < expired@.len() implies expired@[a]@ != expired@[b]@ by {
                        if b == expired@.len() - 1 {
                            assert(expired@[a] == before[a]);
                            let w = choose|w: int| 0 <= w < i && snapshot@[w].0@ == before[a]@;
                            assert(snapshot@[w].0@ != snapshot@[i as int].0@);
                        }
                    }
                    assert forall|b: int|
                        0 <= b < i + 1 && !live_at(m0[snapshot@[b].0@], now) implies exists|a: int|
                        0 <= a < expired@.len() && expired@[a]@ == snapshot@[b].0@ by {
                        if b < i {
                            let a = choose|a: int|
                                0 <= a < before.len() && before[a]@ == snapshot@[b].0@;
                            assert(expired@[a] == before[a]);
                        } else {
                            assert(expired@[expired@.len() - 1]@ == snapshot@[b].0@);
                        }
                    }
                }
            } else {
                proof {
                    assert(m0.dom().contains(snapshot@[i as int].0@));
                    assert(m0[snapshot@[i as int].0@].1 == snapshot@[i as int].1);
                }
            }
            i += 1;
        }
        proof {
            assert forall|k: Seq<char>| #[trigger] expired_keys(m0, now).contains(k) implies exists|
                a: int,
            | 0 <= a < expired@.len() && expired@[a]@ == k by {
                let b = choose|b: int| 0 <= b < snapshot@.len() && snapshot@[b].0@ == k;
                assert(snapshot@[b].1 == m0[k].1);
            }
        }
        let mut j: usize = 0;
        proof {
            assert(keys_upto(expired@, 0) =~= Set::empty());
        }
        while j < expired.len()
            invariant
                j <= expired.len(),
                keys_upto(expired@, j as int).finite(),
                keys_upto(expired@, j as int).len() == j,
                self@ == m0.remove_keys(keys_upto(expired@, j as int)),
                self@.dom().finite(),
                Cache::same_shape(*old(self), *self),
            decreases expired.len() - j,
        {
            store_remove(&mut self.map, expired[j].as_str());
            proof {
                assert(keys_upto(expired@, j + 1) =~= keys_upto(expired@, j as int).insert(
                    expired@[j as int]@,
                ));
                assert(!keys_upto(expired@, j as int).contains(expired@[j as int]@));
                assert(self@ =~= m0.remove_keys(keys_upto(expired@, j + 1)));
            }
            j += 1;
        }
        proof {
            assert(keys_upto(expired@, expired@.len() as int) =~= expired_keys(m0, now));
            assert(self@ =~= swept(m0, now));
        }
        expired.len()
    }

    /// Removes, as of the cache's own clock, exactly the entries whose
    /// expiration has passed, and returns how many were removed.
    pub fn cleanup_expired(&mut self) -> (r: usize)
        requires
            old(self).wf(),
        ensures
            final(self).wf(),
            Cache::same_shape(*old(self), *final(self)),
            exists|now: u64|
                final(self)@ == swept(old(self)@, now) && r == expired_keys(old(self)@, now).len(),
    {
        let now = self.now_nanos();
        self.cleanup_expired_at(now)
    }

    /// Scans the whole store once and removes the entry with the
    /// smallest recency counter; on a tie the entry met first in the
    /// store's (unspecified) iteration order leaves.  Fails only when
    /// there is no entry at all.
    #[verifier::loop_isolation(false)]
    fn evict_lru(&mut self) -> (r: Result<(), CacheError>)
        requires
            old(self).wf(),
        ensures
            final(self).wf(),
            Cache::same_shape(*old(self), *final(self)),
            match r {
                Ok(()) => exists|kmin: Seq<char>|
                    #[trigger] is_lru(old(self)@, kmin) && final(self)@ == old(self)@.remove(kmin),
                Err(e) => {
                    &&& e matches CacheError::CapacityExceeded
                    &&& old(self)@.dom().len() == 0
                    &&& final(self)@ == old(self)@
                },
            },
            (r matches Ok(_)) <==> old(self)@.dom().len() > 0,
    {
        let ghost m0 = self@;
        let snapshot = store_entries(&self.map);
        if snapshot.len() == 0 {
            return Err(CacheError::CapacityExceeded);
        }
        let mut best_i: usize = 0;
        let mut best_time: u64 = snapshot[0].2;
        let mut i: usize = 1;
        while i < snapshot.len()
            invariant
                0 < i <= snapshot.len(),
                best_i < i,
                best_time == snapshot@[best_i as int].2,
                forall|b: int| #![trigger snapshot@[b]] 0 <= b < i ==> best_time <= snapshot@[b].2,
            decreases snapshot.len() - i,
        {
            let e = &snapshot[i];
            if e.2 < best_time {
                best_time = e.2;
                best_i = i;
            }
            i += 1;
        }
        let ghost kmin = snapshot@[best_i as int].0@;
        proof {
            assert forall|k2: Seq<char>| #[trigger] m0.dom().contains(k2) implies m0[kmin].2
                <= m0[k2].2 by {
                let b = choose|b: int| 0 <= b < snapshot@.len() && snapshot@[b].0@ == k2;
                assert(best_time <= snapshot@[b].2);
            }
            assert(is_lru(m0, kmin));
        }
        store_remove(&mut self.map, snapshot[best_i].0.as_str());
        Ok(())
    }

    /// Writes `value` under `key` as of the instant `now`, overwriting
    /// any previous entry for the key.  The entry expires
    /// `effective_ttl(ttl_secs, default)` seconds after `now`.  When the
    /// store is at or above its bound and the key is new, expired entries
    /// are swept first, and if nothing had expired one least-recently-
    /// used entry is evicted.  The write fails, leaving the cache
    /// unchanged, exactly when the cache is empty with a bound of zero.
    pub fn set_at(&mut self, key: String, value: String, ttl_secs: Option<u64>, now: u64) -> (r:
        Result<(), CacheError>)
        requires
            old(self).wf(),
        ensures
            final(self).wf(),
            Cache::same_shape(*old(self), *final(self)),
            match r {
                Ok(()) => set_ok_post(
                    old(self)@,
                    final(self)@,
                    key@,
                    value@,
                    now,
                    effective_ttl(ttl_secs, old(self).spec_default_ttl_secs()),
                    old(self).spec_max_size(),
                ),
                Err(e) => {
                    &&& e matches CacheError::CapacityExceeded
                    &&& final(self)@ == old(self)@
                },
            },
            (r matches Ok(_)) <==> !set_fails(old(self)@, old(self).spec_max_size()),
    {
        let ghost m0 = self@;
        let ttl = match ttl_secs {
            Some(t) => t,
            None => self.default_ttl_secs,
        };
        if store_len(&self.map) >= self.max_size && !store_contains(&self.map, key.as_str()) {
            let removed = self.cleanup_expired_at(now);
            if removed == 0 {
                proof {
                    expired_keys(m0, now).lemma_len0_is_empty();
                    assert(self@ =~= m0);
                }
                if store_len(&self.map) >= self.max_size {
                    match self.evict_lru() {
                        Ok(()) => {},
                        Err(e) => {
                            return Err(e);
                        },
                    }
                }
            }
        }
        proof {
            if set_fails(m0, old(self).spec_max_size()) {
                m0.dom().lemma_len0_is_empty();
                assert(expired_keys(m0, now) =~= Set::empty());
                assert(false);
            }
        }
        let expires_at = expiry_instant(now, ttl);
        store_insert(&mut self.map, key, value, expires_at, now);
        Ok(())
    }

    /// Writes `value` under `key` as of the cache's own clock,
    /// overwriting any previous entry for the key.  The write fails,
    /// leaving the cache unchanged, exactly when the cache is empty with
    /// a bound of zero; every other write succeeds.
    pub fn set(&mut self, key: String, value: String, ttl_secs: Option<u64>) -> (r: Result<
        (),
        CacheError,
    >)
        requires
            old(self).wf(),
        ensures
            final(self).wf(),
            Cache::same_shape(*old(self), *final(self)),
            match r {
                Ok(()) => exists|now: u64|
                    set_ok_post(
                        old(self)@,
                        final(self)@,
                        key@,
                        value@,
                        now,
                        effective_ttl(ttl_secs, old(self).spec_default_ttl_secs()),
                        old(self).spec_max_size(),
                    ),
                Err(e) => {
                    &&& e matches CacheError::CapacityExceeded
                    &&& final(self)@ == old(self)@
                },
            },
            (r matches Ok(_)) <==> !set_fails(old(self)@, old(self).spec_max_size()),
    {
        let now = self.now_nanos();
        self.set_at(key, value, ttl_secs, now)
    }

    /// Removes every entry.
    pub fn clear(&mut self)
        requires
            old(self).wf(),
        ensures
            final(self).wf(),
            Cache::same_shape(*old(self), *final(self)),
            final(self)@ == empty_contents(),
    {
        store_clear(&mut self.map);
    }
}

/// Law: a successful write puts exactly the written entry under the key,
/// whatever eviction or sweeping it performed — so a lookup immediately
/// after, at any instant before the entry's expiry, is a live hit on the
/// written value.
pub proof fn lemma_set_establishes_entry(
    pre: Map<Seq<char>, (Seq<char>, u64, u64)>,
    post: Map<Seq<char>, (Seq<char>, u64, u64)>,
    key: Seq<char>,
    value: Seq<char>,
    now: u64,
    ttl_secs: u64,
    max_size: usize,
)
    requires
        set_ok_post(pre, post, key, value, now, ttl_secs, max_size),
    ensures
        post.dom().contains(key),
        post[key] == (value, spec_expiry(now, ttl_secs), now),
{
}

/// Law: after a successful write, the entry under the key is live at
/// every instant strictly before `now + ttl` and expired at every
/// instant from then on — the conditions under which a lookup returns
/// the value or removes the entry and returns nothing.
pub proof fn lemma_set_ttl_bounds_visibility(
    pre: Map<Seq<char>, (Seq<char>, u64, u64)>,
    post: Map<Seq<char>, (Seq<char>, u64, u64)>,
    key: Seq<char>,
    value: Seq<char>,
    now: u64,
    ttl_secs: u64,
    max_size: usize,
    later: u64,
)
    requires
        set_ok_post(pre, post, key, value, now, ttl_secs, max_size),
    ensures
        post[key].0 == value,
        later < spec_expiry(now, ttl_secs) ==> live_at(post[key], later),
        later >= spec_expiry(now, ttl_secs) ==> !live_at(post[key], later),
{
    lemma_set_establishes_entry(pre, post, key, value, now, ttl_secs, max_size);
}

/// Law: when a write at capacity evicts (nothing expired, the key is
/// new), exactly one entry leaves, and every entry that was touched more
/// recently than some other entry survives; in particular the most
/// recently touched entry does.
pub proof fn lemma_eviction_spares_recent(
    pre: Map<Seq<char>, (Seq<char>, u64, u64)>,
    post: Map<Seq<char>, (Seq<char>, u64, u64)>,
    key: Seq<char>,
    value: Seq<char>,
    now: u64,
    ttl_secs: u64,
    max_size: usize,
    k: Seq<char>,
)
    requires
        pre.dom().finite(),
        set_ok_post(pre, post, key, value, now, ttl_secs, max_size),
        set_needs_space(pre, max_size, key),
        expired_keys(pre, now).len() == 0,
        pre.dom().contains(k),
        exists|k2: Seq<char>| #[trigger] pre.dom().contains(k2) && pre[k2].2 < pre[k].2,
    ensures
        post.dom().contains(k),
        post[k] == pre[k],
        post.dom().len() == pre.dom().len(),
{
    let e = (value, spec_expiry(now, ttl_secs), now);
    let kmin = choose|kmin: Seq<char>|
        #[trigger] is_lru(pre, kmin) && post == pre.remove(kmin).insert(key, e);
    let k2 = choose|k2: Seq<char>| #[trigger] pre.dom().contains(k2) && pre[k2].2 < pre[k].2;
    assert(pre[kmin].2 <= pre[k2].2);
    assert(kmin != k);
    pre.lemma_remove_key_len(kmin);
    assert(post.dom() =~= pre.dom().remove(kmin).insert(key));
}

/// Law: a write never takes a cache that is within its bound above the
/// bound — the bound is soft only under concurrent writers, whose
/// overlapping capacity checks are outside this model.
pub proof fn lemma_set_preserves_bound(
    pre: Map<Seq<char>, (Seq<char>, u64, u64)>,
    post: Map<Seq<char>, (Seq<char>, u64, u64)>,
    key: Seq<char>,
    value: Seq<char>,
    now: u64,
    ttl_secs: u64,
    max_size: usize,
)
    requires
        pre.dom().finite(),
        pre.dom().len() <= max_size,
        set_ok_post(pre, post, key, value, now, ttl_secs, max_size),
    ensures
        post.dom().finite(),
        post.dom().len() <= max_size,
{
    let e = (value, spec_expiry(now, ttl_secs), now);
    if !set_needs_space(pre, max_size, key) {
        assert(post.dom() =~= pre.dom().insert(key));
        if pre.dom().contains(key) {
            assert(post.dom() =~= pre.dom());
        }
    } else if expired_keys(pre, now).len() > 0 {
        lemma_sweep_exact(pre, now);
        assert(swept(pre, now).dom().finite()) by {
            assert(swept(pre, now).dom() =~= pre.dom().difference(expired_keys(pre, now)));
        }
        assert(post.dom() =~= swept(pre, now).dom().insert(key));
    } else {
        let kmin = choose|kmin: Seq<char>|
            #[trigger] is_lru(pre, kmin) && post == pre.remove(kmin).insert(key, e);
        pre.lemma_remove_key_len(kmin);
        assert(post.dom() =~= pre.dom().remove(kmin).insert(key));
    }
}

/// Law: removing a key releases it exactly once — afterwards the key is
/// absent, so a second removal finds nothing, while every other key
/// still holds its old entry.
pub proof fn lemma_delete_releases_key(pre: Map<Seq<char>, (Seq<char>, u64, u64)>, k: Seq<char>)
    ensures
        !pre.remove(k).dom().contains(k),
        forall|k2: Seq<char>|
            k2 != k ==> pre.remove(k).dom().contains(k2) == #[trigger] pre.dom().contains(k2),
        forall|k2: Seq<char>|
            k2 != k && #[trigger] pre.dom().contains(k2) ==> pre.remove(k)[k2] == pre[k2],
{
}

/// Law: a sweep at `now` keeps exactly the live entries, each unchanged,
/// and the number of removed entries accounts for the difference in
/// size.
pub proof fn lemma_sweep_exact(m: Map<Seq<char>, (Seq<char>, u64, u64)>, now: u64)
    requires
        m.dom().finite(),
    ensures
        forall|k: Seq<char>|
            #[trigger] swept(m, now).dom().contains(k) <==> (m.dom().contains(k) && live_at(
                m[k],
                now,
            )),
        forall|k: Seq<char>|
            #[trigger] swept(m, now).dom().contains(k) ==> swept(m, now)[k] == m[k],
        m.dom().len() == swept(m, now).dom().len() + expired_keys(m, now).len(),
{
    m.lemma_remove_keys_len(expired_keys(m, now));
}

} // verus!
