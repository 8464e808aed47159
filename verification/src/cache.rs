//! Response cache: a TTL-bounded key/value store over a concurrent map.
//!
//! Entries carry an absolute expiry instant (milliseconds of monotonic
//! process time, supplied by the caller). A read that finds an expired
//! entry removes it and reports a miss. A write sweeps all expired entries
//! first, but only when the map has grown past its configured maximum -
//! live entries are never evicted, so the cache may exceed `max_entries`
//! while nothing has expired. This mirrors the deliberate TTL-only (not
//! LRU) design of the store.

use vstd::prelude::*;
use crate::sat_add_u64;
use crate::sat_mul_u64;
use crate::types::{CrateCheckResult, CrateCheckResultView};

verus! {

/// Cached response entry.
#[derive(Debug)]
pub struct CacheEntry {
    /// The stored check result.
    pub data: CrateCheckResult,
    /// Expiry instant, in milliseconds of monotonic process time.
    pub expires_at: u64,
}

/// Mathematical content of [`CacheEntry`].
pub ghost struct CacheEntryView {
    pub data: CrateCheckResultView,
    pub expires_at: u64,
}

impl View for CacheEntry {
    type V = CacheEntryView;

    open spec fn view(&self) -> CacheEntryView {
        CacheEntryView { data: self.data@, expires_at: self.expires_at }
    }
}

impl Clone for CacheEntry {
    fn clone(&self) -> (res: Self)
        ensures
            res@ == self@,
    {
        CacheEntry { data: self.data.clone(), expires_at: self.expires_at }
    }
}

#[verifier::external_type_specification]
#[verifier::external_body]
#[verifier::reject_recursive_types(K)]
#[verifier::reject_recursive_types(V)]
#[verifier::reject_recursive_types(S)]
pub struct ExDashMap<K, V, S>(dashmap::DashMap<K, V, S>);

/// The entries a cache map holds, keyed by the key's characters.
pub uninterp spec fn map_entries(m: &dashmap::DashMap<String, CacheEntry>) -> Map<
    Seq<char>,
    CacheEntryView,
>;

/// The empty collection of entries.
pub open spec fn spec_no_entries() -> Map<Seq<char>, CacheEntryView> {
    Map::empty()
}

/// Relies on dashmap::DashMap::new: creates an empty map.
#[verifier::external_body]
fn cache_map_new() -> (m: dashmap::DashMap<String, CacheEntry>)
    ensures
        map_entries(&m) == spec_no_entries(),
{
    dashmap::DashMap::new()
}

/// Relies on dashmap::DashMap::get: returns a copy of the value stored
/// under the key, if one is present.
#[verifier::external_body]
fn cache_map_get(m: &dashmap::DashMap<String, CacheEntry>, key: &str) -> (r: Option<CacheEntry>)
    ensures
        match r {
            Some(e) => map_entries(m).contains_key(key@) && map_entries(m)[key@] == e@,
            None => !map_entries(m).contains_key(key@),
        },
{
    m.get(key).map(|e| e.value().clone())
}

/// Relies on dashmap::DashMap::insert: stores the value under the key,
/// replacing any previous entry for it.
#[verifier::external_body]
fn cache_map_insert(m: &mut dashmap::DashMap<String, CacheEntry>, key: String, value: CacheEntry)
    ensures
        map_entries(final(m)) == map_entries(old(m)).insert(key@, value@),
{
    m.insert(key, value);
}

/// Relies on dashmap::DashMap::remove: removes the entry under the key, if
/// one is present.
#[verifier::external_body]
fn cache_map_remove(m: &mut dashmap::DashMap<String, CacheEntry>, key: &str)
    ensures
        map_entries(final(m)) == map_entries(old(m)).remove(key@),
{
    m.remove(key);
}

/// Relies on dashmap::DashMap::len: the number of stored entries.
#[verifier::external_body]
fn cache_map_len(m: &dashmap::DashMap<String, CacheEntry>) -> (n: usize)
    ensures
        n == map_entries(m).dom().len(),
{
    m.len()
}

/// Whether a cache entry is still live at the given instant.
pub open spec fn spec_entry_live(e: CacheEntryView, now_ms: u64) -> bool {
    e.expires_at > now_ms
}

fn entry_live(e: &CacheEntry, now_ms: u64) -> (b: bool)
    ensures
        b == spec_entry_live(e@, now_ms),
{
    e.expires_at > now_ms
}

/// The entries of a map that are still live at the given instant.
pub open spec fn spec_live_entries(
    entries: Map<Seq<char>, CacheEntryView>,
    now_ms: u64,
) -> Map<Seq<char>, CacheEntryView> {
    Map::new(
        |k: Seq<char>| entries.contains_key(k) && spec_entry_live(entries[k], now_ms),
        |k: Seq<char>| entries[k],
    )
}

/// Relies on dashmap::DashMap::retain: keeps exactly the entries the
/// predicate accepts; here, the ones still live at `now_ms`.
#[verifier::external_body]
fn cache_map_retain_live(m: &mut dashmap::DashMap<String, CacheEntry>, now_ms: u64)
    ensures
        map_entries(final(m)) == spec_live_entries(map_entries(old(m)), now_ms),
{
    m.retain(|_, e| entry_live(e, now_ms));
}

/// The expiry instant written for an entry stored at `now_ms` with the
/// given TTL (saturating at the end of time).
pub open spec fn spec_expiry(now_ms: u64, ttl_seconds: u64) -> u64 {
    sat_add_u64(now_ms, sat_mul_u64(ttl_seconds, 1000))
}

/// What a cache read returns: the stored result when the key holds a live
/// entry, nothing otherwise.
pub open spec fn spec_cache_lookup(
    entries: Map<Seq<char>, CacheEntryView>,
    enabled: bool,
    key: Seq<char>,
    now_ms: u64,
) -> Option<CrateCheckResultView> {
    if enabled && entries.contains_key(key) && spec_entry_live(entries[key], now_ms) {
        Some(entries[key].data)
    } else {
        None
    }
}

/// How a cache read leaves the entries: unchanged, except that an expired
/// entry found under the key is removed on the spot.
pub open spec fn spec_cache_after_lookup(
    entries: Map<Seq<char>, CacheEntryView>,
    enabled: bool,
    key: Seq<char>,
    now_ms: u64,
) -> Map<Seq<char>, CacheEntryView> {
    if enabled && entries.contains_key(key) && !spec_entry_live(entries[key], now_ms) {
        entries.remove(key)
    } else {
        entries
    }
}

/// How a cache write leaves the entries: when the store is enabled, the
/// value is inserted under the key with a fresh expiry; if the map had
/// grown past `max_entries`, all expired entries are swept first. When the
/// store is disabled nothing changes.
pub open spec fn spec_cache_after_set(
    entries: Map<Seq<char>, CacheEntryView>,
    enabled: bool,
    max_entries: usize,
    ttl_seconds: u64,
    key: Seq<char>,
    value: CrateCheckResultView,
    now_ms: u64,
) -> Map<Seq<char>, CacheEntryView> {
    if enabled {
        let swept = if entries.dom().len() > max_entries {
            spec_live_entries(entries, now_ms)
        } else {
            entries
        };
        swept.insert(key, CacheEntryView { data: value, expires_at: spec_expiry(now_ms, ttl_seconds) })
    } else {
        entries
    }
}

/// TTL-bounded response cache.
pub struct ResponseCache {
    enabled: bool,
    max_entries: usize,
    ttl_seconds: u64,
    map: dashmap::DashMap<String, CacheEntry>,
}

impl ResponseCache {
    /// Whether caching is switched on.
    pub closed spec fn spec_enabled(&self) -> bool {
        self.enabled
    }

    /// The entry-count threshold above which a write sweeps expired
    /// entries.
    pub closed spec fn spec_max_entries(&self) -> usize {
        self.max_entries
    }

    /// The TTL written into new entries, in seconds.
    pub closed spec fn spec_ttl_seconds(&self) -> u64 {
        self.ttl_seconds
    }

    /// The stored entries.
    pub closed spec fn spec_entries(&self) -> Map<Seq<char>, CacheEntryView> {
        map_entries(&self.map)
    }

    /// Create a cache with the given configuration and no entries.
    pub fn new(enabled: bool, ttl_seconds: u64, max_entries: usize) -> (c: Self)
        ensures
            c.spec_enabled() == enabled,
            c.spec_ttl_seconds() == ttl_seconds,
            c.spec_max_entries() == max_entries,
            c.spec_entries() == Map::<Seq<char>, CacheEntryView>::empty(),
    {
        ResponseCache { enabled, max_entries, ttl_seconds, map: cache_map_new() }
    }

    /// Number of stored entries (live or not).
    pub fn len(&self) -> (n: usize)
        ensures
            n == self.spec_entries().dom().len(),
    {
        cache_map_len(&self.map)
    }

    /// Look the key up. Returns the stored result only while its entry is
    /// live; an expired entry found here is removed on the spot. A
    /// disabled cache always misses and never changes.
    pub fn get(&mut self, key: &str, now_ms: u64) -> (r: Option<CrateCheckResult>)
        ensures
            final(self).spec_enabled() == old(self).spec_enabled(),
            final(self).spec_max_entries() == old(self).spec_max_entries(),
            final(self).spec_ttl_seconds() == old(self).spec_ttl_seconds(),
            match r {
                Some(data) => data@ == spec_cache_lookup(
                    old(self).spec_entries(),
                    old(self).spec_enabled(),
                    key@,
                    now_ms,
                )->Some_0,
                None => true,
            },
            (r is Some) == (spec_cache_lookup(
                old(self).spec_entries(),
                old(self).spec_enabled(),
                key@,
                now_ms,
            ) is Some),
            final(self).spec_entries() == spec_cache_after_lookup(
                old(self).spec_entries(),
                old(self).spec_enabled(),
                key@,
                now_ms,
            ),
    {
        if !self.enabled {
            return None;
        }
        match cache_map_get(&self.map, key) {
            Some(entry) => {
                if entry_live(&entry, now_ms) {
                    Some(entry.data)
                } else {
                    cache_map_remove(&mut self.map, key);
                    None
                }
            },
            None => None,
        }
    }

    /// Store a result under the key with a fresh TTL, sweeping expired
    /// entries first if the map has grown past `max_entries`. A disabled
    /// cache stores nothing.
    pub fn set(&mut self, key: String, value: &CrateCheckResult, now_ms: u64)
        ensures
            final(self).spec_enabled() == old(self).spec_enabled(),
            final(self).spec_max_entries() == old(self).spec_max_entries(),
            final(self).spec_ttl_seconds() == old(self).spec_ttl_seconds(),
            final(self).spec_entries() == spec_cache_after_set(
                old(self).spec_entries(),
                old(self).spec_enabled(),
                old(self).spec_max_entries(),
                old(self).spec_ttl_seconds(),
                key@,
                value@,
                now_ms,
            ),
    {
        if !self.enabled {
            return ;
        }
        if cache_map_len(&self.map) > self.max_entries {
            cache_map_retain_live(&mut self.map, now_ms);
        }
        let ttl_ms = if self.ttl_seconds <= u64::MAX / 1000 {
            self.ttl_seconds * 1000
        } else {
            u64::MAX
        };
        let expires_at = now_ms.saturating_add(ttl_ms);
        let entry = CacheEntry { data: value.clone(), expires_at };
        cache_map_insert(&mut self.map, key, entry);
    }
}

/// Cache idempotence: while an entry stays live, every lookup of its key
/// returns the same stored content and leaves the cache untouched, so two
/// consecutive reads within the TTL window agree and the second still
/// hits.
pub proof fn lemma_cache_hit_idempotent(
    entries: Map<Seq<char>, CacheEntryView>,
    key: Seq<char>,
    now1: u64,
    now2: u64,
)
    requires
        entries.contains_key(key),
        spec_entry_live(entries[key], now1),
        spec_entry_live(entries[key], now2),
    ensures
        spec_cache_lookup(entries, true, key, now1) is Some,
        spec_cache_lookup(entries, true, key, now1) == spec_cache_lookup(entries, true, key, now2),
        spec_cache_after_lookup(entries, true, key, now1) == entries,
{
}

/// Cache expiry: once an entry's TTL has elapsed, a lookup of its key
/// misses and removes the entry, so the caller must fetch afresh.
pub proof fn lemma_cache_expired_misses(
    entries: Map<Seq<char>, CacheEntryView>,
    key: Seq<char>,
    now_ms: u64,
)
    requires
        entries.contains_key(key),
        !spec_entry_live(entries[key], now_ms),
    ensures
        spec_cache_lookup(entries, true, key, now_ms) is None,
        !spec_cache_after_lookup(entries, true, key, now_ms).contains_key(key),
{
}

/// The write-time sweep only ever drops expired entries: any other key
/// holding a live entry survives a `set`, whether or not the sweep ran.
/// In particular a cache whose entries are all live can exceed
/// `max_entries` - it is a TTL cache, not an LRU cache.
pub proof fn lemma_set_keeps_live_entries(
    entries: Map<Seq<char>, CacheEntryView>,
    max_entries: usize,
    ttl_seconds: u64,
    key: Seq<char>,
    value: CrateCheckResultView,
    now_ms: u64,
    other: Seq<char>,
)
    requires
        entries.contains_key(other),
        spec_entry_live(entries[other], now_ms),
        other != key,
    ensures
        spec_cache_after_set(entries, true, max_entries, ttl_seconds, key, value, now_ms)
            .contains_key(other),
        spec_cache_after_set(entries, true, max_entries, ttl_seconds, key, value, now_ms)[other]
            == entries[other],
{
}

/// A successful write is visible: after a `set` on an enabled cache the
/// key holds the value with the freshly computed expiry.
pub proof fn lemma_set_then_get(
    entries: Map<Seq<char>, CacheEntryView>,
    max_entries: usize,
    ttl_seconds: u64,
    key: Seq<char>,
    value: CrateCheckResultView,
    now_ms: u64,
    later_ms: u64,
)
    requires
        later_ms < spec_expiry(now_ms, ttl_seconds),
    ensures
        spec_cache_lookup(
            spec_cache_after_set(entries, true, max_entries, ttl_seconds, key, value, now_ms),
            true,
            key,
            later_ms,
        ) == Some(value),
{
}

} // verus!
