//! The cache backends of the benchmark, each behind the `CacheOps` contract.
use crate::cache::{within_insert, CacheOps};
use crate::config::CACHE_CAPACITY;
use vstd::prelude::*;

verus! {

#[verifier::external_type_specification]
#[verifier::external_body]
#[verifier::reject_recursive_types(K)]
#[verifier::reject_recursive_types(V)]
#[verifier::reject_recursive_types(S)]
pub struct ExLruCache<K, V, S>(lru::LruCache<K, V, S>);

#[verifier::external_type_specification]
#[verifier::external_body]
#[verifier::reject_recursive_types(K)]
#[verifier::reject_recursive_types(V)]
#[verifier::reject_recursive_types(S)]
pub struct ExHashlinkLruCache<K, V, S>(hashlink::LruCache<K, V, S>);

#[verifier::external_type_specification]
#[verifier::external_body]
pub struct ExLruDefaultHasher(lru::DefaultHasher);

#[verifier::external_type_specification]
#[verifier::external_body]
pub struct ExHashlinkDefaultHashBuilder(hashlink::DefaultHashBuilder);

/// What an lru cache holds.
pub uninterp spec fn lru_entries(c: lru::LruCache<usize, usize>) -> Map<usize, usize>;

/// What a hashlink cache holds.
pub uninterp spec fn hashlink_entries(c: hashlink::LruCache<usize, usize>) -> Map<usize, usize>;

/// The capacity that a hashlink cache was made with.
pub uninterp spec fn hashlink_capacity(c: hashlink::LruCache<usize, usize>) -> nat;

/// What a mini-moka cache stores.
pub uninterp spec fn moka_entries(c: mini_moka::unsync::Cache<usize, usize>) -> Map<usize, usize>;

/// The bound that a mini-moka cache was built with: a number of entries, or
/// a total weight where a weigher was given.
pub uninterp spec fn moka_max_capacity(c: mini_moka::unsync::Cache<usize, usize>) -> Option<u64>;

/// The time to live, in seconds, that a mini-moka cache was built with.
pub uninterp spec fn moka_ttl_secs(c: mini_moka::unsync::Cache<usize, usize>) -> Option<u64>;

/// The time to idle, in seconds, that a mini-moka cache was built with.
pub uninterp spec fn moka_tti_secs(c: mini_moka::unsync::Cache<usize, usize>) -> Option<u64>;

/// A freshly built mini-moka cache: empty, with the given bound and
/// expirations.
pub open spec fn moka_built(
    c: mini_moka::unsync::Cache<usize, usize>,
    max_capacity: int,
    ttl_secs: Option<u64>,
    tti_secs: Option<u64>,
) -> bool {
    &&& moka_entries(c).dom() == Set::<usize>::empty()
    &&& moka_max_capacity(c) matches Some(m) && m == max_capacity
    &&& moka_ttl_secs(c) == ttl_secs
    &&& moka_tti_secs(c) == tti_secs
}

/// Relies on `lru::LruCache::get`: the value held for `key`, if any; it only
/// marks the entry as most recently used.
#[verifier::external_body]
fn lru_get<'a>(c: &'a mut lru::LruCache<usize, usize>, key: &usize) -> (r: Option<&'a usize>)
    ensures
        lru_entries(*final(c)) == lru_entries(*old(c)),
        r is Some <==> lru_entries(*old(c)).contains_key(*key),
        r matches Some(v) ==> *v == lru_entries(*old(c))[*key],
{
    c.get(key)
}

/// Relies on `lru::LruCache::push`: the pair is held afterwards; when the
/// key is new and the cache full (its capacity is non-zero), the least
/// recently used other entry is evicted.
#[verifier::external_body]
fn lru_push(c: &mut lru::LruCache<usize, usize>, key: usize, value: usize)
    ensures
        lru_entries(*final(c)).contains_key(key),
        lru_entries(*final(c))[key] == value,
        within_insert(lru_entries(*old(c)), key, value, lru_entries(*final(c))),
{
    c.push(key, value);
}

/// Relies on `hashlink::LruCache::get`: the value held for `key`, if any; it
/// only moves the entry to the back of the LRU list.
#[verifier::external_body]
fn hashlink_get<'a>(c: &'a mut hashlink::LruCache<usize, usize>, key: &usize) -> (r: Option<&'a usize>)
    ensures
        hashlink_entries(*final(c)) == hashlink_entries(*old(c)),
        hashlink_capacity(*final(c)) == hashlink_capacity(*old(c)),
        r is Some <==> hashlink_entries(*old(c)).contains_key(*key),
        r matches Some(v) ==> *v == hashlink_entries(*old(c))[*key],
{
    c.get(key)
}

/// Relies on `hashlink::LruCache::insert`: the pair is put at the back of
/// the LRU list, then the front entry is dropped when over capacity; so the
/// pair stays unless the capacity is zero.
#[verifier::external_body]
fn hashlink_insert(c: &mut hashlink::LruCache<usize, usize>, key: usize, value: usize)
    ensures
        hashlink_capacity(*final(c)) == hashlink_capacity(*old(c)),
        hashlink_capacity(*old(c)) > 0 ==> hashlink_entries(*final(c)).contains_key(key)
            && hashlink_entries(*final(c))[key] == value,
        within_insert(hashlink_entries(*old(c)), key, value, hashlink_entries(*final(c))),
{
    c.insert(key, value);
}

impl CacheOps for hashlink::LruCache<usize, usize> {
    open spec fn exact_lookup(&self) -> bool {
        true
    }

    open spec fn bounded_by_inserts(&self) -> bool {
        true
    }

    open spec fn keeps_inserted(&self) -> bool {
        hashlink_capacity(*self) > 0
    }

    open spec fn entries(&self) -> Map<usize, usize> {
        hashlink_entries(*self)
    }

    open spec fn label(&self) -> Option<Seq<char>> {
        Some("Hashlink LRU"@)
    }

    fn get(&mut self, key: &usize) -> Option<&usize> {
        hashlink_get(self, key)
    }

    fn insert(&mut self, key: usize, value: usize) {
        hashlink_insert(self, key, value)
    }

    fn name(&self) -> &'static str {
        "Hashlink LRU"
    }
}

impl CacheOps for lru::LruCache<usize, usize> {
    open spec fn exact_lookup(&self) -> bool {
        true
    }

    open spec fn bounded_by_inserts(&self) -> bool {
        true
    }

    open spec fn keeps_inserted(&self) -> bool {
        true
    }

    open spec fn entries(&self) -> Map<usize, usize> {
        lru_entries(*self)
    }

    open spec fn label(&self) -> Option<Seq<char>> {
        Some("LRU"@)
    }

    fn get(&mut self, key: &usize) -> Option<&usize> {
        lru_get(self, key)
    }

    fn insert(&mut self, key: usize, value: usize) {
        lru_push(self, key, value)
    }

    fn name(&self) -> &'static str {
        "LRU"
    }
}

#[verifier::external_type_specification]
#[verifier::external_body]
#[verifier::reject_recursive_types(K)]
#[verifier::reject_recursive_types(V)]
#[verifier::reject_recursive_types(S)]
pub struct ExMokaCache<K, V, S>(mini_moka::unsync::Cache<K, V, S>);

/// Relies on `mini_moka::unsync::Cache::get`: it first evicts expired and
/// over-capacity entries, then returns the stored value of `key` unless that
/// entry has expired; it stores nothing new.
#[verifier::external_body]
fn moka_get<'a>(c: &'a mut mini_moka::unsync::Cache<usize, usize>, key: &usize) -> (r: Option<&'a usize>)
    ensures
        moka_entries(*final(c)).submap_of(moka_entries(*old(c))),
        r matches Some(v) ==> moka_entries(*old(c)).contains_key(*key) && *v == moka_entries(*old(c))[*key],
{
    c.get(key)
}

/// Relies on `mini_moka::unsync::Cache::insert`: an upsert, which the
/// admission policy may refuse, after which the eviction policy may drop
/// entries; nothing else is stored.
#[verifier::external_body]
fn moka_insert(c: &mut mini_moka::unsync::Cache<usize, usize>, key: usize, value: usize)
    ensures
        within_insert(moka_entries(*old(c)), key, value, moka_entries(*final(c))),
{
    c.insert(key, value)
}

impl CacheOps for mini_moka::unsync::Cache<usize, usize> {
    open spec fn bounded_by_inserts(&self) -> bool {
        true
    }

    open spec fn entries(&self) -> Map<usize, usize> {
        moka_entries(*self)
    }

    open spec fn label(&self) -> Option<Seq<char>> {
        Some("Mini-Moka Unsync"@)
    }

    fn get(&mut self, key: &usize) -> Option<&usize> {
        moka_get(self, key)
    }

    fn insert(&mut self, key: usize, value: usize) {
        moka_insert(self, key, value)
    }

    fn name(&self) -> &'static str {
        "Mini-Moka Unsync"
    }
}

/// Weight of one `(usize, usize)` entry, in bytes, on 64-bit targets.
pub const ENTRY_WEIGHT_BYTES: u32 = 16;

/// Time to live of entries in an expiring cache, in seconds.
pub const EXPIRING_TTL_SECS: u64 = 600;

/// Time to idle of entries in an expiring cache, in seconds.
pub const EXPIRING_TTI_SECS: u64 = 120;

/// Longest expiration that mini-moka accepts: a thousand years, in seconds.
pub const MAX_EXPIRATION_SECS: u64 = 1000 * 365 * 24 * 3600;

/// The weight of one cache entry, whatever its key and value.
pub fn entry_weight(_key: &usize, _value: &usize) -> (w: u32)
    ensures
        w == ENTRY_WEIGHT_BYTES,
{
    ENTRY_WEIGHT_BYTES
}

/// Relies on mini-moka's `CacheBuilder` (`initial_capacity`, `max_capacity`,
/// `build`): a cache bounded by `max_entries` entries.
#[verifier::external_body]
fn moka_counted(initial_capacity: usize, max_entries: u64) -> (r: mini_moka::unsync::Cache<usize, usize>)
    ensures
        moka_entries(r).dom() == Set::<usize>::empty(),
        moka_max_capacity(r) == Some(max_entries),
        moka_ttl_secs(r) == None::<u64>,
        moka_tti_secs(r) == None::<u64>,
{
    mini_moka::unsync::Cache::builder()
        .initial_capacity(initial_capacity)
        .max_capacity(max_entries)
        .build()
}

/// Relies on mini-moka's `CacheBuilder` (`initial_capacity`, `weigher`,
/// `max_capacity`, `build`): a cache bounded by the total weight of its
/// entries, each weighed by `entry_weight`.
#[verifier::external_body]
fn moka_weighted(initial_capacity: usize, max_weight: u64) -> (r: mini_moka::unsync::Cache<usize, usize>)
    ensures
        moka_entries(r).dom() == Set::<usize>::empty(),
        moka_max_capacity(r) == Some(max_weight),
        moka_ttl_secs(r) == None::<u64>,
        moka_tti_secs(r) == None::<u64>,
{
    mini_moka::unsync::Cache::builder()
        .initial_capacity(initial_capacity)
        .weigher(|k: &usize, v: &usize| entry_weight(k, v))
        .max_capacity(max_weight)
        .build()
}

/// Relies on mini-moka's `CacheBuilder` (`initial_capacity`, `weigher`,
/// `max_capacity`, `time_to_live`, `time_to_idle`, `build`): a weight-bounded
/// cache, as `moka_weighted` builds, whose entries expire `ttl_secs` after
/// insertion or `tti_secs` after their last access. `build` panics on an
/// expiration over a thousand years.
#[verifier::external_body]
fn moka_weighted_expiring(initial_capacity: usize, max_weight: u64, ttl_secs: u64, tti_secs: u64) -> (r: mini_moka::unsync::Cache<usize, usize>)
    requires
        ttl_secs <= MAX_EXPIRATION_SECS,
        tti_secs <= MAX_EXPIRATION_SECS,
    ensures
        moka_entries(r).dom() == Set::<usize>::empty(),
        moka_max_capacity(r) == Some(max_weight),
        moka_ttl_secs(r) == Some(ttl_secs),
        moka_tti_secs(r) == Some(tti_secs),
{
    mini_moka::unsync::Cache::builder()
        .initial_capacity(initial_capacity)
        .weigher(|k: &usize, v: &usize| entry_weight(k, v))
        .max_capacity(max_weight)
        .time_to_live(std::time::Duration::from_secs(ttl_secs))
        .time_to_idle(std::time::Duration::from_secs(tti_secs))
        .build()
}

/// Builders of the mini-moka backend.
pub struct OptimizedMokaCacheBuilder;

impl OptimizedMokaCacheBuilder {
    /// Half the cache capacity, the number of entries preallocated.
    pub fn initial_entries() -> (n: usize)
        ensures
            n == CACHE_CAPACITY / 2,
    {
        (CACHE_CAPACITY / 2) as usize
    }

    /// The weight bound of a cache that holds `CACHE_CAPACITY` entries.
    pub fn max_weight() -> (w: u64)
        ensures
            w == CACHE_CAPACITY * ENTRY_WEIGHT_BYTES,
    {
        CACHE_CAPACITY * ENTRY_WEIGHT_BYTES as u64
    }

    /// A cache bounded by weight: `CACHE_CAPACITY` entries of
    /// `ENTRY_WEIGHT_BYTES` bytes each.
    pub fn build_optimized_cache() -> (c: mini_moka::unsync::Cache<usize, usize>)
        ensures
            moka_built(c, CACHE_CAPACITY * ENTRY_WEIGHT_BYTES, None, None),
    {
        moka_weighted(Self::initial_entries(), Self::max_weight())
    }

    /// A weight-bounded cache whose entries also expire: ten minutes after
    /// insertion, or two minutes after their last access.
    pub fn build_cache_with_expiration() -> (c: mini_moka::unsync::Cache<usize, usize>)
        ensures
            moka_built(c, CACHE_CAPACITY * ENTRY_WEIGHT_BYTES, Some(EXPIRING_TTL_SECS), Some(EXPIRING_TTI_SECS)),
    {
        moka_weighted_expiring(
            Self::initial_entries(),
            Self::max_weight(),
            EXPIRING_TTL_SECS,
            EXPIRING_TTI_SECS,
        )
    }

    /// A cache bounded by its number of entries, `CACHE_CAPACITY`.
    pub fn build_high_performance_cache() -> (c: mini_moka::unsync::Cache<usize, usize>)
        ensures
            moka_built(c, CACHE_CAPACITY as int, None, None),
    {
        moka_counted(Self::initial_entries(), CACHE_CAPACITY)
    }
}

/// An unbounded backend that never evicts: the reference against which the
/// bounded backends are compared.
pub struct ReferenceCache {
    pub map: std::collections::HashMap<usize, usize>,
}

impl ReferenceCache {
    /// An empty reference cache.
    pub fn new() -> (c: ReferenceCache)
        ensures
            c.map@ == Map::<usize, usize>::empty(),
    {
        ReferenceCache { map: std::collections::HashMap::new() }
    }
}

impl CacheOps for ReferenceCache {
    open spec fn lossless(&self) -> bool {
        true
    }

    open spec fn exact_lookup(&self) -> bool {
        true
    }

    open spec fn keeps_inserted(&self) -> bool {
        true
    }

    open spec fn label(&self) -> Option<Seq<char>> {
        Some("Reference (unbounded)"@)
    }

    open spec fn entries(&self) -> Map<usize, usize> {
        self.map@
    }

    fn get(&mut self, key: &usize) -> (r: Option<&usize>) {
        broadcast use vstd::std_specs::hash::group_hash_axioms;
        self.map.get(key)
    }

    fn insert(&mut self, key: usize, value: usize) {
        broadcast use vstd::std_specs::hash::group_hash_axioms;
        self.map.insert(key, value);
    }

    fn name(&self) -> &'static str {
        "Reference (unbounded)"
    }
}

} // verus!
