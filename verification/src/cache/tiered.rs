//! The multi-tier cache: its settings, the decisions about which tier
//! keeps an entry, and its hit statistics.

use vstd::prelude::*;
use crate::cache::{CacheConfig, join_path};
use crate::config::{user_cache_dir, path_join};
use crate::text::string_of;
use crate::time::Duration;
use crate::api::ApiType;
use lru::LruCache;

verus! {

/// Settings of the in-memory tier.
#[derive(Debug, Clone, Copy)]
pub struct L1CacheConfig {
    /// Maximum number of entries in L1 cache
    pub max_entries: usize,
    /// TTL for L1 cache entries
    pub ttl: Duration,
    /// Enable compression for large entries
    pub enable_compression: bool,
    /// Minimum size threshold for compression (bytes)
    pub compression_threshold: usize,
}

impl L1CacheConfig {
    /// A thousand entries kept for half an hour, compressed above 1 KB.
    pub fn default() -> (res: L1CacheConfig)
        ensures
            res.max_entries == 1000,
            res.ttl@ == 30 * 60 * 1_000_000_000int,
            res.enable_compression,
            res.compression_threshold == 1024,
    {
        L1CacheConfig { max_entries: 1000, ttl: Duration::from_secs(30 * 60), enable_compression: true, compression_threshold: 1024 }
    }

    /// Whether data of this length is compressed in the in-memory tier:
    /// compression is on and the data is longer than the threshold.
    pub fn should_compress(&self, len: usize) -> (res: bool)
        ensures
            res == (self.enable_compression && len > self.compression_threshold),
    {
        self.enable_compression && len > self.compression_threshold
    }
}

/// Settings of the multi-tier cache.
#[derive(Debug, Clone)]
pub struct TieredCacheConfig {
    /// L1 cache (in-memory) configuration
    pub l1_config: L1CacheConfig,
    /// L2 cache (persistent) configuration
    pub l2_config: CacheConfig,
    /// Whether to enable L3 cache (compressed disk cache)
    pub enable_l3: bool,
    /// L3 cache directory
    pub l3_dir: String,
}

/// The default directory of the third tier: `warp/l3_cache` in the user's
/// cache directory, or in the current directory when there is none.
pub open spec fn default_l3_dir(base: Option<String>) -> Seq<char> {
    let dir = match base {
        Some(b) => b@,
        None => "."@,
    };
    path_join(path_join(dir, "warp"@), "l3_cache"@)
}

/// The third tier's directory `warp/l3_cache` in the given cache
/// directory, or in the current directory without one.
pub fn l3_dir_under(base: Option<String>) -> (res: String)
    ensures
        res@ == default_l3_dir(base),
{
    let dir = match &base {
        Some(b) => b.clone(),
        None => string_of("."),
    };
    let l3_dir = join_path(join_path(dir, "warp"), "l3_cache");
    proof { reveal_strlit("."); }
    l3_dir
}

impl TieredCacheConfig {
    /// The default tiers, with the third tier off.
    pub fn default() -> (res: TieredCacheConfig)
        ensures
            res.l1_config.max_entries == 1000,
            res.l1_config.ttl@ == 30 * 60 * 1_000_000_000int,
            res.l1_config.enable_compression,
            res.l1_config.compression_threshold == 1024,
            res.l2_config.max_size == 100 * 1024 * 1024,
            res.l2_config.default_ttl@ == 24 * 3600 * 1_000_000_000int,
            !res.enable_l3,
            exists|base: Option<String>| res.l3_dir@ == default_l3_dir(base),
    {
        let base = user_cache_dir();
        let l3_dir = l3_dir_under(base);
        TieredCacheConfig { l1_config: L1CacheConfig::default(), l2_config: CacheConfig::default(), enable_l3: false, l3_dir }
    }
}

/// Whether data of this length is kept in the in-memory tier: at most
/// 100 KB.
pub fn should_cache_in_l1(len: usize) -> (res: bool)
    ensures
        res == (len <= 100 * 1024),
{
    len <= 100 * 1024
}

/// Where a lookup in the tiers found its answer.
#[derive(Debug, Clone, Copy, PartialEq, Eq, Structural)]
pub enum TierLookup {
    /// Found in memory.
    L1Hit,
    /// Found in the persistent tier, and promoted to memory.
    L2Hit,
    /// Found nowhere.
    Miss,
}

/// Occupancy of the tiers.
#[derive(Debug, Clone, Copy)]
pub struct CacheUtilization {
    pub l1_entries: usize,
    pub l1_max_entries: usize,
    pub l2_entries: u64,
    pub l2_size: u64,
    pub l2_max_size: u64,
}

/// Hit and miss counters per cache tier.
#[derive(Debug, Clone, Copy, PartialEq, Eq, Structural)]
pub struct TieredCacheStats {
    pub l1_hits: u64,
    pub l1_misses: u64,
    pub l2_hits: u64,
    pub l2_misses: u64,
    pub l3_hits: u64,
    pub l3_misses: u64,
    /// L2 to L1 promotions.
    pub promotions: u64,
    /// L1 evictions.
    pub evictions: u64,
}

impl TieredCacheStats {
    /// All counters zero.
    pub fn default() -> (res: TieredCacheStats)
        ensures
            res == (TieredCacheStats {
                l1_hits: 0, l1_misses: 0, l2_hits: 0, l2_misses: 0,
                l3_hits: 0, l3_misses: 0, promotions: 0, evictions: 0,
            }),
    {
        TieredCacheStats {
            l1_hits: 0, l1_misses: 0, l2_hits: 0, l2_misses: 0,
            l3_hits: 0, l3_misses: 0, promotions: 0, evictions: 0,
        }
    }

    /// Hits over all tiers.
    pub fn total_hits(&self) -> (res: u64)
        requires
            self.l1_hits + self.l2_hits + self.l3_hits <= u64::MAX,
        ensures
            res == self.l1_hits + self.l2_hits + self.l3_hits,
    {
        self.l1_hits + self.l2_hits + self.l3_hits
    }

    /// Lookups over all tiers: all hits and all misses.
    pub fn total_requests(&self) -> (res: u64)
        requires
            self.l1_hits + self.l2_hits + self.l3_hits + self.l1_misses + self.l2_misses + self.l3_misses <= u64::MAX,
        ensures
            res == self.l1_hits + self.l2_hits + self.l3_hits + self.l1_misses + self.l2_misses + self.l3_misses,
    {
        self.total_hits() + self.l1_misses + self.l2_misses + self.l3_misses
    }

    /// Counts one lookup: a hit in memory; or a miss in memory and a hit in
    /// the persistent tier, which promotes the entry; or a miss in memory
    /// and in the persistent tier, and in the third tier when it is on.
    pub fn record_lookup(&mut self, outcome: TierLookup, l3_enabled: bool)
        requires
            old(self).l1_hits < u64::MAX,
            old(self).l1_misses < u64::MAX,
            old(self).l2_hits < u64::MAX,
            old(self).l2_misses < u64::MAX,
            old(self).l3_misses < u64::MAX,
            old(self).promotions < u64::MAX,
        ensures
            *final(self) == match outcome {
                TierLookup::L1Hit => TieredCacheStats { l1_hits: (old(self).l1_hits + 1) as u64, ..*old(self) },
                TierLookup::L2Hit => TieredCacheStats {
                    l1_misses: (old(self).l1_misses + 1) as u64,
                    l2_hits: (old(self).l2_hits + 1) as u64,
                    promotions: (old(self).promotions + 1) as u64,
                    ..*old(self)
                },
                TierLookup::Miss => TieredCacheStats {
                    l1_misses: (old(self).l1_misses + 1) as u64,
                    l2_misses: (old(self).l2_misses + 1) as u64,
                    l3_misses: if l3_enabled { (old(self).l3_misses + 1) as u64 } else { old(self).l3_misses },
                    ..*old(self)
                },
            },
    {
        match outcome {
            TierLookup::L1Hit => {
                self.l1_hits = self.l1_hits + 1;
            }
            TierLookup::L2Hit => {
                self.l1_misses = self.l1_misses + 1;
                self.l2_hits = self.l2_hits + 1;
                self.promotions = self.promotions + 1;
            }
            TierLookup::Miss => {
                self.l1_misses = self.l1_misses + 1;
                self.l2_misses = self.l2_misses + 1;
                if l3_enabled {
                    self.l3_misses = self.l3_misses + 1;
                }
            }
        }
    }

    /// Counts an entry pushed out of memory by a newer one.
    pub fn record_eviction(&mut self)
        requires
            old(self).evictions < u64::MAX,
        ensures
            *final(self) == (TieredCacheStats { evictions: (old(self).evictions + 1) as u64, ..*old(self) }),
    {
        self.evictions = self.evictions + 1;
    }
}

/// One entry of the in-memory tier. Times are milliseconds since the Unix
/// epoch (UTC).
#[derive(Debug)]
pub struct L1Entry {
    /// The stored bytes: the data, or its deflate stream when `compressed`.
    pub data: Vec<u8>,
    pub created_at: i64,
    pub expires_at: i64,
    pub api_type: ApiType,
    pub access_count: u64,
    pub compressed: bool,
}

/// What the in-memory tier keeps of an entry: stored bytes, creation time,
/// expiry time and whether the bytes are compressed.
pub open spec fn entry_model(e: L1Entry) -> (Seq<u8>, i64, i64, bool) {
    (e.data@, e.created_at, e.expires_at, e.compressed)
}

/// A map of no entries.
pub open spec fn no_entries() -> Map<Seq<char>, (Seq<u8>, i64, i64, bool)> {
    Map::empty()
}

/// The hasher the `lru` crate's maps use by default.
#[verifier::external_type_specification]
#[verifier::external_body]
pub struct ExLruHasher(lru::DefaultHasher);

/// The least-recently-used map of the `lru` crate.
#[verifier::external_type_specification]
#[verifier::external_body]
#[verifier::reject_recursive_types(K)]
#[verifier::reject_recursive_types(V)]
#[verifier::reject_recursive_types(S)]
pub struct ExLruCache<K, V, S>(LruCache<K, V, S>);

/// What an LRU map of entries holds: each key (as text) with the model of
/// its entry.
pub uninterp spec fn l1_contents(c: LruCache<String, L1Entry>) -> Map<Seq<char>, (Seq<u8>, i64, i64, bool)>;

/// The capacity an LRU map was made with.
pub uninterp spec fn l1_capacity(c: LruCache<String, L1Entry>) -> nat;

/// `LruCache::new` (lru): an empty map holding at most `cap` entries.
#[verifier::external_body]
fn lru_new(cap: usize) -> (res: LruCache<String, L1Entry>)
    requires
        cap > 0,
    ensures
        l1_contents(res) == no_entries(),
        l1_capacity(res) == cap,
{
    LruCache::new(std::num::NonZeroUsize::new(cap).unwrap())
}

/// `LruCache::put` (lru): a present key gets the new value, and `true` (an
/// old value) comes back; an absent key is added, and when the map is full
/// the least recently used entry (some entry already there) leaves first.
/// The map never holds more than its capacity.
#[verifier::external_body]
fn lru_put(c: &mut LruCache<String, L1Entry>, key: &str, e: L1Entry) -> (replaced: bool)
    ensures
        l1_capacity(*final(c)) == l1_capacity(*old(c)),
        replaced == l1_contents(*old(c)).dom().contains(key@),
        l1_contents(*old(c)).dom().contains(key@) || l1_contents(*old(c)).dom().len() < l1_capacity(*old(c))
            ==> l1_contents(*final(c)) == l1_contents(*old(c)).insert(key@, entry_model(e)),
        !l1_contents(*old(c)).dom().contains(key@) && l1_contents(*old(c)).dom().len() >= l1_capacity(*old(c))
            ==> exists|v: Seq<char>| #[trigger] l1_contents(*old(c)).dom().contains(v)
                && l1_contents(*final(c)) == l1_contents(*old(c)).remove(v).insert(key@, entry_model(e)),
        l1_contents(*final(c)).dom().finite(),
        l1_contents(*final(c)).dom().len() <= l1_capacity(*final(c)),
{
    c.put(key.to_string(), e).is_some()
}

/// `LruCache::pop` (lru): removes a key and hands back its entry.
#[verifier::external_body]
fn lru_pop(c: &mut LruCache<String, L1Entry>, key: &str) -> (res: Option<L1Entry>)
    ensures
        l1_capacity(*final(c)) == l1_capacity(*old(c)),
        l1_contents(*final(c)) == l1_contents(*old(c)).remove(key@),
        res is Some <==> l1_contents(*old(c)).dom().contains(key@),
        res matches Some(e) ==> entry_model(e) == l1_contents(*old(c))[key@],
{
    c.pop(key)
}

/// `LruCache::clear` (lru): removes every entry.
#[verifier::external_body]
fn lru_clear(c: &mut LruCache<String, L1Entry>)
    ensures
        l1_capacity(*final(c)) == l1_capacity(*old(c)),
        l1_contents(*final(c)) == no_entries(),
{
    c.clear()
}

/// `LruCache::len` (lru): the number of entries.
#[verifier::external_body]
fn lru_len(c: &LruCache<String, L1Entry>) -> (res: usize)
    ensures
        res == l1_contents(*c).dom().len(),
{
    c.len()
}

/// `LruCache::iter` (lru): every key once, each with its expiry time.
#[verifier::external_body]
fn lru_expiries(c: &LruCache<String, L1Entry>) -> (res: Vec<(String, i64)>)
    ensures
        res@.len() == l1_contents(*c).dom().len(),
        forall|i: int| 0 <= i < res@.len() ==> l1_contents(*c).dom().contains((#[trigger] res@[i]).0@)
            && res@[i].1 == l1_contents(*c)[res@[i].0@].2,
        forall|k: Seq<char>| #[trigger] l1_contents(*c).dom().contains(k)
            ==> exists|i: int| 0 <= i < res@.len() && (#[trigger] res@[i]).0@ == k,
        forall|i: int, j: int| 0 <= i < j < res@.len() ==> (#[trigger] res@[i]).0@ != (#[trigger] res@[j]).0@,
{
    c.iter().map(|(k, e)| (k.clone(), e.expires_at)).collect()
}

/// What `flate2`'s deflate encoder (fast level) makes of some bytes.
pub uninterp spec fn deflated(data: Seq<u8>) -> Seq<u8>;

/// Compresses bytes with `flate2::write::DeflateEncoder` at the fast level.
/// Writing into a `Vec` does not fail.
#[verifier::external_body]
fn deflate(data: &[u8]) -> (res: Vec<u8>)
    ensures
        res@ == deflated(data@),
{
    let mut enc = flate2::write::DeflateEncoder::new(Vec::new(), flate2::Compression::fast());
    std::io::Write::write_all(&mut enc, data).unwrap();
    enc.finish().unwrap()
}

/// A deflate stream made from some bytes gives those bytes back.
pub open spec fn gives_back_deflated(c: Seq<u8>, res: Option<Vec<u8>>) -> bool {
    forall|d: Seq<u8>| c == #[trigger] deflated(d) ==> (res matches Some(x) && x@ == d)
}

/// Decompresses with `flate2::read::DeflateDecoder`: a deflate stream made
/// from some bytes gives those bytes back; other input may fail.
#[verifier::external_body]
fn inflate(c: &[u8]) -> (res: Option<Vec<u8>>)
    ensures
        gives_back_deflated(c@, res),
{
    let mut out = Vec::new();
    match std::io::Read::read_to_end(&mut flate2::read::DeflateDecoder::new(c), &mut out) {
        Ok(_) => Some(out),
        Err(_) => None,
    }
}

/// The in-memory tier: a least-recently-used map of entries, large ones
/// kept compressed.
pub struct L1Tier {
    cache: LruCache<String, L1Entry>,
    config: L1CacheConfig,
}

/// The expiry time of an entry put at `now` with the given time to live,
/// counted in whole milliseconds.
pub open spec fn l1_expiry(now: i64, ttl: Duration) -> int {
    now + ttl@ / 1_000_000
}

impl L1Tier {
    /// The entries, by key.
    pub closed spec fn contents(self) -> Map<Seq<char>, (Seq<u8>, i64, i64, bool)> {
        l1_contents(self.cache)
    }

    /// The settings the tier was made with.
    pub closed spec fn settings(self) -> L1CacheConfig {
        self.config
    }

    /// Internal consistency: at most `max_entries` entries, and every
    /// compressed entry is the deflate stream of some bytes.
    pub closed spec fn wf(self) -> bool {
        &&& l1_capacity(self.cache) == self.config.max_entries
        &&& self.contents().dom().finite()
        &&& self.contents().dom().len() <= self.config.max_entries
        &&& forall|k: Seq<char>| #[trigger] self.contents().dom().contains(k) && self.contents()[k].3
            ==> exists|d: Seq<u8>| self.contents()[k].0 == deflated(d)
    }

    /// The tier holds `data` under `key`: the stored bytes are the data, or
    /// its deflate stream when compressed.
    pub open spec fn holds(self, key: Seq<char>, data: Seq<u8>) -> bool {
        &&& self.contents().dom().contains(key)
        &&& if self.contents()[key].3 {
            self.contents()[key].0 == deflated(data)
        } else {
            self.contents()[key].0 == data
        }
    }

    /// The entry of `key` is valid at `now`: not after its expiry time.
    pub open spec fn fresh(self, key: Seq<char>, now: i64) -> bool {
        self.contents().dom().contains(key) && now <= self.contents()[key].2
    }

    /// An empty tier with the given settings.
    pub fn new(config: L1CacheConfig) -> (res: L1Tier)
        requires
            config.max_entries > 0,
        ensures
            res.wf(),
            res.settings() == config,
            res.contents() == no_entries(),
    {
        let t = L1Tier { cache: lru_new(config.max_entries), config };
        assert(t.contents().dom() =~= Set::<Seq<char>>::empty());
        t
    }

    /// The time to live of a new entry: the one given, else the tier's.
    pub fn entry_ttl(&self, ttl: Option<Duration>) -> (res: Duration)
        ensures
            res == match ttl { Some(t) => t, None => self.settings().ttl },
    {
        match ttl {
            Some(t) => t,
            None => self.config.ttl,
        }
    }

    /// Keeps `data` under `key` at `now`, until `now` plus the time to live
    /// (the one given, else the tier's); data longer than the compression
    /// threshold is kept compressed when compression is on. The entry
    /// replaces one with the same key, and `true` says so; otherwise, when
    /// the tier is full, the least recently used entry leaves.
    pub fn put_in_l1(&mut self, key: &str, data: Vec<u8>, api_type: ApiType, ttl: Option<Duration>, now: i64) -> (replaced: bool)
        requires
            old(self).wf(),
            l1_expiry(now, match ttl { Some(t) => t, None => old(self).settings().ttl }) <= i64::MAX,
        ensures
            final(self).wf(),
            final(self).settings() == old(self).settings(),
            replaced == old(self).contents().dom().contains(key@),
            ({
                let t = match ttl { Some(t) => t, None => old(self).settings().ttl };
                let compressed = old(self).settings().enable_compression && data@.len() > old(self).settings().compression_threshold;
                let stored = if compressed { deflated(data@) } else { data@ };
                let m = (stored, now, l1_expiry(now, t) as i64, compressed);
                &&& (old(self).contents().dom().contains(key@) || old(self).contents().dom().len() < old(self).settings().max_entries
                    ==> final(self).contents() == old(self).contents().insert(key@, m))
                &&& (!old(self).contents().dom().contains(key@) && old(self).contents().dom().len() >= old(self).settings().max_entries
                    ==> exists|v: Seq<char>| #[trigger] old(self).contents().dom().contains(v)
                        && final(self).contents() == old(self).contents().remove(v).insert(key@, m))
                &&& final(self).contents()[key@].2 == l1_expiry(now, t)
            }),
            final(self).holds(key@, data@),
            final(self).contents()[key@].1 == now,
    {
        let t = self.entry_ttl(ttl);
        let ttl_ms = t.as_millis();
        proof { Duration::lemma_range(t); }
        let expires_at = ((now as i128) + (ttl_ms as i128)) as i64;
        let compressed = self.config.should_compress(data.len());
        let stored = if compressed { deflate(data.as_slice()) } else { data };
        let entry = L1Entry { data: stored, created_at: now, expires_at, api_type, access_count: 1, compressed };
        let ghost m = entry_model(entry);
        let replaced = lru_put(&mut self.cache, key, entry);
        proof {
            if !old(self).contents().dom().contains(key@) && old(self).contents().dom().len() >= old(self).settings().max_entries {
                let v = choose|v: Seq<char>| #[trigger] old(self).contents().dom().contains(v)
                    && self.contents() == old(self).contents().remove(v).insert(key@, m);
                assert(old(self).contents().dom().contains(v));
            }
            assert forall|k: Seq<char>| #[trigger] self.contents().dom().contains(k) && self.contents()[k].3
                implies exists|d: Seq<u8>| self.contents()[k].0 == deflated(d) by {
                if k == key@ {
                    assert(self.contents()[k].0 == deflated(data@));
                } else {
                    assert(old(self).contents().dom().contains(k));
                }
            }
        }
        replaced
    }

    /// The data kept under `key` when its entry is valid at `now` (and the
    /// entry becomes the most recently used); an expired entry is dropped.
    pub fn get_from_l1(&mut self, key: &str, now: i64) -> (res: Option<Vec<u8>>)
        requires
            old(self).wf(),
        ensures
            final(self).wf(),
            final(self).settings() == old(self).settings(),
            !old(self).contents().dom().contains(key@) ==> res is None && final(self).contents() == old(self).contents(),
            old(self).contents().dom().contains(key@) && !old(self).fresh(key@, now)
                ==> res is None && final(self).contents() == old(self).contents().remove(key@),
            old(self).fresh(key@, now) ==> {
                &&& res is Some
                &&& final(self).contents() == old(self).contents()
                &&& forall|d: Seq<u8>| old(self).holds(key@, d) ==> (res matches Some(x) && x@ == d)
                &&& res matches Some(x) && old(self).holds(key@, x@)
            },
    {
        match lru_pop(&mut self.cache, key) {
            None => {
                assert(old(self).contents().remove(key@) =~= old(self).contents());
                None
            }
            Some(e) => {
                if now > e.expires_at {
                    return None;
                }
                let out = if e.compressed {
                    proof {
                        let d = choose|d: Seq<u8>| old(self).contents()[key@].0 == deflated(d);
                        assert(e.data@ == deflated(d));
                    }
                    inflate(e.data.as_slice())
                } else {
                    let c = e.data.clone();
                    assert(c@ =~= e.data@);
                    Some(c)
                };
                let mut e = e;
                e.access_count = e.access_count.wrapping_add(1);
                let ghost popped = self.contents();
                proof {
                    assert(popped.dom() =~= old(self).contents().dom().remove(key@));
                }
                let _ = lru_put(&mut self.cache, key, e);
                assert(self.contents() =~= old(self).contents());
                out
            }
        }
    }

    /// Drops the entry of `key`; `true` when there was one.
    pub fn remove_from_l1(&mut self, key: &str) -> (res: bool)
        requires
            old(self).wf(),
        ensures
            final(self).wf(),
            final(self).settings() == old(self).settings(),
            res == old(self).contents().dom().contains(key@),
            final(self).contents() == old(self).contents().remove(key@),
    {
        let r = lru_pop(&mut self.cache, key);
        r.is_some()
    }

    /// Drops every entry.
    pub fn clear_l1(&mut self)
        requires
            old(self).wf(),
        ensures
            final(self).wf(),
            final(self).settings() == old(self).settings(),
            final(self).contents() == no_entries(),
    {
        lru_clear(&mut self.cache);
        assert(self.contents().dom() =~= Set::<Seq<char>>::empty());
    }

    /// The number of entries.
    pub fn l1_len(&self) -> (res: usize)
        requires
            self.wf(),
        ensures
            res == self.contents().dom().len(),
    {
        lru_len(&self.cache)
    }

    /// Drops every entry expired at `now` (strictly after its expiry time)
    /// and says how many went.
    pub fn cleanup_expired_l1(&mut self, now: i64) -> (res: u64)
        requires
            old(self).wf(),
        ensures
            final(self).wf(),
            final(self).settings() == old(self).settings(),
            forall|k: Seq<char>| #[trigger] final(self).contents().dom().contains(k)
                <==> old(self).contents().dom().contains(k) && now <= old(self).contents()[k].2,
            forall|k: Seq<char>| #[trigger] final(self).contents().dom().contains(k)
                ==> final(self).contents()[k] == old(self).contents()[k],
            res + final(self).contents().dom().len() == old(self).contents().dom().len(),
    {
        let listing = lru_expiries(&self.cache);
        let n = listing.len();
        let mut removed: u64 = 0;
        let mut i: usize = 0;
        while i < n
            invariant
                self.wf(),
                self.settings() == old(self).settings(),
                n == listing@.len(),
                i <= n,
                n == old(self).contents().dom().len(),
                forall|a: int| 0 <= a < n ==> old(self).contents().dom().contains((#[trigger] listing@[a]).0@)
                    && listing@[a].1 == old(self).contents()[listing@[a].0@].2,
                forall|k: Seq<char>| #[trigger] old(self).contents().dom().contains(k)
                    ==> exists|a: int| 0 <= a < n && (#[trigger] listing@[a]).0@ == k,
                forall|a: int, b: int| 0 <= a < b < n ==> (#[trigger] listing@[a]).0@ != (#[trigger] listing@[b]).0@,
                forall|k: Seq<char>| #[trigger] self.contents().dom().contains(k)
                    <==> old(self).contents().dom().contains(k)
                        && !(exists|a: int| 0 <= a < i && (#[trigger] listing@[a]).0@ == k && now > listing@[a].1),
                forall|k: Seq<char>| #[trigger] self.contents().dom().contains(k)
                    ==> self.contents()[k] == old(self).contents()[k],
                removed + self.contents().dom().len() == old(self).contents().dom().len(),
            decreases n - i,
        {
            let (k, exp) = (&listing[i].0, listing[i].1);
            if now > exp {
                let ghost before = self.contents();
                assert(before.dom().contains(k@)) by {
                    assert(old(self).contents().dom().contains(listing@[i as int].0@));
                    if !before.dom().contains(k@) {
                        let a = choose|a: int| 0 <= a < i && (#[trigger] listing@[a]).0@ == k@ && now > listing@[a].1;
                        assert(listing@[a].0@ != listing@[i as int].0@);
                    }
                }
                let _ = lru_pop(&mut self.cache, k.as_str());
                removed = removed + 1;
                proof {
                    assert forall|q: Seq<char>| #[trigger] self.contents().dom().contains(q)
                        <==> old(self).contents().dom().contains(q)
                            && !(exists|a: int| 0 <= a < i + 1 && (#[trigger] listing@[a]).0@ == q && now > listing@[a].1) by {
                        if q == k@ {
                            assert(listing@[i as int].0@ == q);
                        } else {
                            if exists|a: int| 0 <= a < i + 1 && (#[trigger] listing@[a]).0@ == q && now > listing@[a].1 {
                                let a = choose|a: int| 0 <= a < i + 1 && (#[trigger] listing@[a]).0@ == q && now > listing@[a].1;
                                assert(a < i);
                            }
                        }
                    }
                }
            } else {
                proof {
                    assert forall|q: Seq<char>| #[trigger] self.contents().dom().contains(q)
                        <==> old(self).contents().dom().contains(q)
                            && !(exists|a: int| 0 <= a < i + 1 && (#[trigger] listing@[a]).0@ == q && now > listing@[a].1) by {
                        if exists|a: int| 0 <= a < i + 1 && (#[trigger] listing@[a]).0@ == q && now > listing@[a].1 {
                            let a = choose|a: int| 0 <= a < i + 1 && (#[trigger] listing@[a]).0@ == q && now > listing@[a].1;
                            assert(a < i);
                        }
                    }
                }
            }
            i = i + 1;
        }
        proof {
            assert forall|k: Seq<char>| #[trigger] self.contents().dom().contains(k)
                <==> old(self).contents().dom().contains(k) && now <= old(self).contents()[k].2 by {
                if old(self).contents().dom().contains(k) {
                    let a = choose|a: int| 0 <= a < n && (#[trigger] listing@[a]).0@ == k;
                    if now > old(self).contents()[k].2 {
                        assert(listing@[a].0@ == k && now > listing@[a].1);
                    } else {
                        if exists|b: int| 0 <= b < n && (#[trigger] listing@[b]).0@ == k && now > listing@[b].1 {
                            let b = choose|b: int| 0 <= b < n && (#[trigger] listing@[b]).0@ == k && now > listing@[b].1;
                            assert(listing@[b].1 == old(self).contents()[k].2);
                        }
                    }
                }
            }
        }
        removed
    }
}

} // verus!
