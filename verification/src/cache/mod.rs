//! Caching support: deterministic cache keys for API requests, the entries
//! and settings of the persistent response cache, and the decisions the cache
//! makes about expiry and eviction.

pub mod key;
pub mod tiered;

use vstd::prelude::*;
use crate::api::ApiType;
use crate::config::{user_cache_dir, path_join};
use crate::text::{string_of, push_str, push_char};
use crate::time::Duration;

verus! {

/// Settings of the persistent response cache.
#[derive(Debug, Clone)]
pub struct CacheConfig {
    /// Maximum cache size in bytes (default: 100MB)
    pub max_size: u64,
    /// Default time to live of an entry (default: 24 hours)
    pub default_ttl: Duration,
    /// Database file path
    pub db_path: String,
}

/// The default database file: `warp/cache.db` in the user's cache
/// directory, or in the current directory when there is none.
pub open spec fn default_db_path(base: Option<String>) -> Seq<char> {
    let dir = match base {
        Some(b) => b@,
        None => "."@,
    };
    path_join(path_join(dir, "warp"@), "cache.db"@)
}

pub(crate) fn join_path(base: String, name: &str) -> (res: String)
    ensures
        res@ == path_join(base@, name@),
{
    let n = base.as_str().unicode_len();
    let ends_with_slash = n > 0 && base.as_str().get_char(n - 1) == '/';
    let mut out = base;
    if !ends_with_slash {
        push_char(&mut out, '/');
    }
    push_str(&mut out, name);
    out
}

/// The database file `warp/cache.db` in the given cache directory, or in
/// the current directory without one.
pub fn db_path_under(base: Option<String>) -> (res: String)
    ensures
        res@ == default_db_path(base),
{
    let dir = match &base {
        Some(b) => b.clone(),
        None => string_of("."),
    };
    let db_path = join_path(join_path(dir, "warp"), "cache.db");
    proof { reveal_strlit("."); }
    db_path
}

impl CacheConfig {
    /// 100 MB, entries kept for a day, the database in the user's cache
    /// directory.
    pub fn default() -> (res: CacheConfig)
        ensures
            res.max_size == 100 * 1024 * 1024,
            res.default_ttl@ == 24 * 3600 * 1_000_000_000int,
            exists|base: Option<String>| res.db_path@ == default_db_path(base),
    {
        let base = user_cache_dir();
        let db_path = db_path_under(base);
        CacheConfig { max_size: 100 * 1024 * 1024, default_ttl: Duration::from_secs(24 * 3600), db_path }
    }

    /// How many bytes must be freed before storing `needed` more bytes
    /// when `current_size` are in use: nothing while the total stays within
    /// the maximum, else the excess.
    pub fn space_to_free(&self, current_size: u64, needed: u64) -> (res: u64)
        requires
            current_size + needed <= u64::MAX,
            current_size + needed > self.max_size ==> needed <= self.max_size,
        ensures
            res == if current_size + needed <= self.max_size { 0 } else { current_size + needed - self.max_size },
    {
        if current_size + needed > self.max_size {
            let target_size = self.max_size - needed;
            if current_size <= target_size {
                return 0;
            }
            current_size - target_size
        } else {
            0
        }
    }

    /// The entry that stores `data` under `key` at time `now` (milliseconds
    /// since the Unix epoch), kept for `ttl` or, without one, for the
    /// default time to live, counted in whole milliseconds.
    pub fn entry_for(&self, key: &str, data: Vec<u8>, api_type: ApiType, ttl: Option<Duration>, now: i64) -> (res: CacheEntry)
        requires
            now + (match ttl { Some(t) => t@, None => self.default_ttl@ }) / 1_000_000 <= i64::MAX,
        ensures
            res.key@ == key@,
            res.data@ == data@,
            res.created_at == now,
            res.expires_at == now + (match ttl { Some(t) => t@, None => self.default_ttl@ }) / 1_000_000,
            res.api_type == api_type,
            res.size == data@.len(),
    {
        let ttl = match ttl {
            Some(t) => t,
            None => self.default_ttl,
        };
        let ttl_millis = ttl.as_millis();
        proof { Duration::lemma_range(ttl); }
        let expires_at = ((now as i128) + (ttl_millis as i128)) as i64;
        let size = data.len() as u64;
        CacheEntry { key: string_of(key), data, created_at: now, expires_at, api_type, size }
    }
}

/// One stored response. Times are milliseconds since the Unix epoch (UTC).
#[derive(Debug, Clone)]
pub struct CacheEntry {
    pub key: String,
    pub data: Vec<u8>,
    pub created_at: i64,
    pub expires_at: i64,
    pub api_type: ApiType,
    pub size: u64,
}

impl CacheEntry {
    /// Whether the entry has expired at time `now`: strictly after its
    /// expiry time.
    pub fn is_expired_at(&self, now: i64) -> (res: bool)
        ensures
            res == (now > self.expires_at),
    {
        now > self.expires_at
    }

    /// Whether the entry is still valid at time `now`.
    pub fn is_valid_at(&self, now: i64) -> (res: bool)
        ensures
            res == (now <= self.expires_at),
    {
        !self.is_expired_at(now)
    }

    /// Whether the entry has expired by the clock. The answer depends on the
    /// clock; an entry that expires at the last representable time never
    /// counts as expired.
    pub fn is_expired(&self) -> (res: bool)
        ensures
            self.expires_at == i64::MAX ==> !res,
    {
        self.is_expired_at(crate::clock::now_millis())
    }

    /// Whether the entry is still valid by the clock; the negation of
    /// `is_expired` at the moment of the reading.
    pub fn is_valid(&self) -> (res: bool)
        ensures
            self.expires_at == i64::MAX ==> res,
    {
        !self.is_expired()
    }
}

/// Counters of the persistent cache.
#[derive(Debug, Clone, Copy)]
pub struct CacheStats {
    pub total_entries: u64,
    pub expired_entries: u64,
    pub total_size: u64,
    pub max_size: u64,
}

/// The sum of the sizes of the first `n` entries.
pub open spec fn sizes_sum(entries: Seq<(String, u64)>, n: int) -> int
    decreases n,
{
    if n <= 0 { 0 } else { sizes_sum(entries, n - 1) + entries[n - 1].1 }
}

/// How many of the least recently used entries eviction deletes: the
/// shortest prefix whose sizes reach `space_to_free`, at least one entry
/// when there is one, or all of them when they never reach it.
pub open spec fn victims_count(entries: Seq<(String, u64)>, space_to_free: u64) -> int {
    if exists|n: int| 1 <= n <= entries.len() && sizes_sum(entries, n) >= space_to_free {
        choose|n: int| 1 <= n <= entries.len() && sizes_sum(entries, n) >= space_to_free
            && forall|m: int| 1 <= m < n ==> sizes_sum(entries, m) < space_to_free
    } else {
        entries.len() as int
    }
}

proof fn lemma_sizes_sum_monotone(entries: Seq<(String, u64)>, a: int, b: int)
    requires
        0 <= a <= b,
    ensures
        sizes_sum(entries, a) <= sizes_sum(entries, b),
    decreases b - a,
{
    if a < b {
        lemma_sizes_sum_monotone(entries, a, b - 1);
    }
}

/// The keys to delete to free `space_to_free` bytes, given the entries as
/// (key, size) from the least recently used on: keys are taken in that
/// order until the freed sizes reach the amount.
pub fn select_lru_victims(entries: &Vec<(String, u64)>, space_to_free: u64) -> (keys: Vec<String>)
    requires
        sizes_sum(entries@, entries@.len() as int) <= u64::MAX,
    ensures
        keys@.len() == victims_count(entries@, space_to_free),
        forall|i: int| 0 <= i < keys@.len() ==> (#[trigger] keys@[i])@ == entries@[i].0@,
{
    let n = entries.len();
    let mut keys: Vec<String> = Vec::new();
    let mut freed: u64 = 0;
    let mut i: usize = 0;
    while i < n
        invariant
            n == entries@.len(),
            sizes_sum(entries@, n as int) <= u64::MAX,
            i <= n,
            freed == sizes_sum(entries@, i as int),
            keys@.len() == i,
            forall|j: int| 0 <= j < i ==> (#[trigger] keys@[j])@ == entries@[j].0@,
            forall|m: int| 1 <= m <= i ==> sizes_sum(entries@, m) < space_to_free,
        decreases n - i,
    {
        proof { lemma_sizes_sum_monotone(entries@, i + 1, n as int); }
        keys.push(entries[i].0.clone());
        freed = freed + entries[i].1;
        i = i + 1;
        if freed >= space_to_free {
            assert(victims_count(entries@, space_to_free) == i) by {
                let w = i as int;
                assert(1 <= w <= entries@.len() && sizes_sum(entries@, w) >= space_to_free);
                let c = choose|c: int| 1 <= c <= entries@.len() && sizes_sum(entries@, c) >= space_to_free
                    && forall|m: int| 1 <= m < c ==> sizes_sum(entries@, m) < space_to_free;
                if c < w {} else if c > w { assert(sizes_sum(entries@, w) < space_to_free); }
            }
            return keys;
        }
    }
    assert(victims_count(entries@, space_to_free) == n) by {
        if exists|c: int| 1 <= c <= entries@.len() && sizes_sum(entries@, c) >= space_to_free {
            let c = choose|c: int| 1 <= c <= entries@.len() && sizes_sum(entries@, c) >= space_to_free;
            assert(sizes_sum(entries@, c) < space_to_free);
        }
    }
    keys
}

} // verus!
