//! Configuration: API keys with a shared fallback key, cache and metrics
//! settings, and reading or changing a setting by its dotted name.

use vstd::prelude::*;
use vstd::string::*;
use vstd::utf8::is_ascii_chars;
use crate::text::{str_eq, to_lowercase, lowercase_of, ascii_lower, string_of, dec, dec_string, push_str, push_char};
use crate::cli::parse::{parse_u64, parse_u64_text};
use crate::error::WarpError;
use crate::cache::join_path;

verus! {

/// Settings of one API.
#[derive(Debug, Clone)]
pub struct ApiConfig {
    /// API-specific key
    pub key: Option<String>,
}

/// Keys of the legal APIs.
#[derive(Debug, Clone)]
pub struct LawConfig {
    /// Key shared by every API that has none of its own
    pub key: Option<String>,
    pub nlic: ApiConfig,
    pub elis: ApiConfig,
    pub prec: ApiConfig,
    pub admrul: ApiConfig,
    pub expc: ApiConfig,
}

/// Cache settings.
#[derive(Debug, Clone)]
pub struct CacheConfig {
    /// Whether responses are cached (default: true)
    pub enabled: bool,
    /// Time to live in seconds (default: 86400)
    pub ttl_seconds: u64,
    /// Maximum size in MB (default: 100)
    pub max_size_mb: u64,
    /// Cache directory
    pub cache_dir: Option<String>,
}

/// Metrics settings.
#[derive(Debug, Clone)]
pub struct MetricsConfig {
    /// Whether metrics are collected (default: true)
    pub enabled: bool,
    /// Days metrics are kept (default: 30)
    pub retention_days: u32,
}

/// The application configuration.
#[derive(Debug, Clone)]
pub struct Config {
    pub law: LawConfig,
    pub cache: CacheConfig,
    pub metrics: MetricsConfig,
}

/// Text of an optional string.
pub open spec fn opt_view(o: Option<String>) -> Option<Seq<char>> {
    match o {
        Some(s) => Some(s@),
        None => None,
    }
}

/// The per-API key, else the shared key.
pub open spec fn key_or_shared(own: Option<String>, shared: Option<String>) -> Option<Seq<char>> {
    match own {
        Some(k) => Some(k@),
        None => opt_view(shared),
    }
}

fn clone_opt(o: &Option<String>) -> (res: Option<String>)
    ensures
        opt_view(res) == opt_view(*o),
{
    match o {
        Some(s) => Some(s.clone()),
        None => None,
    }
}

fn key_with_fallback(own: &Option<String>, shared: &Option<String>) -> (res: Option<String>)
    ensures
        opt_view(res) == key_or_shared(*own, *shared),
{
    match own {
        Some(k) => Some(k.clone()),
        None => clone_opt(shared),
    }
}

/// Default: caching on.
pub fn default_cache_enabled() -> (res: bool)
    ensures
        res == true,
{
    true
}

/// Default time to live: one day.
pub fn default_cache_ttl() -> (res: u64)
    ensures
        res == 86400,
{
    86400
}

/// Default maximum cache size: 100 MB.
pub fn default_cache_max_size() -> (res: u64)
    ensures
        res == 100,
{
    100
}

/// Default: metrics on.
pub fn default_metrics_enabled() -> (res: bool)
    ensures
        res == true,
{
    true
}

/// Default metrics retention: 30 days.
pub fn default_metrics_retention_days() -> (res: u32)
    ensures
        res == 30,
{
    30
}

/// The user's cache directory (`dirs::cache_dir`), as text. It depends on
/// the environment, so nothing is stated of it.
#[verifier::external_body]
pub(crate) fn user_cache_dir() -> Option<String> {
    dirs::cache_dir().map(|d| d.to_string_lossy().into_owned())
}

/// A path with one more component, joined by `/` unless the path already ends in one.
pub open spec fn path_join(base: Seq<char>, name: Seq<char>) -> Seq<char> {
    if base.len() > 0 && base.last() == '/' { base + name } else { base + seq!['/'] + name }
}

/// The user's home directory (`dirs::home_dir`), as text. It depends on the
/// environment, so nothing is stated of it.
#[verifier::external_body]
pub(crate) fn user_home_dir() -> Option<String> {
    dirs::home_dir().map(|d| d.to_string_lossy().into_owned())
}

/// The error given when no home directory is known.
pub open spec fn no_home_error(e: WarpError) -> bool {
    e matches WarpError::Config(m) && m@ == "Could not determine home directory"@
}

/// `pyhub-warp` inside a cache directory, or nothing without one.
pub open spec fn cache_dir_in(base: Option<String>) -> Option<Seq<char>> {
    match base {
        Some(b) => Some(path_join(b@, "pyhub-warp"@)),
        None => None,
    }
}

/// The application's directory inside the given cache directory, or
/// nothing when there is none.
pub fn cache_dir_under(base: Option<String>) -> (res: Option<String>)
    ensures
        match base {
            Some(b) => res matches Some(d) && d@ == path_join(b@, "pyhub-warp"@),
            None => res is None,
        },
        opt_view(res) == cache_dir_in(base),
{
    match base {
        Some(b) => Some(crate::cache::join_path(b, "pyhub-warp")),
        None => None,
    }
}

/// The default cache directory: `pyhub-warp` inside the user's cache
/// directory (which depends on the environment), nothing when there is none.
pub fn default_cache_dir() -> (res: Option<String>)
    ensures
        exists|base: Option<String>| opt_view(res) == cache_dir_in(base),
{
    let base = user_cache_dir();
    let res = cache_dir_under(base);
    assert(opt_view(res) == cache_dir_in(base));
    res
}

/// The database file `cache.db` in a directory, or the error of an unknown
/// cache directory.
pub open spec fn db_path_outcome(dir: Option<Seq<char>>, res: Result<String, WarpError>) -> bool {
    match dir {
        Some(d) => res matches Ok(p) && p@ == path_join(d, "cache.db"@),
        None => res matches Err(WarpError::Config(m)) && m@ == "Could not determine cache directory"@,
    }
}

/// The database file `cache.db` in the given directory; without one, the
/// error that the cache directory is unknown.
pub fn cache_db_path_in(dir: Option<String>) -> (res: Result<String, WarpError>)
    ensures
        db_path_outcome(opt_view(dir), res),
{
    match dir {
        Some(d) => Ok(crate::cache::join_path(d, "cache.db")),
        None => Err(WarpError::Config(string_of("Could not determine cache directory"))),
    }
}

impl CacheConfig {
    /// Caching on, one day, 100 MB, in the default cache directory.
    pub fn default() -> (res: CacheConfig)
        ensures
            res.enabled,
            res.ttl_seconds == 86400,
            res.max_size_mb == 100,
            exists|base: Option<String>| opt_view(res.cache_dir) == cache_dir_in(base),
    {
        CacheConfig {
            enabled: default_cache_enabled(),
            ttl_seconds: default_cache_ttl(),
            max_size_mb: default_cache_max_size(),
            cache_dir: default_cache_dir(),
        }
    }

    /// The maximum size in bytes.
    pub fn get_max_size_bytes(&self) -> (res: u64)
        requires
            self.max_size_mb * 1024 * 1024 <= u64::MAX,
        ensures
            res == self.max_size_mb * 1024 * 1024,
    {
        self.max_size_mb * 1024 * 1024
    }

    /// The time to live of an entry.
    pub fn get_ttl(&self) -> (res: crate::time::Duration)
        ensures
            res@ == self.ttl_seconds * 1_000_000_000,
    {
        crate::time::Duration::from_secs(self.ttl_seconds)
    }

    /// The cache database file: `cache.db` in the configured directory, or
    /// in the default cache directory; an error when neither is known.
    pub fn cache_db_path(&self) -> (res: Result<String, WarpError>)
        ensures
            self.cache_dir is Some ==> db_path_outcome(opt_view(self.cache_dir), res),
            self.cache_dir is None ==> exists|base: Option<String>| db_path_outcome(cache_dir_in(base), res),
    {
        match &self.cache_dir {
            Some(d) => cache_db_path_in(Some(d.clone())),
            None => {
                let dir = default_cache_dir();
                let res = cache_db_path_in(dir);
                proof {
                    let base = choose|base: Option<String>| opt_view(dir) == cache_dir_in(base);
                    assert(db_path_outcome(cache_dir_in(base), res));
                }
                res
            }
        }
    }

    /// The settings of the response cache: the size in bytes, the time to
    /// live, and the database file, `cache.db` in the working directory
    /// when no cache directory is known.
    pub fn to_cache_config(&self) -> (res: crate::cache::CacheConfig)
        requires
            self.max_size_mb * 1024 * 1024 <= u64::MAX,
        ensures
            res.max_size == self.max_size_mb * 1024 * 1024,
            res.default_ttl@ == self.ttl_seconds * 1_000_000_000,
            self.cache_dir matches Some(d) ==> res.db_path@ == path_join(d@, "cache.db"@),
            self.cache_dir is None ==> (res.db_path@ == "cache.db"@
                || exists|base: Seq<char>| res.db_path@ == path_join(path_join(base, "pyhub-warp"@), "cache.db"@)),
    {
        let db_path = match self.cache_db_path() {
            Ok(p) => p,
            Err(_) => string_of("cache.db"),
        };
        crate::cache::CacheConfig {
            max_size: self.get_max_size_bytes(),
            default_ttl: self.get_ttl(),
            db_path,
        }
    }
}

impl MetricsConfig {
    /// Metrics on, kept 30 days.
    pub fn default() -> (res: MetricsConfig)
        ensures
            res.enabled,
            res.retention_days == 30,
    {
        MetricsConfig { enabled: default_metrics_enabled(), retention_days: default_metrics_retention_days() }
    }
}

impl ApiConfig {
    /// No key.
    pub fn default() -> (res: ApiConfig)
        ensures
            res.key is None,
    {
        ApiConfig { key: None }
    }
}

impl LawConfig {
    /// No keys.
    pub fn default() -> (res: LawConfig)
        ensures
            res.key is None,
            res.nlic.key is None,
            res.elis.key is None,
            res.prec.key is None,
            res.admrul.key is None,
            res.expc.key is None,
    {
        LawConfig {
            key: None,
            nlic: ApiConfig::default(),
            elis: ApiConfig::default(),
            prec: ApiConfig::default(),
            admrul: ApiConfig::default(),
            expc: ApiConfig::default(),
        }
    }
}

/// What a configuration holds, with texts as character sequences.
pub struct ConfigModel {
    pub law_key: Option<Seq<char>>,
    pub nlic_key: Option<Seq<char>>,
    pub elis_key: Option<Seq<char>>,
    pub prec_key: Option<Seq<char>>,
    pub admrul_key: Option<Seq<char>>,
    pub expc_key: Option<Seq<char>>,
    pub cache_enabled: bool,
    pub ttl_seconds: u64,
    pub max_size_mb: u64,
    pub cache_dir: Option<Seq<char>>,
    pub metrics_enabled: bool,
    pub retention_days: u32,
}

/// The value of a named setting, as text.
pub open spec fn setting_text(c: ConfigModel, key: Seq<char>) -> Option<Seq<char>> {
    if key == "law.key"@ { c.law_key }
    else if key == "law.nlic.key"@ { c.nlic_key }
    else if key == "law.elis.key"@ { c.elis_key }
    else if key == "law.prec.key"@ { c.prec_key }
    else if key == "law.admrul.key"@ { c.admrul_key }
    else if key == "law.expc.key"@ { c.expc_key }
    else if key == "cache.enabled"@ { Some(if c.cache_enabled { "true"@ } else { "false"@ }) }
    else if key == "cache.ttl_seconds"@ { Some(dec(c.ttl_seconds as nat)) }
    else if key == "cache.max_size_mb"@ { Some(dec(c.max_size_mb as nat)) }
    else if key == "cache.cache_dir"@ { c.cache_dir }
    else { None }
}

/// What `str::parse::<bool>` accepts.
pub open spec fn parse_bool_text(s: Seq<char>) -> Option<bool> {
    if s == "true"@ { Some(true) } else if s == "false"@ { Some(false) } else { None }
}

/// The settings that `set` knows.
pub open spec fn known_setting(key: Seq<char>) -> bool {
    key == "law.key"@ || key == "law.nlic.key"@ || key == "law.elis.key"@ || key == "law.prec.key"@
        || key == "law.admrul.key"@ || key == "law.expc.key"@ || key == "cache.enabled"@
        || key == "cache.ttl_seconds"@ || key == "cache.max_size_mb"@ || key == "cache.cache_dir"@
}

/// Whether `set` rejects the value of a known setting.
pub open spec fn value_rejected(key: Seq<char>, value: Seq<char>) -> bool {
    (key == "cache.enabled"@ && parse_bool_text(value) is None)
        || ((key == "cache.ttl_seconds"@ || key == "cache.max_size_mb"@) && parse_u64_text(value) is None)
}

/// The configuration after an accepted setting of `key` to `value`.
pub open spec fn apply_setting(c: ConfigModel, key: Seq<char>, value: Seq<char>) -> ConfigModel {
    if key == "law.key"@ { ConfigModel { law_key: Some(value), ..c } }
    else if key == "law.nlic.key"@ { ConfigModel { nlic_key: Some(value), ..c } }
    else if key == "law.elis.key"@ { ConfigModel { elis_key: Some(value), ..c } }
    else if key == "law.prec.key"@ { ConfigModel { prec_key: Some(value), ..c } }
    else if key == "law.admrul.key"@ { ConfigModel { admrul_key: Some(value), ..c } }
    else if key == "law.expc.key"@ { ConfigModel { expc_key: Some(value), ..c } }
    else if key == "cache.enabled"@ { ConfigModel { cache_enabled: parse_bool_text(value).unwrap(), ..c } }
    else if key == "cache.ttl_seconds"@ { ConfigModel { ttl_seconds: parse_u64_text(value).unwrap(), ..c } }
    else if key == "cache.max_size_mb"@ { ConfigModel { max_size_mb: parse_u64_text(value).unwrap(), ..c } }
    else if key == "cache.cache_dir"@ { ConfigModel { cache_dir: Some(value), ..c } }
    else { c }
}

/// The message of the error that `set` gives for a refused setting.
pub open spec fn set_error_message(key: Seq<char>, value: Seq<char>) -> Seq<char> {
    if !known_setting(key) { "Unknown configuration key: "@ + key }
    else if key == "cache.enabled"@ { "Invalid boolean value: "@ + value }
    else if key == "cache.ttl_seconds"@ { "Invalid TTL seconds value: "@ + value }
    else { "Invalid cache size value: "@ + value }
}

/// A key setting read back after it was set gives the value that was set;
/// a boolean or number setting gives the canonical text of the parsed value.
pub proof fn lemma_get_after_set(c: ConfigModel, key: Seq<char>, value: Seq<char>)
    requires
        known_setting(key),
        !value_rejected(key, value),
    ensures
        setting_text(apply_setting(c, key, value), key) == (
            if key == "cache.enabled"@ { Some(if parse_bool_text(value).unwrap() { "true"@ } else { "false"@ }) }
            else if key == "cache.ttl_seconds"@ || key == "cache.max_size_mb"@ { Some(dec(parse_u64_text(value).unwrap() as nat)) }
            else { Some(value) }
        ),
{
    lemma_setting_names_distinct();
}

/// The setting names differ from one another.
proof fn lemma_setting_names_distinct()
    ensures
        "law.key"@ != "law.nlic.key"@,
        "law.key"@ != "law.elis.key"@,
        "law.key"@ != "law.prec.key"@,
        "law.key"@ != "law.admrul.key"@,
        "law.key"@ != "law.expc.key"@,
        "law.key"@ != "cache.enabled"@,
        "law.key"@ != "cache.ttl_seconds"@,
        "law.key"@ != "cache.max_size_mb"@,
        "law.key"@ != "cache.cache_dir"@,
        "law.nlic.key"@ != "law.elis.key"@,
        "law.nlic.key"@ != "law.prec.key"@,
        "law.nlic.key"@ != "law.admrul.key"@,
        "law.nlic.key"@ != "law.expc.key"@,
        "law.nlic.key"@ != "cache.enabled"@,
        "law.nlic.key"@ != "cache.ttl_seconds"@,
        "law.nlic.key"@ != "cache.max_size_mb"@,
        "law.nlic.key"@ != "cache.cache_dir"@,
        "law.elis.key"@ != "law.prec.key"@,
        "law.elis.key"@ != "law.admrul.key"@,
        "law.elis.key"@ != "law.expc.key"@,
        "law.elis.key"@ != "cache.enabled"@,
        "law.elis.key"@ != "cache.ttl_seconds"@,
        "law.elis.key"@ != "cache.max_size_mb"@,
        "law.elis.key"@ != "cache.cache_dir"@,
        "law.prec.key"@ != "law.admrul.key"@,
        "law.prec.key"@ != "law.expc.key"@,
        "law.prec.key"@ != "cache.enabled"@,
        "law.prec.key"@ != "cache.ttl_seconds"@,
        "law.prec.key"@ != "cache.max_size_mb"@,
        "law.prec.key"@ != "cache.cache_dir"@,
        "law.admrul.key"@ != "law.expc.key"@,
        "law.admrul.key"@ != "cache.enabled"@,
        "law.admrul.key"@ != "cache.ttl_seconds"@,
        "law.admrul.key"@ != "cache.max_size_mb"@,
        "law.admrul.key"@ != "cache.cache_dir"@,
        "law.expc.key"@ != "cache.enabled"@,
        "law.expc.key"@ != "cache.ttl_seconds"@,
        "law.expc.key"@ != "cache.max_size_mb"@,
        "law.expc.key"@ != "cache.cache_dir"@,
        "cache.enabled"@ != "cache.ttl_seconds"@,
        "cache.enabled"@ != "cache.max_size_mb"@,
        "cache.enabled"@ != "cache.cache_dir"@,
        "cache.ttl_seconds"@ != "cache.max_size_mb"@,
        "cache.ttl_seconds"@ != "cache.cache_dir"@,
        "cache.max_size_mb"@ != "cache.cache_dir"@,
{
    reveal_strlit("law.key");
    reveal_strlit("law.nlic.key");
    reveal_strlit("law.elis.key");
    reveal_strlit("law.prec.key");
    reveal_strlit("law.admrul.key");
    reveal_strlit("law.expc.key");
    reveal_strlit("cache.enabled");
    reveal_strlit("cache.ttl_seconds");
    reveal_strlit("cache.max_size_mb");
    reveal_strlit("cache.cache_dir");
    assert("law.key"@.len() != "law.nlic.key"@.len());
    assert("law.key"@.len() != "law.elis.key"@.len());
    assert("law.key"@.len() != "law.prec.key"@.len());
    assert("law.key"@.len() != "law.admrul.key"@.len());
    assert("law.key"@.len() != "law.expc.key"@.len());
    assert("law.key"@.len() != "cache.enabled"@.len());
    assert("law.key"@.len() != "cache.ttl_seconds"@.len());
    assert("law.key"@.len() != "cache.max_size_mb"@.len());
    assert("law.key"@.len() != "cache.cache_dir"@.len());
    assert("law.nlic.key"@[4] != "law.elis.key"@[4]);
    assert("law.nlic.key"@[4] != "law.prec.key"@[4]);
    assert("law.nlic.key"@.len() != "law.admrul.key"@.len());
    assert("law.nlic.key"@[4] != "law.expc.key"@[4]);
    assert("law.nlic.key"@.len() != "cache.enabled"@.len());
    assert("law.nlic.key"@.len() != "cache.ttl_seconds"@.len());
    assert("law.nlic.key"@.len() != "cache.max_size_mb"@.len());
    assert("law.nlic.key"@.len() != "cache.cache_dir"@.len());
    assert("law.elis.key"@[4] != "law.prec.key"@[4]);
    assert("law.elis.key"@.len() != "law.admrul.key"@.len());
    assert("law.elis.key"@[5] != "law.expc.key"@[5]);
    assert("law.elis.key"@.len() != "cache.enabled"@.len());
    assert("law.elis.key"@.len() != "cache.ttl_seconds"@.len());
    assert("law.elis.key"@.len() != "cache.max_size_mb"@.len());
    assert("law.elis.key"@.len() != "cache.cache_dir"@.len());
    assert("law.prec.key"@.len() != "law.admrul.key"@.len());
    assert("law.prec.key"@[4] != "law.expc.key"@[4]);
    assert("law.prec.key"@.len() != "cache.enabled"@.len());
    assert("law.prec.key"@.len() != "cache.ttl_seconds"@.len());
    assert("law.prec.key"@.len() != "cache.max_size_mb"@.len());
    assert("law.prec.key"@.len() != "cache.cache_dir"@.len());
    assert("law.admrul.key"@.len() != "law.expc.key"@.len());
    assert("law.admrul.key"@.len() != "cache.enabled"@.len());
    assert("law.admrul.key"@.len() != "cache.ttl_seconds"@.len());
    assert("law.admrul.key"@.len() != "cache.max_size_mb"@.len());
    assert("law.admrul.key"@.len() != "cache.cache_dir"@.len());
    assert("law.expc.key"@.len() != "cache.enabled"@.len());
    assert("law.expc.key"@.len() != "cache.ttl_seconds"@.len());
    assert("law.expc.key"@.len() != "cache.max_size_mb"@.len());
    assert("law.expc.key"@.len() != "cache.cache_dir"@.len());
    assert("cache.enabled"@.len() != "cache.ttl_seconds"@.len());
    assert("cache.enabled"@.len() != "cache.max_size_mb"@.len());
    assert("cache.enabled"@.len() != "cache.cache_dir"@.len());
    assert("cache.ttl_seconds"@[6] != "cache.max_size_mb"@[6]);
    assert("cache.ttl_seconds"@.len() != "cache.cache_dir"@.len());
    assert("cache.max_size_mb"@.len() != "cache.cache_dir"@.len());
}

/// Setting one key leaves every other setting as it was.
pub proof fn lemma_set_keeps_others(c: ConfigModel, key: Seq<char>, value: Seq<char>, other: Seq<char>)
    requires
        known_setting(key),
        !value_rejected(key, value),
        other != key,
    ensures
        setting_text(apply_setting(c, key, value), other) == setting_text(c, other),
{
    lemma_setting_names_distinct();
}

fn parse_bool(s: &str) -> (res: Option<bool>)
    ensures
        res == parse_bool_text(s@),
{
    if str_eq(s, "true") { Some(true) } else if str_eq(s, "false") { Some(false) } else { None }
}

fn config_error(prefix: &str, value: &str) -> (res: WarpError)
    ensures
        res matches WarpError::Config(m) && m@ == prefix@ + value@,
{
    let mut m = string_of(prefix);
    push_str(&mut m, value);
    WarpError::Config(m)
}

/// The key an API name (already lowercased) selects: the API's own key or
/// else the shared key; names of no API select the shared key.
pub open spec fn api_key_for(c: Config, l: Seq<char>) -> Option<Seq<char>> {
    if l == "nlic"@ { key_or_shared(c.law.nlic.key, c.law.key) }
    else if l == "elis"@ { key_or_shared(c.law.elis.key, c.law.key) }
    else if l == "prec"@ { key_or_shared(c.law.prec.key, c.law.key) }
    else if l == "admrul"@ { key_or_shared(c.law.admrul.key, c.law.key) }
    else if l == "expc"@ { key_or_shared(c.law.expc.key, c.law.key) }
    else { opt_view(c.law.key) }
}

/// A setting name such as `law.nlic.key` is ASCII, already lowercase, and
/// names no API, so looking an API key up by it gives the shared key.
pub proof fn lemma_setting_names_not_api_names(c: Config, n: Seq<char>)
    requires
        n == "law.nlic.key"@ || n == "law.elis.key"@ || n == "law.prec.key"@ || n == "law.admrul.key"@
            || n == "law.expc.key"@ || n == "law.key"@,
    ensures
        is_ascii_chars(n),
        api_key_for(c, ascii_lower(n)) == opt_view(c.law.key),
{
    reveal_strlit("law.nlic.key");
    reveal_strlit("law.elis.key");
    reveal_strlit("law.prec.key");
    reveal_strlit("law.admrul.key");
    reveal_strlit("law.expc.key");
    reveal_strlit("law.key");
    reveal_strlit("nlic");
    reveal_strlit("elis");
    reveal_strlit("prec");
    reveal_strlit("admrul");
    reveal_strlit("expc");
    assert(ascii_lower(n) =~= n);
    assert(n[0] == 'l');
    assert("nlic"@[0] != 'l');
    assert("elis"@[0] != 'l');
    assert("prec"@[0] != 'l');
    assert("admrul"@[0] != 'l');
    assert("expc"@[0] != 'l');
}

impl Config {
    /// The configuration directory: `.pyhub/warp` inside the home directory,
    /// or a configuration error when no home directory is known.
    pub fn config_path() -> (res: Result<String, WarpError>)
        ensures
            match res {
                Ok(p) => exists|home: Seq<char>| p@ == path_join(home, ".pyhub/warp"@),
                Err(e) => no_home_error(e),
            },
    {
        match user_home_dir() {
            Some(home) => {
                let ghost h = home@;
                let p = join_path(home, ".pyhub/warp");
                assert(p@ == path_join(h, ".pyhub/warp"@));
                Ok(p)
            }
            None => Err(WarpError::Config(string_of("Could not determine home directory"))),
        }
    }

    /// The configuration file: `config.toml` in the configuration directory.
    pub fn config_file_path() -> (res: Result<String, WarpError>)
        ensures
            match res {
                Ok(p) => exists|home: Seq<char>| p@ == path_join(path_join(home, ".pyhub/warp"@), "config.toml"@),
                Err(e) => no_home_error(e),
            },
    {
        let dir = Self::config_path()?;
        let ghost d = dir@;
        let p = join_path(dir, "config.toml");
        assert(p@ == path_join(d, "config.toml"@));
        Ok(p)
    }

    /// Same as `config_file_path`.
    pub fn get_config_path() -> (res: Result<String, WarpError>)
        ensures
            match res {
                Ok(p) => exists|home: Seq<char>| p@ == path_join(path_join(home, ".pyhub/warp"@), "config.toml"@),
                Err(e) => no_home_error(e),
            },
    {
        Self::config_file_path()
    }

    /// The configuration file of earlier releases: `config.yaml` in the
    /// configuration directory.
    pub fn legacy_config_file_path() -> (res: Result<String, WarpError>)
        ensures
            match res {
                Ok(p) => exists|home: Seq<char>| p@ == path_join(path_join(home, ".pyhub/warp"@), "config.yaml"@),
                Err(e) => no_home_error(e),
            },
    {
        let dir = Self::config_path()?;
        let ghost d = dir@;
        let p = join_path(dir, "config.yaml");
        assert(p@ == path_join(d, "config.yaml"@));
        Ok(p)
    }

    /// What the configuration holds.
    pub open spec fn model(self) -> ConfigModel {
        ConfigModel {
            law_key: opt_view(self.law.key),
            nlic_key: opt_view(self.law.nlic.key),
            elis_key: opt_view(self.law.elis.key),
            prec_key: opt_view(self.law.prec.key),
            admrul_key: opt_view(self.law.admrul.key),
            expc_key: opt_view(self.law.expc.key),
            cache_enabled: self.cache.enabled,
            ttl_seconds: self.cache.ttl_seconds,
            max_size_mb: self.cache.max_size_mb,
            cache_dir: opt_view(self.cache.cache_dir),
            metrics_enabled: self.metrics.enabled,
            retention_days: self.metrics.retention_days,
        }
    }

    /// Default keys (none), cache and metrics settings.
    pub fn default() -> (res: Config)
        ensures
            res.law.key is None,
            res.law.nlic.key is None,
            res.law.elis.key is None,
            res.law.prec.key is None,
            res.law.admrul.key is None,
            res.law.expc.key is None,
            res.cache.enabled,
            res.cache.ttl_seconds == 86400,
            res.cache.max_size_mb == 100,
            res.metrics.enabled,
            res.metrics.retention_days == 30,
    {
        Config { law: LawConfig::default(), cache: CacheConfig::default(), metrics: MetricsConfig::default() }
    }

    /// The NLIC key, else the shared key.
    pub fn get_nlic_api_key(&self) -> (res: Option<String>)
        ensures
            opt_view(res) == key_or_shared(self.law.nlic.key, self.law.key),
    {
        key_with_fallback(&self.law.nlic.key, &self.law.key)
    }

    /// The ELIS key, else the shared key.
    pub fn get_elis_api_key(&self) -> (res: Option<String>)
        ensures
            opt_view(res) == key_or_shared(self.law.elis.key, self.law.key),
    {
        key_with_fallback(&self.law.elis.key, &self.law.key)
    }

    /// The PREC key, else the shared key.
    pub fn get_prec_api_key(&self) -> (res: Option<String>)
        ensures
            opt_view(res) == key_or_shared(self.law.prec.key, self.law.key),
    {
        key_with_fallback(&self.law.prec.key, &self.law.key)
    }

    /// The ADMRUL key, else the shared key.
    pub fn get_admrul_api_key(&self) -> (res: Option<String>)
        ensures
            opt_view(res) == key_or_shared(self.law.admrul.key, self.law.key),
    {
        key_with_fallback(&self.law.admrul.key, &self.law.key)
    }

    /// The EXPC key, else the shared key.
    pub fn get_expc_api_key(&self) -> (res: Option<String>)
        ensures
            opt_view(res) == key_or_shared(self.law.expc.key, self.law.key),
    {
        key_with_fallback(&self.law.expc.key, &self.law.key)
    }

    /// The key of an API given by name (any case); unknown names get the shared key.
    pub fn get_api_key(&self, api_type: &str) -> (res: Option<String>)
        ensures
            opt_view(res) == api_key_for(*self, lowercase_of(api_type@)),
            is_ascii_chars(api_type@) ==> opt_view(res) == api_key_for(*self, ascii_lower(api_type@)),
    {
        let lowered = to_lowercase(api_type);
        let l = lowered.as_str();
        if str_eq(l, "nlic") { self.get_nlic_api_key() }
        else if str_eq(l, "elis") { self.get_elis_api_key() }
        else if str_eq(l, "prec") { self.get_prec_api_key() }
        else if str_eq(l, "admrul") { self.get_admrul_api_key() }
        else if str_eq(l, "expc") { self.get_expc_api_key() }
        else { clone_opt(&self.law.key) }
    }

    /// The value of a setting by its dotted name, as text.
    pub fn get(&self, key: &str) -> (res: Option<String>)
        ensures
            opt_view(res) == setting_text(self.model(), key@),
    {
        if str_eq(key, "law.key") { clone_opt(&self.law.key) }
        else if str_eq(key, "law.nlic.key") { clone_opt(&self.law.nlic.key) }
        else if str_eq(key, "law.elis.key") { clone_opt(&self.law.elis.key) }
        else if str_eq(key, "law.prec.key") { clone_opt(&self.law.prec.key) }
        else if str_eq(key, "law.admrul.key") { clone_opt(&self.law.admrul.key) }
        else if str_eq(key, "law.expc.key") { clone_opt(&self.law.expc.key) }
        else if str_eq(key, "cache.enabled") {
            Some(if self.cache.enabled { string_of("true") } else { string_of("false") })
        }
        else if str_eq(key, "cache.ttl_seconds") { Some(dec_string(self.cache.ttl_seconds)) }
        else if str_eq(key, "cache.max_size_mb") { Some(dec_string(self.cache.max_size_mb)) }
        else if str_eq(key, "cache.cache_dir") { clone_opt(&self.cache.cache_dir) }
        else { None }
    }

    /// Changes a setting by its dotted name. Unknown names and values that
    /// do not parse are refused and leave the configuration as it was.
    /// Persisting the configuration is up to the caller.
    pub fn set(&mut self, key: &str, value: &str) -> (res: Result<(), WarpError>)
        ensures
            res is Ok <==> known_setting(key@) && !value_rejected(key@, value@),
            res is Ok ==> final(self).model() == apply_setting(old(self).model(), key@, value@),
            res matches Err(e) ==> e matches WarpError::Config(m) && m@ == set_error_message(key@, value@),
            res is Err ==> *final(self) == *old(self),
    {
        if str_eq(key, "law.key") {
            self.law.key = Some(string_of(value));
        } else if str_eq(key, "law.nlic.key") {
            self.law.nlic.key = Some(string_of(value));
        } else if str_eq(key, "law.elis.key") {
            self.law.elis.key = Some(string_of(value));
        } else if str_eq(key, "law.prec.key") {
            self.law.prec.key = Some(string_of(value));
        } else if str_eq(key, "law.admrul.key") {
            self.law.admrul.key = Some(string_of(value));
        } else if str_eq(key, "law.expc.key") {
            self.law.expc.key = Some(string_of(value));
        } else if str_eq(key, "cache.enabled") {
            match parse_bool(value) {
                Some(b) => { self.cache.enabled = b; }
                None => { return Err(config_error("Invalid boolean value: ", value)); }
            }
        } else if str_eq(key, "cache.ttl_seconds") {
            match parse_u64(value) {
                Some(v) => { self.cache.ttl_seconds = v; }
                None => { return Err(config_error("Invalid TTL seconds value: ", value)); }
            }
        } else if str_eq(key, "cache.max_size_mb") {
            match parse_u64(value) {
                Some(v) => { self.cache.max_size_mb = v; }
                None => { return Err(config_error("Invalid cache size value: ", value)); }
            }
        } else if str_eq(key, "cache.cache_dir") {
            self.cache.cache_dir = Some(string_of(value));
        } else {
            return Err(config_error("Unknown configuration key: ", key));
        }
        proof { lemma_setting_names_distinct(); }
        Ok(())
    }
}

} // verus!
