//! Settings of the optimized parallel search command.

use vstd::prelude::*;
use crate::api::ApiType;
use crate::api::types::{SearchItem, SearchResponse};
use crate::cli::OutputFormat;
use crate::text::str_eq;
use crate::time::Duration;

verus! {

/// What the parallel search optimizes.
#[derive(Debug, Clone)]
pub struct ParallelSearchConfig {
    /// Search several APIs at once
    pub enable_parallel_apis: bool,
    /// Batch and deduplicate requests
    pub enable_batching: bool,
    /// Use the tiered cache
    pub enable_tiered_cache: bool,
    /// Maximum number of concurrent API requests
    pub max_concurrent_requests: usize,
    /// APIs to search in parallel
    pub apis_to_search: Vec<ApiType>,
    /// Prefetch predicted requests
    pub enable_prefetching: bool,
}

impl Default for ParallelSearchConfig {
    /// Everything on but prefetching, five requests at a time, over the
    /// NLIC, ELIS and PREC databases.
    fn default() -> (res: Self)
        ensures
            res.enable_parallel_apis,
            res.enable_batching,
            res.enable_tiered_cache,
            res.max_concurrent_requests == 5,
            res.apis_to_search@ == seq![ApiType::Nlic, ApiType::Elis, ApiType::Prec],
            !res.enable_prefetching,
    {
        let apis = vec![ApiType::Nlic, ApiType::Elis, ApiType::Prec];
        assert(apis@ =~= seq![ApiType::Nlic, ApiType::Elis, ApiType::Prec]);
        ParallelSearchConfig {
            enable_parallel_apis: true,
            enable_batching: true,
            enable_tiered_cache: true,
            max_concurrent_requests: 5,
            apis_to_search: apis,
            enable_prefetching: false,
        }
    }
}

/// A search with its optimization settings.
#[derive(Debug, Clone)]
pub struct EnhancedSearchParams {
    pub query: String,
    pub page: u32,
    pub size: u32,
    pub law_type: Option<String>,
    pub department: Option<String>,
    pub format: OutputFormat,
    pub parallel_config: ParallelSearchConfig,
    pub timeout: Duration,
}

/// A search with the default optimizations and a 30 s timeout.
pub fn create_enhanced_search_params(
    query: String,
    page: u32,
    size: u32,
    law_type: Option<String>,
    department: Option<String>,
    format: OutputFormat,
) -> (res: EnhancedSearchParams)
    ensures
        res.query == query,
        res.page == page,
        res.size == size,
        res.law_type == law_type,
        res.department == department,
        res.format == format,
        res.parallel_config.enable_parallel_apis,
        res.parallel_config.enable_batching,
        res.parallel_config.enable_tiered_cache,
        res.parallel_config.max_concurrent_requests == 5,
        res.parallel_config.apis_to_search@ == seq![ApiType::Nlic, ApiType::Elis, ApiType::Prec],
        !res.parallel_config.enable_prefetching,
        res.timeout@ == 30_000_000_000,
{
    EnhancedSearchParams {
        query,
        page,
        size,
        law_type,
        department,
        format,
        parallel_config: ParallelSearchConfig::default(),
        timeout: Duration::from_secs(30),
    }
}

/// The search with batching and the tiered cache switched as given, and
/// the concurrency limit replaced when one is given.
pub fn enable_optimizations(
    params: EnhancedSearchParams,
    enable_batching: bool,
    enable_tiered_cache: bool,
    max_concurrent: Option<usize>,
) -> (res: EnhancedSearchParams)
    ensures
        res.query == params.query,
        res.page == params.page,
        res.size == params.size,
        res.law_type == params.law_type,
        res.department == params.department,
        res.format == params.format,
        res.timeout == params.timeout,
        res.parallel_config.enable_parallel_apis == params.parallel_config.enable_parallel_apis,
        res.parallel_config.enable_batching == enable_batching,
        res.parallel_config.enable_tiered_cache == enable_tiered_cache,
        res.parallel_config.max_concurrent_requests == match max_concurrent {
            Some(m) => m,
            None => params.parallel_config.max_concurrent_requests,
        },
        res.parallel_config.apis_to_search == params.parallel_config.apis_to_search,
        res.parallel_config.enable_prefetching == params.parallel_config.enable_prefetching,
{
    let mut params = params;
    params.parallel_config.enable_batching = enable_batching;
    params.parallel_config.enable_tiered_cache = enable_tiered_cache;
    match max_concurrent {
        Some(m) => { params.parallel_config.max_concurrent_requests = m; }
        None => {}
    }
    params
}

/// Two results name the same entry: equal titles and equal law numbers.
pub open spec fn same_entry(a: SearchItem, b: SearchItem) -> bool {
    &&& a.title@ == b.title@
    &&& match (a.law_no, b.law_no) {
        (None, None) => true,
        (Some(x), Some(y)) => x@ == y@,
        _ => false,
    }
}

/// The results with every run of neighbouring results that name the same
/// entry cut down to its first: each result is compared with the last one
/// kept.
pub open spec fn dedup_entries(s: Seq<SearchItem>) -> Seq<SearchItem>
    decreases s.len(),
{
    if s.len() == 0 {
        Seq::empty()
    } else {
        let kept = dedup_entries(s.drop_last());
        if kept.len() > 0 && same_entry(kept.last(), s.last()) {
            kept
        } else {
            kept.push(s.last())
        }
    }
}

fn opt_str_eq(a: &Option<String>, b: &Option<String>) -> (res: bool)
    ensures
        res == match (*a, *b) {
            (None, None) => true,
            (Some(x), Some(y)) => x@ == y@,
            _ => false,
        },
{
    match (a, b) {
        (None, None) => true,
        (Some(x), Some(y)) => str_eq(x.as_str(), y.as_str()),
        _ => false,
    }
}

fn entry_eq(a: &SearchItem, b: &SearchItem) -> (res: bool)
    ensures
        res == same_entry(*a, *b),
{
    str_eq(a.title.as_str(), b.title.as_str()) && opt_str_eq(&a.law_no, &b.law_no)
}

/// Tidies merged results once they are ranked: neighbouring results that
/// name the same entry are cut down to the first, the total becomes the
/// number left, and the page keeps at most `size` of them. The other fields
/// stay.
pub fn dedup_and_limit(response: &mut SearchResponse, size: u32)
    ensures
        final(response).total_count == dedup_entries(old(response).items@).len() as u32,
        final(response).items@ == if dedup_entries(old(response).items@).len() > size {
            dedup_entries(old(response).items@).take(size as int)
        } else {
            dedup_entries(old(response).items@)
        },
        final(response).page_no == old(response).page_no,
        final(response).page_size == old(response).page_size,
        final(response).source == old(response).source,
        final(response).timestamp == old(response).timestamp,
{
    let ghost orig = response.items@;
    let mut rest: Vec<SearchItem> = Vec::new();
    std::mem::swap(&mut rest, &mut response.items);
    let mut kept: Vec<SearchItem> = Vec::new();
    let ghost mut k: int = 0;
    while rest.len() > 0
        invariant
            0 <= k <= orig.len(),
            kept@ == dedup_entries(orig.take(k)),
            rest@ == orig.skip(k),
        decreases rest@.len(),
    {
        let item = rest.remove(0);
        proof {
            assert(orig.take(k + 1).drop_last() =~= orig.take(k));
            assert(orig.take(k + 1).last() == orig[k]);
        }
        let n = kept.len();
        if n > 0 && entry_eq(&kept[n - 1], &item) {
        } else {
            kept.push(item);
        }
        proof {
            k = k + 1;
            assert(rest@ =~= orig.skip(k));
        }
    }
    proof {
        assert(orig.take(k) =~= orig);
    }
    #[verifier::truncate]
    let total = kept.len() as u32;
    response.total_count = total;
    if kept.len() > size as usize {
        kept.truncate(size as usize);
    }
    response.items = kept;
}

} // verus!
