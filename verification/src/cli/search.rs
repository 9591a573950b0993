//! The unified search command's own logic: which APIs a list names, the
//! merging of their answers, and the client settings of a parallel search.

use vstd::prelude::*;
use crate::api::{ApiType, api_type_named, api_type_display};
use crate::api::client::ClientConfig;
use crate::api::types::{SearchItem, SearchResponse};
use crate::cli::parse::{split_at_commas, split_commas};
use crate::clock::now_millis;
use crate::config::{Config, opt_view};
use crate::error::WarpError;
use crate::text::{string_of, push_str, trim, trimmed_of, to_lowercase, lowercase_of};

verus! {

/// The API a name or alias denotes, the unified search excluded.
pub open spec fn single_api_named(s: Seq<char>) -> Option<ApiType> {
    match api_type_named(s) {
        Some(ApiType::All) => None,
        other => other,
    }
}

/// The APIs named by the pieces, in order; pieces naming none are skipped.
pub open spec fn named_apis(pieces: Seq<Seq<char>>) -> Seq<ApiType>
    decreases pieces.len(),
{
    if pieces.len() == 0 {
        Seq::empty()
    } else {
        named_apis(pieces.drop_last()) + match single_api_named(lowercase_of(trimmed_of(pieces.last()))) {
            Some(t) => seq![t],
            None => Seq::<ApiType>::empty(),
        }
    }
}

/// The APIs of a comma-separated list: each piece trimmed and lowercased,
/// unknown names (and `all`) skipped.
pub fn parse_apis(apis: &str) -> (res: Vec<ApiType>)
    ensures
        res@ == named_apis(split_commas(apis@)),
{
    let pieces = split_at_commas(apis);
    let ghost pv = pieces@.map_values(|p: String| p@);
    let n = pieces.len();
    let mut out: Vec<ApiType> = Vec::new();
    let mut i: usize = 0;
    assert(pv.take(0) =~= Seq::<Seq<char>>::empty());
    while i < n
        invariant
            n == pieces@.len(),
            pv == pieces@.map_values(|p: String| p@),
            pv == split_commas(apis@),
            i <= n,
            out@ == named_apis(pv.take(i as int)),
        decreases n - i,
    {
        let t = trim(pieces[i].as_str());
        let l = to_lowercase(t.as_str());
        let parsed = ApiType::from_lowercase_name(l.as_str());
        assert(pv.take(i + 1).drop_last() =~= pv.take(i as int));
        assert(pv.take(i + 1).last() == pieces@[i as int]@);
        match parsed {
            Some(ApiType::All) => {}
            Some(a) => {
                out.push(a);
            }
            None => {}
        }
        assert(out@ =~= named_apis(pv.take(i + 1)));
        i = i + 1;
    }
    assert(pv.take(n as int) =~= pv);
    out
}

/// The items of the answers, one answer after the other, each marked with
/// the display name of its API.
pub open spec fn merged_items(rs: Seq<(ApiType, SearchResponse)>) -> Seq<(SearchItem, Seq<char>)>
    decreases rs.len(),
{
    if rs.len() == 0 {
        Seq::empty()
    } else {
        merged_items(rs.drop_last())
            + rs.last().1.items@.map_values(|it: SearchItem| (it, api_type_display(rs.last().0)))
    }
}

/// The sum of the answers' total counts.
pub open spec fn total_of(rs: Seq<(ApiType, SearchResponse)>) -> int
    decreases rs.len(),
{
    if rs.len() == 0 { 0 } else { total_of(rs.drop_last()) + rs.last().1.total_count }
}

/// An item as it was, with another source.
pub open spec fn item_with_source(a: SearchItem, source: Seq<char>, b: SearchItem) -> bool {
    &&& b.id == a.id
    &&& b.title == a.title
    &&& b.law_no == a.law_no
    &&& b.law_type == a.law_type
    &&& b.department == a.department
    &&& b.enforcement_date == a.enforcement_date
    &&& b.revision_date == a.revision_date
    &&& b.summary == a.summary
    &&& b.source@ == source
    &&& b.metadata == a.metadata
}

proof fn lemma_total_prefix(rs: Seq<(ApiType, SearchResponse)>, k: int)
    requires
        0 <= k <= rs.len(),
    ensures
        total_of(rs.take(k)) <= total_of(rs),
    decreases rs.len() - k,
{
    if k < rs.len() {
        lemma_total_prefix(rs, k + 1);
        assert(rs.take(k + 1).drop_last() =~= rs.take(k));
    } else {
        assert(rs.take(k) =~= rs);
    }
}

/// The answers of several APIs as one: every item marked with its API's
/// display name, in order, the sum of the counts, page 1 holding every
/// item, and the source `통합검색`.
pub fn merge_responses(responses: Vec<(ApiType, SearchResponse)>) -> (res: SearchResponse)
    requires
        total_of(responses@) <= u32::MAX,
    ensures
        res.total_count == total_of(responses@),
        res.page_no == 1,
        res.page_size == (merged_items(responses@).len() as u32),
        res.items@.len() == merged_items(responses@).len(),
        forall|i: int| 0 <= i < res.items@.len() ==> item_with_source(
            (#[trigger] merged_items(responses@)[i]).0, merged_items(responses@)[i].1, res.items@[i]),
        res.source@ == "통합검색"@,
{
    let ghost rs = responses@;
    let mut total_count: u32 = 0;
    let mut all_items: Vec<SearchItem> = Vec::new();
    broadcast use vstd::std_specs::vec::axiom_spec_into_iter;
    for entry in it: responses.into_iter()
        invariant
            it.seq() == rs,
            total_of(rs) <= u32::MAX,
            total_count == total_of(rs.take(it.index() as int)),
            all_items@.len() == merged_items(rs.take(it.index() as int)).len(),
            forall|i: int| 0 <= i < all_items@.len() ==> item_with_source(
                (#[trigger] merged_items(rs.take(it.index() as int))[i]).0,
                merged_items(rs.take(it.index() as int))[i].1, all_items@[i]),
    {
        let ghost k = it.index() as int;
        assert(rs.take(k + 1).drop_last() =~= rs.take(k));
        assert(rs.take(k + 1).last() == entry);
        proof { lemma_total_prefix(rs, k + 1); }
        let ghost before = merged_items(rs.take(k));
        let (api_type, response) = entry;
        total_count = total_count + response.total_count;
        let ghost added = response.items@.map_values(|x: SearchItem| (x, api_type_display(api_type)));
        let ghost base_len = all_items@.len();
        let ghost src_items = response.items@;
        let name = api_type.display_name();
        for item in it2: response.items.into_iter()
            invariant
                it2.seq() == src_items,
                added == src_items.map_values(|x: SearchItem| (x, api_type_display(api_type))),
                name@ == api_type_display(api_type),
                all_items@.len() == base_len + it2.index(),
                base_len == before.len(),
                forall|i: int| 0 <= i < all_items@.len() ==> item_with_source(
                    (#[trigger] (before + added)[i]).0, (before + added)[i].1, all_items@[i]),
        {
            let mut item = item;
            item.source = string_of(name);
            all_items.push(item);
        }
        assert(merged_items(rs.take(k + 1)) =~= before + added);
    }
    assert(rs.take(rs.len() as int) =~= rs);
    let size = all_items.len() as u32;
    SearchResponse {
        total_count,
        page_no: 1,
        page_size: size,
        items: all_items,
        source: string_of("통합검색"),
        timestamp: now_millis(),
    }
}

/// The settings of a client of a parallel search: the key found under the
/// API's setting name (read, as that lookup does, as the shared key), 30 s
/// timeout, 3 attempts from 100 ms, the parallel user agent, caching on.
pub fn create_optimized_client_config(api_type: ApiType, config: &Config) -> (res: Result<ClientConfig, WarpError>)
    ensures
        opt_view(config.law.key) is None ==> (res matches Err(WarpError::InvalidInput(m))
            && m@ == "API key for "@ + api_type_display(api_type) + " not found"@),
        opt_view(config.law.key) matches Some(k) ==> (res matches Ok(c)
            && c.api_key@ == k
            && c.timeout == 30
            && c.max_retries == 3
            && c.retry_base_delay == 100
            && c.user_agent@ == "warp-parallel/0.1.0"@
            && !c.bypass_cache
            && !c.benchmark_mode),
{
    let key_name = match api_type {
        ApiType::Nlic => "law.nlic.key",
        ApiType::Elis => "law.elis.key",
        ApiType::Prec => "law.prec.key",
        ApiType::Admrul => "law.admrul.key",
        ApiType::Expc => "law.expc.key",
        ApiType::All => "law.key",
    };
    let found = config.get_api_key(key_name);
    let key = match found {
        Some(k) => Some(k),
        None => config.get_api_key("law.key"),
    };
    proof {
        crate::config::lemma_setting_names_not_api_names(*config, key_name@);
        crate::config::lemma_setting_names_not_api_names(*config, "law.key"@);
    }
    match key {
        Some(api_key) => Ok(ClientConfig {
            api_key,
            timeout: 30,
            max_retries: 3,
            retry_base_delay: 100,
            user_agent: string_of("warp-parallel/0.1.0"),
            bypass_cache: false,
            benchmark_mode: false,
        }),
        None => {
            let mut m = string_of("API key for ");
            push_str(&mut m, api_type.display_name());
            push_str(&mut m, " not found");
            Err(WarpError::InvalidInput(m))
        }
    }
}

} // verus!
