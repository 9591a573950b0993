//! What the commands decide before and after they call an API: which
//! request a command line asks for, and what a set of answers amounts to.

use vstd::prelude::*;
use crate::api::ApiType;
use crate::api::types::{UnifiedSearchRequest, ResponseType, SearchResponse};
use crate::cli::args::{LawArgs, LawCommand, OrdinanceArgs, OrdinanceCommand, PrecedentArgs, PrecedentCommand,
    AdmruleArgs, SearchArgs};
use crate::cli::parse::{parse_source, sources_named, split_commas, split_at_commas, parse_u64, parse_u64_text};
use crate::cli::search::{parse_apis, named_apis};
use crate::error::WarpError;
use crate::strmap::StrMap;
use crate::text::{string_of, push_str, push_dec, dec, trim, trimmed_of, lowercase_of, to_lowercase, to_uppercase, uppercase_of, str_eq,
    contains_str, has_substring};
use crate::cli::parse::{mask_value, masked};
use vstd::utf8::encode_utf8;
use vstd::utf8::is_char_boundary;

verus! {

/// Whether a query is empty once trimmed.
pub open spec fn blank(q: Seq<char>) -> bool {
    trimmed_of(q).len() == 0
}

/// A search request for a query and page with every filter unset but
/// those named, asking for JSON.
pub open spec fn base_request(r: UnifiedSearchRequest, query: Seq<char>, page: u32, size: u32) -> bool {
    &&& r.query@ == query
    &&& r.page_no == page
    &&& r.page_size == size
    &&& r.response_type == ResponseType::Json
    &&& r.sort is None
    &&& r.extras.wf()
}

/// A request with no filter set.
pub open spec fn no_filters(r: UnifiedSearchRequest) -> bool {
    r.region is None && r.law_type is None && r.department is None && r.date_from is None && r.date_to is None
        && r.extras.map_view() == Map::<Seq<char>, String>::empty()
}

fn request_for(query: String, page: u32, size: u32) -> (res: UnifiedSearchRequest)
    ensures
        res.query == query,
        base_request(res, query@, page, size),
        no_filters(res),
{
    let mut r = UnifiedSearchRequest::default();
    r.query = query;
    r.page_no = page;
    r.page_size = size;
    r
}

fn empty_query_error() -> (res: WarpError)
    ensures
        res matches WarpError::InvalidInput(m) && m@ == "Search query cannot be empty"@,
{
    WarpError::InvalidInput(string_of("Search query cannot be empty"))
}

fn is_blank(q: &str) -> (res: bool)
    ensures
        res == blank(q@),
{
    let t = trim(q);
    t.as_str().unicode_len() == 0
}

/// What the law command does.
#[derive(Debug)]
pub enum LawAction {
    Search(UnifiedSearchRequest),
    Detail(String),
    History(String),
}

/// The search the law command makes of a query and page: the law type and
/// department filters of the arguments, nothing else.
pub open spec fn law_search(r: UnifiedSearchRequest, q: Seq<char>, page: u32, size: u32, args: LawArgs) -> bool {
    &&& base_request(r, q, page, size)
    &&& r.law_type == args.law_type && r.department == args.department
    &&& r.region is None && r.date_from is None && r.date_to is None
    &&& r.extras.map_view() == Map::<Seq<char>, String>::empty()
}

/// The law command's outcome for a query and page.
pub open spec fn law_search_outcome(res: Result<LawAction, WarpError>, q: Seq<char>, page: u32, size: u32, args: LawArgs) -> bool {
    if blank(q) {
        res matches Err(WarpError::InvalidInput(m)) && m@ == "Search query cannot be empty"@
    } else {
        res matches Ok(LawAction::Search(r)) && law_search(r, q, page, size, args)
    }
}

/// The action a law command line asks for: a subcommand's search, detail
/// or history, else a search for the query given directly; a blank query
/// and a missing one are refused.
pub fn law_action(args: LawArgs) -> (res: Result<LawAction, WarpError>)
    ensures
        match args.command {
            Some(LawCommand::Search { query, page, size }) => law_search_outcome(res, query@, page, size, args),
            Some(LawCommand::Detail { id }) => res matches Ok(LawAction::Detail(d)) && d == id,
            Some(LawCommand::History { id }) => res matches Ok(LawAction::History(h)) && h == id,
            None => match args.query {
                Some(q) => law_search_outcome(res, q@, args.page, args.size, args),
                None => res matches Err(WarpError::InvalidInput(m)) && m@ ==
                    "No search query provided. Use 'warp law <query>' or 'warp law search <query>'"@,
            },
        },
{
    let ghost a = args;
    let LawArgs { command, query, page: args_page, size: args_size, law_type, department } = args;
    let (q, page, size) = match command {
        Some(LawCommand::Search { query: q, page, size }) => (q, page, size),
        Some(LawCommand::Detail { id }) => { return Ok(LawAction::Detail(id)); }
        Some(LawCommand::History { id }) => { return Ok(LawAction::History(id)); }
        None => match query {
            Some(q) => (q, args_page, args_size),
            None => {
                return Err(WarpError::InvalidInput(string_of(
                    "No search query provided. Use 'warp law <query>' or 'warp law search <query>'")));
            }
        },
    };
    if is_blank(q.as_str()) {
        return Err(empty_query_error());
    }
    let mut r = request_for(q, page, size);
    r.law_type = law_type;
    r.department = department;
    Ok(LawAction::Search(r))
}

/// What the ordinance command does.
#[derive(Debug)]
pub enum OrdinanceAction {
    Search(UnifiedSearchRequest),
    Detail(String),
}

/// The search the ordinance command makes: region and type filters.
pub open spec fn ordinance_search(r: UnifiedSearchRequest, q: Seq<char>, page: u32, size: u32, args: OrdinanceArgs) -> bool {
    &&& base_request(r, q, page, size)
    &&& r.region == args.region && r.law_type == args.law_type
    &&& r.department is None && r.date_from is None && r.date_to is None
    &&& r.extras.map_view() == Map::<Seq<char>, String>::empty()
}

/// The ordinance command's outcome for a query and page.
pub open spec fn ordinance_search_outcome(res: Result<OrdinanceAction, WarpError>, q: Seq<char>, page: u32, size: u32, args: OrdinanceArgs) -> bool {
    if blank(q) {
        res matches Err(WarpError::InvalidInput(m)) && m@ == "Search query cannot be empty"@
    } else {
        res matches Ok(OrdinanceAction::Search(r)) && ordinance_search(r, q, page, size, args)
    }
}

/// The action an ordinance command line asks for.
pub fn ordinance_action(args: OrdinanceArgs) -> (res: Result<OrdinanceAction, WarpError>)
    ensures
        match args.command {
            Some(OrdinanceCommand::Search { query, page, size }) => ordinance_search_outcome(res, query@, page, size, args),
            Some(OrdinanceCommand::Detail { id }) => res matches Ok(OrdinanceAction::Detail(d)) && d == id,
            None => match args.query {
                Some(q) => ordinance_search_outcome(res, q@, args.page, args.size, args),
                None => res matches Err(WarpError::InvalidInput(m)) && m@ ==
                    "No search query provided. Use 'warp ordinance <query>' or 'warp ordinance search <query>'"@,
            },
        },
{
    let OrdinanceArgs { command, query, page: args_page, size: args_size, region, law_type } = args;
    let (q, page, size) = match command {
        Some(OrdinanceCommand::Search { query: q, page, size }) => (q, page, size),
        Some(OrdinanceCommand::Detail { id }) => { return Ok(OrdinanceAction::Detail(id)); }
        None => match query {
            Some(q) => (q, args_page, args_size),
            None => {
                return Err(WarpError::InvalidInput(string_of(
                    "No search query provided. Use 'warp ordinance <query>' or 'warp ordinance search <query>'")));
            }
        },
    };
    if is_blank(q.as_str()) {
        return Err(empty_query_error());
    }
    let mut r = request_for(q, page, size);
    r.region = region;
    r.law_type = law_type;
    Ok(OrdinanceAction::Search(r))
}

/// What the precedent command does.
#[derive(Debug)]
pub enum PrecedentAction {
    Search(UnifiedSearchRequest),
    Detail(String),
}

/// A map with one more entry when the value is present.
pub open spec fn with_text(m: Map<Seq<char>, String>, key: Seq<char>, value: Option<String>) -> Map<Seq<char>, String> {
    match value {
        Some(v) => m.insert(key, v),
        None => m,
    }
}

/// The search the precedent command makes: court and case type as extra
/// parameters, and the date range.
pub open spec fn precedent_search(r: UnifiedSearchRequest, q: Seq<char>, page: u32, size: u32, args: PrecedentArgs) -> bool {
    &&& base_request(r, q, page, size)
    &&& r.date_from == args.date_from && r.date_to == args.date_to
    &&& r.region is None && r.law_type is None && r.department is None
    &&& r.extras.map_view() == with_text(with_text(Map::empty(), "court"@, args.court), "case_type"@, args.case_type)
}

/// The precedent command's outcome for a query and page.
pub open spec fn precedent_search_outcome(res: Result<PrecedentAction, WarpError>, q: Seq<char>, page: u32, size: u32, args: PrecedentArgs) -> bool {
    if blank(q) {
        res matches Err(WarpError::InvalidInput(m)) && m@ == "Search query cannot be empty"@
    } else {
        res matches Ok(PrecedentAction::Search(r)) && precedent_search(r, q, page, size, args)
    }
}

/// The action a precedent command line asks for.
pub fn precedent_action(args: PrecedentArgs) -> (res: Result<PrecedentAction, WarpError>)
    ensures
        match args.command {
            Some(PrecedentCommand::Search { query, page, size }) => precedent_search_outcome(res, query@, page, size, args),
            Some(PrecedentCommand::Detail { id }) => res matches Ok(PrecedentAction::Detail(d)) && d == id,
            None => match args.query {
                Some(q) => precedent_search_outcome(res, q@, args.page, args.size, args),
                None => res matches Err(WarpError::InvalidInput(m)) && m@ ==
                    "No search query provided. Use 'warp precedent <query>' or 'warp precedent search <query>'"@,
            },
        },
{
    let PrecedentArgs { command, query, page: args_page, size: args_size, court, case_type, date_from, date_to } = args;
    let (q, page, size) = match command {
        Some(PrecedentCommand::Search { query: q, page, size }) => (q, page, size),
        Some(PrecedentCommand::Detail { id }) => { return Ok(PrecedentAction::Detail(id)); }
        None => match query {
            Some(q) => (q, args_page, args_size),
            None => {
                return Err(WarpError::InvalidInput(string_of(
                    "No search query provided. Use 'warp precedent <query>' or 'warp precedent search <query>'")));
            }
        },
    };
    if is_blank(q.as_str()) {
        return Err(empty_query_error());
    }
    let mut r = request_for(q, page, size);
    let ghost start = r.extras.map_view();
    match court {
        Some(c) => r.extras.insert("court", c),
        None => {}
    }
    match case_type {
        Some(t) => r.extras.insert("case_type", t),
        None => {}
    }
    r.date_from = date_from;
    r.date_to = date_to;
    Ok(PrecedentAction::Search(r))
}

/// The search of the administrative rule command, when a query is given:
/// the query and page with no filters (no check for a blank query).
pub fn admrule_request(args: AdmruleArgs) -> (res: Option<UnifiedSearchRequest>)
    ensures
        args.query is None ==> res is None,
        args.query matches Some(q) ==> (res matches Some(r) && base_request(r, q@, args.page, args.size) && no_filters(r)),
{
    match args.query {
        Some(q) => Some(request_for(q, args.page, args.size)),
        None => None,
    }
}

/// What the unified search command will do.
#[derive(Debug)]
pub struct SearchPlan {
    /// The APIs to ask, in order
    pub api_types: Vec<ApiType>,
    /// Whether they are asked by the parallel executor
    pub parallel: bool,
    /// The request sent to each
    pub request: UnifiedSearchRequest,
}

/// The APIs a search asks: the explicit list when one is given, else the source.
pub open spec fn planned_apis(args: SearchArgs) -> Seq<ApiType> {
    match args.apis {
        Some(list) => named_apis(split_commas(list@)),
        None => sources_named(lowercase_of(args.source@)),
    }
}

/// The plan of a unified search: a blank query is refused; the APIs come
/// from the list or the source; more than one API with `--parallel` goes
/// to the parallel executor.
pub fn search_plan(args: &SearchArgs) -> (res: Result<SearchPlan, WarpError>)
    ensures
        blank(args.query@) ==> (res matches Err(WarpError::InvalidInput(m)) && m@ == "Search query cannot be empty"@),
        !blank(args.query@) ==> (res matches Ok(p)
            && p.api_types@ == planned_apis(*args)
            && p.parallel == (args.parallel && planned_apis(*args).len() > 1)
            && base_request(p.request, args.query@, args.page, args.size)
            && no_filters(p.request)),
{
    if is_blank(args.query.as_str()) {
        return Err(empty_query_error());
    }
    let api_types = match &args.apis {
        Some(list) => parse_apis(list.as_str()),
        None => parse_source(args.source.as_str()),
    };
    let parallel = args.parallel && api_types.len() > 1;
    let request = request_for(args.query.clone(), args.page, args.size);
    Ok(SearchPlan { api_types, parallel, request })
}

/// What a unified search ends with.
#[derive(Debug)]
pub enum SearchConclusion {
    /// Answers to merge and show, with the failures to report beside them
    Results(Vec<(ApiType, SearchResponse)>, Vec<(ApiType, WarpError)>),
    /// Nothing was found and nothing failed
    NoResults,
    /// Every API failed; the failures are reported before the error
    AllFailed(Vec<(ApiType, WarpError)>),
}

/// Sums up the answers of a unified search: any answer is a result; no
/// answer and some failure fails the search; nothing at all is no result.
pub fn conclude_search(responses: Vec<(ApiType, SearchResponse)>, errors: Vec<(ApiType, WarpError)>) -> (res: SearchConclusion)
    ensures
        responses@.len() > 0 ==> (res matches SearchConclusion::Results(r, e) && r@ == responses@ && e@ == errors@),
        responses@.len() == 0 && errors@.len() > 0 ==> (res matches SearchConclusion::AllFailed(e) && e@ == errors@),
        responses@.len() == 0 && errors@.len() == 0 ==> res is NoResults,
{
    if responses.len() > 0 {
        SearchConclusion::Results(responses, errors)
    } else if errors.len() > 0 {
        SearchConclusion::AllFailed(errors)
    } else {
        SearchConclusion::NoResults
    }
}

/// The error a unified search fails with when every API failed.
pub fn all_failed_error() -> (res: WarpError)
    ensures
        res matches WarpError::Other(m) && m@ == "All API searches failed"@,
{
    WarpError::Other(string_of("All API searches failed"))
}

/// The API a cache command names (any case): `NLIC`, `ELIS`, `PREC`,
/// `ADMRUL` or `EXPC` once uppercased.
pub open spec fn cache_api_named(upper: Seq<char>) -> Option<ApiType> {
    if upper == "NLIC"@ { Some(ApiType::Nlic) }
    else if upper == "ELIS"@ { Some(ApiType::Elis) }
    else if upper == "PREC"@ { Some(ApiType::Prec) }
    else if upper == "ADMRUL"@ { Some(ApiType::Admrul) }
    else if upper == "EXPC"@ { Some(ApiType::Expc) }
    else { None }
}

/// The API whose cache a `cache clear --api` names, with its uppercased name.
pub fn parse_cache_api(api: &str) -> (res: (Option<ApiType>, String))
    ensures
        res.1@ == uppercase_of(api@),
        res.0 == cache_api_named(uppercase_of(api@)),
{
    let upper = to_uppercase(api);
    let u = upper.as_str();
    let t = if str_eq(u, "NLIC") { Some(ApiType::Nlic) }
        else if str_eq(u, "ELIS") { Some(ApiType::Elis) }
        else if str_eq(u, "PREC") { Some(ApiType::Prec) }
        else if str_eq(u, "ADMRUL") { Some(ApiType::Admrul) }
        else if str_eq(u, "EXPC") { Some(ApiType::Expc) }
        else { None };
    (t, upper)
}

/// Whether an answer to a yes/no question is yes: `y` or `Y` once trimmed.
pub fn confirmed(input: &str) -> (res: bool)
    ensures
        res == (trimmed_of(input@) == "y"@ || trimmed_of(input@) == "Y"@),
{
    let t = trim(input);
    str_eq(t.as_str(), "y") || str_eq(t.as_str(), "Y")
}

/// Whether a value can be masked: its cut at ten bytes falls between characters.
pub open spec fn maskable(value: Seq<char>) -> bool {
    encode_utf8(value).len() <= usize::MAX
        && (encode_utf8(value).len() > 10 ==> is_char_boundary(encode_utf8(value), 10))
}

/// The line shown after a setting was changed, the value masked.
pub fn config_updated_message(key: &str, value: &str) -> (res: String)
    requires
        maskable(value@),
    ensures
        res@ == "✅ Configuration updated: "@ + key@ + " = "@ + masked(value@),
{
    let mut s = string_of("✅ Configuration updated: ");
    push_str(&mut s, key);
    push_str(&mut s, " = ");
    let m = mask_value(value);
    push_str(&mut s, m.as_str());
    s
}

/// The line shown for a setting that was read, the value masked, or the
/// line for a setting that does not exist.
pub fn config_value_message(key: &str, value: &Option<String>) -> (res: String)
    requires
        value matches Some(v) ==> maskable(v@),
    ensures
        value is None ==> res@ == "Configuration key '"@ + key@ + "' not found"@,
        value matches Some(v) ==> res@ == key@ + ": "@ + masked(v@),
{
    match value {
        Some(v) => {
            let mut s = string_of(key);
            push_str(&mut s, ": ");
            let m = mask_value(v.as_str());
            push_str(&mut s, m.as_str());
            s
        }
        None => {
            let mut s = string_of("Configuration key '");
            push_str(&mut s, key);
            push_str(&mut s, "' not found");
            s
        }
    }
}

/// What `str::parse::<u8>` gives for a text.
pub open spec fn parse_u8_text(s: Seq<char>) -> Option<u8> {
    match parse_u64_text(s) {
        Some(v) => if v <= 255 { Some(v as u8) } else { None },
        None => None,
    }
}

/// The percentiles asked for: each comma-separated piece, trimmed, that
/// reads as a number from 0 to 255, in order; other pieces are skipped.
pub open spec fn percentiles_of(pieces: Seq<Seq<char>>) -> Seq<u8>
    decreases pieces.len(),
{
    if pieces.len() == 0 {
        Seq::empty()
    } else {
        let init = percentiles_of(pieces.drop_last());
        match parse_u8_text(trimmed_of(pieces.last())) {
            Some(v) => init.push(v),
            None => init,
        }
    }
}

/// Reads a comma-separated list of percentiles, skipping what does not
/// read as a small number.
pub fn parse_percentiles(percentiles: &str) -> (res: Vec<u8>)
    ensures
        res@ == percentiles_of(split_commas(percentiles@)),
{
    let pieces = split_at_commas(percentiles);
    let ghost views = pieces@.map_values(|p: String| p@);
    let n = pieces.len();
    let mut out: Vec<u8> = Vec::new();
    let mut i: usize = 0;
    while i < n
        invariant
            n == pieces@.len(),
            views == pieces@.map_values(|p: String| p@),
            i <= n,
            out@ == percentiles_of(views.take(i as int)),
        decreases n - i,
    {
        let t = trim(pieces[i].as_str());
        let ghost before = views.take(i as int);
        assert(views.take(i + 1).drop_last() =~= before);
        assert(views.take(i + 1).last() == pieces@[i as int]@);
        match parse_u64(t.as_str()) {
            Some(v) => {
                if v <= 255 {
                    out.push(v as u8);
                }
            }
            None => {}
        }
        i = i + 1;
    }
    assert(views.take(n as int) =~= views);
    out
}

/// The period a history covers: the hours if given, else the days if
/// given, else the last 24 hours.
pub open spec fn time_range_label(hours: Option<u32>, days: Option<u32>) -> Seq<char> {
    match (hours, days) {
        (Some(h), _) => "최근 "@ + dec(h as nat) + "시간"@,
        (_, Some(d)) => "최근 "@ + dec(d as nat) + "일"@,
        _ => "최근 24시간"@,
    }
}

/// The label of the period a history covers.
pub fn history_time_range(hours: Option<u32>, days: Option<u32>) -> (res: String)
    ensures
        res@ == time_range_label(hours, days),
{
    match (hours, days) {
        (Some(h), _) => {
            let mut s = string_of("최근 ");
            push_dec(&mut s, h as u64);
            push_str(&mut s, "시간");
            s
        }
        (_, Some(d)) => {
            let mut s = string_of("최근 ");
            push_dec(&mut s, d as u64);
            push_str(&mut s, "일");
            s
        }
        _ => string_of("최근 24시간"),
    }
}

/// Whether an operation passes an API filter: no filter, or the filter
/// occurs in the operation's name, both lowercased.
pub fn matches_api_filter(operation: &str, filter: &Option<String>) -> (res: bool)
    ensures
        res == match *filter {
            Some(f) => has_substring(lowercase_of(operation@), lowercase_of(f@)),
            None => true,
        },
{
    match filter {
        Some(f) => {
            let op = to_lowercase(operation);
            let fl = to_lowercase(f.as_str());
            contains_str(op.as_str(), fl.as_str())
        }
        None => true,
    }
}

} // verus!
