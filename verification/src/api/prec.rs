//! The court precedents (판례) client: its requests, the checks on its
//! answers, and the conversion of its answers into the shared shapes.

use vstd::prelude::*;
use crate::api::ApiType;
use crate::api::client::{ClientConfig, offset_fits, offset_of, params_view, push_param, push_num_param,
    push_extra_param, with_extra, build_url, url_with_query, url_outcome, check_search_text,
    is_html_answer_error, is_empty_answer_error, check_detail_text, is_html_detail_error, mentions_error,
    is_reported_error, search_parse_failure, parse_failure, item_key, item_cache_key, Backoff, RetryLoop,
    schedule_fits, with_opt, parsed_or, or_default, with_entry, opt_number, section, push_section, copy_opt};
use crate::api::elis::empty_history;
use crate::api::types::{UnifiedSearchRequest, SearchItem, SearchResponse, LawDetail, LawHistory};
use crate::clock::now_millis;
use crate::error::WarpError;
use crate::strmap::StrMap;
use crate::cache::key::{CacheKeyGenerator, PrecKeyParams, cache_key, opt_num, no_params};
use crate::api::batcher::opt_chars;
use crate::text::{string_of, dec, has_prefix, trimmed_of};

verus! {

/// A search answer: nested under `PrecSearch` with numbers as text, or flat.
#[derive(Debug)]
pub struct PrecSearchResponse {
    pub prec_search: Option<PrecSearchData>,
    pub total_count: Option<u32>,
    pub page_no: Option<u32>,
    pub page_size: Option<u32>,
    pub cases: Option<Vec<PrecCase>>,
}

/// The nested part of a search answer.
#[derive(Debug)]
pub struct PrecSearchData {
    pub total_count: Option<String>,
    pub page_no: Option<String>,
    pub page_size: Option<String>,
    pub cases: Vec<PrecCase>,
}

/// One precedent of a search answer.
#[derive(Debug)]
pub struct PrecCase {
    pub case_id: String,
    pub case_name: String,
    pub case_number: Option<String>,
    pub judgment_date: Option<String>,
    pub court_name: Option<String>,
    pub case_type: Option<String>,
    pub case_summary: Option<String>,
    pub judgment_summary: Option<String>,
    pub reference_laws: Option<String>,
    pub reference_cases: Option<String>,
}

/// A detail answer.
#[derive(Debug)]
pub struct PrecDetailResponse {
    pub prec: PrecDetailContent,
}

/// The precedent of a detail answer.
#[derive(Debug)]
pub struct PrecDetailContent {
    pub case_info: PrecDetailInfo,
}

/// The information of a precedent.
#[derive(Debug)]
pub struct PrecDetailInfo {
    pub case_id: String,
    pub case_name: String,
    pub case_number: Option<String>,
    pub judgment_date: Option<String>,
    pub court_name: Option<String>,
    pub case_type: Option<String>,
    pub case_holding: Option<String>,
    pub judgment_summary: Option<String>,
    pub reference_laws: Option<String>,
    pub reference_cases: Option<String>,
    pub case_content: Option<String>,
}

/// The search endpoint.
pub open spec fn prec_search_url() -> Seq<char> {
    "https://www.law.go.kr/DRF/lawSearch.do"@
}

/// The detail endpoint.
pub open spec fn prec_detail_url() -> Seq<char> {
    "https://www.law.go.kr/DRF/lawService.do"@
}

/// The query parameters of a search: key, target, format, query, the
/// offset of the page, the page size, then court and case type (extra
/// parameters) and the date range when set.
pub open spec fn prec_search_params(key: Seq<char>, r: UnifiedSearchRequest) -> Seq<(Seq<char>, Seq<char>)> {
    let base = seq![
        ("OC"@, key),
        ("target"@, "prec"@),
        ("type"@, "JSON"@),
        ("query"@, r.query@),
        ("page"@, dec(offset_of(r.page_no, r.page_size) as nat)),
        ("display"@, dec(r.page_size as nat)),
    ];
    with_opt(with_opt(with_extra(with_extra(base, "court"@, r.extras, "court"@), "caseType"@, r.extras, "case_type"@),
        "fromDate"@, r.date_from), "toDate"@, r.date_to)
}

/// The query parameters of a detail request.
pub open spec fn prec_detail_params(key: Seq<char>, id: Seq<char>) -> Seq<(Seq<char>, Seq<char>)> {
    seq![("OC"@, key), ("target"@, "prec"@), ("type"@, "JSON"@), ("ID"@, id)]
}

/// The precedents of a search answer.
pub open spec fn prec_cases(raw: PrecSearchResponse) -> Seq<PrecCase> {
    match raw.prec_search {
        Some(d) => d.cases@,
        None => match raw.cases {
            Some(v) => v@,
            None => Seq::empty(),
        },
    }
}

/// The total count of a search answer (0 when absent or unreadable).
pub open spec fn prec_total(raw: PrecSearchResponse) -> u32 {
    match raw.prec_search {
        Some(d) => parsed_or(d.total_count, 0),
        None => or_default(raw.total_count, 0),
    }
}

/// The page size of a search answer (50 when absent or unreadable).
pub open spec fn prec_page_size(raw: PrecSearchResponse) -> u32 {
    match raw.prec_search {
        Some(d) => parsed_or(d.page_size, 50),
        None => or_default(raw.page_size, 50),
    }
}

/// The search item made of a precedent: case number as law number, case
/// type as law type, court as department, judgment date as enforcement
/// date, the source `PREC`, and court, case type and judgment date as
/// metadata.
pub open spec fn prec_item(c: PrecCase, item: SearchItem) -> bool {
    &&& item.id == c.case_id
    &&& item.title == c.case_name
    &&& item.law_no == c.case_number
    &&& item.law_type == c.case_type
    &&& item.department == c.court_name
    &&& item.enforcement_date == c.judgment_date
    &&& item.revision_date is None
    &&& item.summary == c.case_summary
    &&& item.source@ == "PREC"@
    &&& item.metadata.wf()
    &&& item.metadata.map_view() == with_entry(with_entry(with_entry(Map::empty(),
        "court"@, c.court_name), "case_type"@, c.case_type), "judgment_date"@, c.judgment_date)
}

/// The combined text of a precedent: holding, summary and full text, each
/// under its title when present.
pub open spec fn prec_content(info: PrecDetailInfo) -> Seq<char> {
    section(info.case_holding, "【판시사항】\n"@, "\n\n"@)
        + section(info.judgment_summary, "【판결요지】\n"@, "\n\n"@)
        + section(info.case_content, "【판례내용】\n"@, ""@)
}

/// The parameters of a search's cache key.
pub open spec fn prec_search_key_params(r: UnifiedSearchRequest) -> Map<Seq<char>, Seq<char>> {
    let extras = r.extras.map_view();
    let court = if extras.dom().contains("court"@) { Some(extras["court"@]@) } else { None };
    let case_type = if extras.dom().contains("case_type"@) { Some(extras["case_type"@]@) } else { None };
    let m = no_params();
    let m = crate::cache::key::with_opt(m, "query"@, Some(r.query@));
    let m = crate::cache::key::with_opt(m, "court"@, court);
    let m = crate::cache::key::with_opt(m, "case_type"@, case_type);
    let m = crate::cache::key::with_opt(m, "date_from"@, opt_chars(r.date_from));
    let m = crate::cache::key::with_opt(m, "date_to"@, opt_chars(r.date_to));
    let m = crate::cache::key::with_opt(m, "page"@, opt_num(Some(r.page_no)));
    crate::cache::key::with_opt(m, "size"@, opt_num(Some(r.page_size)))
}

/// The client of the court precedents database.
#[derive(Debug, Clone)]
pub struct PrecClient {
    pub config: ClientConfig,
}

fn prec_item_of(c: PrecCase) -> (item: SearchItem)
    ensures
        prec_item(c, item),
{
    let mut metadata: StrMap<String> = StrMap::new();
    proof { assert(metadata.map_view() =~= Map::<Seq<char>, String>::empty()); }
    match &c.court_name {
        Some(v) => { metadata.insert("court", v.clone()); }
        None => {}
    }
    match &c.case_type {
        Some(v) => { metadata.insert("case_type", v.clone()); }
        None => {}
    }
    match &c.judgment_date {
        Some(v) => { metadata.insert("judgment_date", v.clone()); }
        None => {}
    }
    SearchItem {
        id: c.case_id,
        title: c.case_name,
        law_no: c.case_number,
        law_type: c.case_type,
        department: c.court_name,
        enforcement_date: c.judgment_date,
        revision_date: None,
        summary: c.case_summary,
        source: string_of("PREC"),
        metadata,
    }
}

impl PrecClient {
    /// A client with the given settings.
    pub fn new(config: ClientConfig) -> (res: PrecClient)
        ensures
            res.config == config,
    {
        PrecClient { config }
    }

    /// The API this client talks to.
    pub fn api_type(&self) -> (res: ApiType)
        ensures
            res == ApiType::Prec,
    {
        ApiType::Prec
    }

    /// The search endpoint.
    pub fn base_url(&self) -> (res: &'static str)
        ensures
            res@ == prec_search_url(),
    {
        "https://www.law.go.kr/DRF/lawSearch.do"
    }

    /// Whether an API key is set.
    pub fn is_configured(&self) -> (res: bool)
        ensures
            res == (self.config.api_key@.len() != 0),
    {
        self.config.api_key.as_str().unicode_len() != 0
    }

    /// The retry schedule of a request: `2^n` seconds before attempt `n`.
    pub fn retry_loop(&self) -> (res: RetryLoop)
        requires
            schedule_fits(Backoff::PowersOfTwoSeconds, self.config.max_retries, self.config.retry_base_delay),
        ensures
            res.wf(),
            res.backoff == Backoff::PowersOfTwoSeconds,
            res.max_retries == self.config.max_retries,
            res.attempt == 0,
            res.last_error is None,
    {
        RetryLoop::new(Backoff::PowersOfTwoSeconds, self.config.max_retries, self.config.retry_base_delay)
    }

    /// The query parameters of a search.
    pub fn search_params(&self, request: &UnifiedSearchRequest) -> (res: Vec<(String, String)>)
        requires
            offset_fits(request.page_no, request.page_size),
            request.extras.wf(),
        ensures
            params_view(res@) == prec_search_params(self.config.api_key@, *request),
    {
        let offset = crate::api::client::page_offset(request.page_no, request.page_size);
        let mut params: Vec<(String, String)> = Vec::new();
        assert(params_view(params@) =~= Seq::<(Seq<char>, Seq<char>)>::empty());
        push_param(&mut params, "OC", self.config.api_key.as_str());
        push_param(&mut params, "target", "prec");
        push_param(&mut params, "type", "JSON");
        push_param(&mut params, "query", request.query.as_str());
        push_num_param(&mut params, "page", offset);
        push_num_param(&mut params, "display", request.page_size);
        push_extra_param(&mut params, "court", &request.extras, "court");
        push_extra_param(&mut params, "caseType", &request.extras, "case_type");
        match &request.date_from {
            Some(d) => push_param(&mut params, "fromDate", d.as_str()),
            None => {}
        }
        match &request.date_to {
            Some(d) => push_param(&mut params, "toDate", d.as_str()),
            None => {}
        }
        assert(params_view(params@) =~= prec_search_params(self.config.api_key@, *request));
        params
    }

    /// The URL of a search, or why there is none.
    pub fn search_url(&self, request: &UnifiedSearchRequest) -> (res: Result<String, WarpError>)
        requires
            offset_fits(request.page_no, request.page_size),
            request.extras.wf(),
        ensures
            self.config.api_key@.len() == 0 ==> res matches Err(WarpError::NoApiKey),
            self.config.api_key@.len() != 0 ==> url_outcome(
                url_with_query(prec_search_url(), prec_search_params(self.config.api_key@, *request)), res),
    {
        if !self.is_configured() {
            return Err(WarpError::NoApiKey);
        }
        let params = self.search_params(request);
        build_url("https://www.law.go.kr/DRF/lawSearch.do", &params)
    }

    /// Checks the body of a search answer: HTML and blank bodies are refused.
    pub fn check_search_response(&self, is_html: bool, text: &str) -> (res: Result<(), WarpError>)
        ensures
            (is_html || has_prefix(text@, "<"@)) ==> (res matches Err(e) && is_html_answer_error(e, "law.key"@)),
            !(is_html || has_prefix(text@, "<"@)) && trimmed_of(text@).len() == 0
                ==> (res matches Err(e) && is_empty_answer_error(e)),
            res is Ok <==> !(is_html || has_prefix(text@, "<"@)) && trimmed_of(text@).len() != 0,
    {
        check_search_text(is_html, text, "law.key")
    }

    /// The error for a search answer that is not valid JSON.
    pub fn search_parse_failure(&self, text: &str, parse_error: &str) -> (res: WarpError)
        ensures
            mentions_error(text@) ==> is_reported_error(res, text@),
            !mentions_error(text@) ==> (res matches WarpError::Parse(m)
                && m@ == "Failed to parse precedent API response: "@ + parse_error@),
    {
        search_parse_failure(text, "Failed to parse precedent API response: ", parse_error)
    }

    /// The shared search response made of an answer: every precedent as a
    /// search item, in order, for the page that was asked for.
    pub fn parse_search_response(&self, raw: PrecSearchResponse, requested_page: u32) -> (res: SearchResponse)
        ensures
            res.total_count == prec_total(raw),
            res.page_no == requested_page,
            res.page_size == prec_page_size(raw),
            res.items@.len() == prec_cases(raw).len(),
            forall|i: int| 0 <= i < res.items@.len() ==> prec_item(#[trigger] prec_cases(raw)[i], res.items@[i]),
            res.source@ == "PREC"@,
    {
        let ghost cases_view = prec_cases(raw);
        let (cases, total_count, page_size) = match raw.prec_search {
            Some(d) => {
                let total = opt_number(d.total_count, 0);
                let size = opt_number(d.page_size, 50);
                (d.cases, total, size)
            }
            None => {
                let cases = match raw.cases {
                    Some(v) => v,
                    None => Vec::new(),
                };
                let total = match raw.total_count { Some(t) => t, None => 0 };
                let size = match raw.page_size { Some(s) => s, None => 50 };
                (cases, total, size)
            }
        };
        assert(cases@ == cases_view);
        let mut items: Vec<SearchItem> = Vec::new();
        broadcast use vstd::std_specs::vec::axiom_spec_into_iter;
        for c in it: cases.into_iter()
            invariant
                it.seq() == cases_view,
                items@.len() == it.index(),
                forall|i: int| 0 <= i < items@.len() ==> prec_item(#[trigger] cases_view[i], items@[i]),
        {
            items.push(prec_item_of(c));
        }
        SearchResponse {
            total_count,
            page_no: requested_page,
            page_size,
            items,
            source: string_of("PREC"),
            timestamp: now_millis(),
        }
    }

    /// The cache key of a search request: the search endpoint with the query, the court and case type given as extra parameters, the
    /// date range, page and page size.
    pub fn search_cache_key(&self, request: &UnifiedSearchRequest) -> (res: String)
        requires
            request.extras.wf(),
        ensures
            res@ == cache_key(ApiType::Prec, "search"@, prec_search_key_params(*request), None),
    {
        let court = match request.extras.get("court") { Some(t) => Some(t.as_str()), None => None };
        let case_type = match request.extras.get("case_type") { Some(t) => Some(t.as_str()), None => None };
        let date_from = match &request.date_from { Some(t) => Some(t.as_str()), None => None };
        let date_to = match &request.date_to { Some(t) => Some(t.as_str()), None => None };
        let params = PrecKeyParams {
            endpoint: "search",
            query: Some(request.query.as_str()),
            court,
            case_type,
            date_from,
            date_to,
            page: Some(request.page_no),
            size: Some(request.page_size),
        };
        CacheKeyGenerator::prec_key(params)
    }

    /// The cache key of a detail request (`prec:detail:<id>`).
    pub fn detail_cache_key(&self, id: &str) -> (res: String)
        ensures
            res@ == item_cache_key(ApiType::Prec, "detail"@, id@),
    {
        item_key(ApiType::Prec, "detail", id)
    }

    /// The URL of a detail request, or why there is none.
    pub fn detail_url(&self, id: &str) -> (res: Result<String, WarpError>)
        ensures
            self.config.api_key@.len() == 0 ==> res matches Err(WarpError::NoApiKey),
            self.config.api_key@.len() != 0 ==> url_outcome(
                url_with_query(prec_detail_url(), prec_detail_params(self.config.api_key@, id@)), res),
    {
        if !self.is_configured() {
            return Err(WarpError::NoApiKey);
        }
        let mut params: Vec<(String, String)> = Vec::new();
        push_param(&mut params, "OC", self.config.api_key.as_str());
        push_param(&mut params, "target", "prec");
        push_param(&mut params, "type", "JSON");
        push_param(&mut params, "ID", id);
        assert(params_view(params@) =~= prec_detail_params(self.config.api_key@, id@));
        build_url("https://www.law.go.kr/DRF/lawService.do", &params)
    }

    /// Checks the body of a detail answer.
    pub fn check_detail_response(&self, text: &str) -> (res: Result<(), WarpError>)
        ensures
            has_prefix(text@, "<"@) ==> (res matches Err(e) && is_html_detail_error(e)),
            res is Ok <==> !has_prefix(text@, "<"@),
    {
        check_detail_text(text)
    }

    /// The error for a detail answer that is not valid JSON.
    pub fn detail_parse_failure(&self, parse_error: &str) -> (res: WarpError)
        ensures
            res matches WarpError::Parse(m) && m@ == "Failed to parse precedent detail: "@ + parse_error@,
    {
        parse_failure("Failed to parse precedent detail: ", parse_error)
    }

    /// The history of a precedent: precedents have none, so it is empty
    /// under the given id.
    pub fn get_history(&self, id: &str) -> (res: LawHistory)
        ensures
            res.law_id@ == id@,
            res.law_name@.len() == 0,
            res.total_count == 0,
            res.entries@.len() == 0,
    {
        empty_history(id)
    }
}

impl PrecDetailResponse {
    /// The shared law detail of a precedent: case number, type, court and
    /// judgment date in the law's fields, the titled sections as content,
    /// and the referenced laws and cases as metadata.
    pub fn into_law_detail(self) -> (res: LawDetail)
        ensures
            res.law_id == self.prec.case_info.case_id,
            res.law_name == self.prec.case_info.case_name,
            res.law_no == self.prec.case_info.case_number,
            res.law_type == self.prec.case_info.case_type,
            res.department == self.prec.case_info.court_name,
            res.enforcement_date == self.prec.case_info.judgment_date,
            res.revision_date is None,
            res.content@ == prec_content(self.prec.case_info),
            res.articles@.len() == 0,
            res.attachments@.len() == 0,
            res.related_laws@.len() == 0,
            res.metadata.wf(),
            res.metadata.map_view() == with_entry(with_entry(Map::empty(),
                "reference_laws"@, self.prec.case_info.reference_laws), "reference_cases"@,
                self.prec.case_info.reference_cases),
    {
        let info = self.prec.case_info;
        let mut content = String::new();
        push_section(&mut content, &info.case_holding, "【판시사항】\n", "\n\n");
        push_section(&mut content, &info.judgment_summary, "【판결요지】\n", "\n\n");
        push_section(&mut content, &info.case_content, "【판례내용】\n", "");
        proof { reveal_strlit(""); }
        assert(content@ =~= prec_content(info));
        let mut metadata: StrMap<String> = StrMap::new();
        proof { assert(metadata.map_view() =~= Map::<Seq<char>, String>::empty()); }
        match info.reference_laws {
            Some(v) => { metadata.insert("reference_laws", v); }
            None => {}
        }
        match info.reference_cases {
            Some(v) => { metadata.insert("reference_cases", v); }
            None => {}
        }
        LawDetail {
            law_id: info.case_id,
            law_name: info.case_name,
            law_no: info.case_number,
            law_type: info.case_type,
            department: info.court_name,
            enforcement_date: info.judgment_date,
            revision_date: None,
            content,
            articles: Vec::new(),
            attachments: Vec::new(),
            related_laws: Vec::new(),
            metadata,
        }
    }
}

/// A PREC search asks for its page by offset: the `page` parameter is the
/// position of the page's first result, (page_no - 1) * page_size + 1 (page 2
/// of size 10 asks from result 11), `display` is the page size, and the key
/// and query go first.
pub proof fn law_prec_search_page_is_offset(key: Seq<char>, r: UnifiedSearchRequest)
    requires
        r.page_no >= 1,
    ensures
        prec_search_params(key, r).len() >= 6,
        prec_search_params(key, r)[0] == ("OC"@, key),
        prec_search_params(key, r)[3] == ("query"@, r.query@),
        prec_search_params(key, r)[4] == ("page"@, crate::text::dec(((r.page_no - 1) * r.page_size + 1) as nat)),
        prec_search_params(key, r)[5] == ("display"@, crate::text::dec(r.page_size as nat)),
{
}

/// A detail request carries the API key first and names the document asked
/// for: requests for two different documents differ, and one key never
/// stands for another.
pub proof fn law_prec_detail_params_name_the_document(k1: Seq<char>, k2: Seq<char>, a: Seq<char>, b: Seq<char>)
    ensures
        prec_detail_params(k1, a)[0] == ("OC"@, k1),
        prec_detail_params(k1, a) == prec_detail_params(k2, b) ==> k1 == k2 && a == b,
{
    if prec_detail_params(k1, a) == prec_detail_params(k2, b) {
        assert(prec_detail_params(k1, a)[0] == prec_detail_params(k2, b)[0]);
        assert(prec_detail_params(k1, a)[3] == prec_detail_params(k2, b)[3]);
    }
}

} // verus!
