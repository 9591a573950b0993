//! The legal interpretation cases (법령해석례) client: its requests, the
//! checks on its answers, and the conversion of its answers into the
//! shared shapes.

use vstd::prelude::*;
use crate::api::ApiType;
use crate::api::client::{ClientConfig, offset_fits, offset_of, params_view, push_param, push_num_param,
    build_url, url_with_query, url_outcome, check_search_text, is_html_answer_error, is_empty_answer_error,
    check_detail_text, is_html_detail_error, mentions_error, is_reported_error, search_parse_failure,
    parse_failure, item_key, item_cache_key, Backoff, RetryLoop, schedule_fits, with_opt, parsed_or,
    or_default, with_entry, opt_number, section, push_section};
use crate::api::elis::empty_history;
use crate::api::types::{UnifiedSearchRequest, SearchItem, SearchResponse, LawDetail, LawHistory};
use crate::clock::now_millis;
use crate::error::WarpError;
use crate::strmap::StrMap;
use crate::cache::key::{CacheKeyGenerator, cache_key, expc_params};
use crate::api::batcher::opt_chars;
use crate::text::{string_of, dec, has_prefix, trimmed_of};

verus! {

/// A search answer: nested under `ExpcSearch` with numbers as text, or flat.
#[derive(Debug)]
pub struct ExpcSearchResponse {
    pub expc_search: Option<ExpcSearchData>,
    pub total_count: Option<u32>,
    pub page_no: Option<u32>,
    pub page_size: Option<u32>,
    pub interpretations: Option<Vec<ExpcInterpretation>>,
}

/// The nested part of a search answer.
#[derive(Debug)]
pub struct ExpcSearchData {
    pub total_count: Option<String>,
    pub page_no: Option<String>,
    pub page_size: Option<String>,
    pub interpretations: Vec<ExpcInterpretation>,
}

/// One interpretation of a search answer.
#[derive(Debug)]
pub struct ExpcInterpretation {
    pub interpretation_id: String,
    pub interpretation_name: String,
    pub interpretation_no: Option<String>,
    pub case_type: Option<String>,
    pub department: Option<String>,
    pub response_date: Option<String>,
    pub status: Option<String>,
    pub interpretation_summary: Option<String>,
}

/// A detail answer.
#[derive(Debug)]
pub struct ExpcDetailResponse {
    pub expc: ExpcDetailContent,
}

/// The interpretation of a detail answer.
#[derive(Debug)]
pub struct ExpcDetailContent {
    pub interpretation_info: ExpcDetailInfo,
}

/// The information of an interpretation.
#[derive(Debug)]
pub struct ExpcDetailInfo {
    pub interpretation_id: String,
    pub interpretation_name: String,
    pub interpretation_no: Option<String>,
    pub case_type: Option<String>,
    pub department: Option<String>,
    pub response_date: Option<String>,
    pub question_content: Option<String>,
    pub answer_content: Option<String>,
    pub reason: Option<String>,
}

/// The search endpoint.
pub open spec fn expc_search_url() -> Seq<char> {
    "https://www.law.go.kr/DRF/lawSearch.do"@
}

/// The detail endpoint.
pub open spec fn expc_detail_url() -> Seq<char> {
    "https://www.law.go.kr/DRF/lawService.do"@
}

/// The query parameters of a search: key, target, format, query, the
/// offset of the page, the page size, then agency and date range when set.
pub open spec fn expc_search_params(key: Seq<char>, r: UnifiedSearchRequest) -> Seq<(Seq<char>, Seq<char>)> {
    let base = seq![
        ("OC"@, key),
        ("target"@, "expc"@),
        ("type"@, "JSON"@),
        ("query"@, r.query@),
        ("page"@, dec(offset_of(r.page_no, r.page_size) as nat)),
        ("display"@, dec(r.page_size as nat)),
    ];
    with_opt(with_opt(with_opt(base, "org"@, r.department), "fromDate"@, r.date_from), "toDate"@, r.date_to)
}

/// The query parameters of a detail request.
pub open spec fn expc_detail_params(key: Seq<char>, id: Seq<char>) -> Seq<(Seq<char>, Seq<char>)> {
    seq![("OC"@, key), ("target"@, "expc"@), ("type"@, "JSON"@), ("ID"@, id)]
}

/// The interpretations of a search answer.
pub open spec fn expc_interpretations(raw: ExpcSearchResponse) -> Seq<ExpcInterpretation> {
    match raw.expc_search {
        Some(d) => d.interpretations@,
        None => match raw.interpretations {
            Some(v) => v@,
            None => Seq::empty(),
        },
    }
}

/// The total count of a search answer (0 when absent or unreadable).
pub open spec fn expc_total(raw: ExpcSearchResponse) -> u32 {
    match raw.expc_search {
        Some(d) => parsed_or(d.total_count, 0),
        None => or_default(raw.total_count, 0),
    }
}

/// The page size of a search answer (50 when absent or unreadable).
pub open spec fn expc_page_size(raw: ExpcSearchResponse) -> u32 {
    match raw.expc_search {
        Some(d) => parsed_or(d.page_size, 50),
        None => or_default(raw.page_size, 50),
    }
}

/// The search item made of an interpretation: its number as law number,
/// its case type as law type, the answer date as enforcement date, the
/// source `EXPC`, and case type and status as metadata.
pub open spec fn expc_item(x: ExpcInterpretation, item: SearchItem) -> bool {
    &&& item.id == x.interpretation_id
    &&& item.title == x.interpretation_name
    &&& item.law_no == x.interpretation_no
    &&& item.law_type == x.case_type
    &&& item.department == x.department
    &&& item.enforcement_date == x.response_date
    &&& item.revision_date is None
    &&& item.summary == x.interpretation_summary
    &&& item.source@ == "EXPC"@
    &&& item.metadata.wf()
    &&& item.metadata.map_view() == with_entry(with_entry(Map::empty(),
        "case_type"@, x.case_type), "status"@, x.status)
}

/// The combined text of an interpretation: question, answer and reason,
/// each under its title when present.
pub open spec fn expc_content(info: ExpcDetailInfo) -> Seq<char> {
    section(info.question_content, "【질의내용】\n"@, "\n\n"@)
        + section(info.answer_content, "【회답내용】\n"@, "\n\n"@)
        + section(info.reason, "【이유】\n"@, ""@)
}

/// The client of the legal interpretation cases database.
#[derive(Debug, Clone)]
pub struct ExpcClient {
    pub config: ClientConfig,
}

fn expc_item_of(x: ExpcInterpretation) -> (item: SearchItem)
    ensures
        expc_item(x, item),
{
    let mut metadata: StrMap<String> = StrMap::new();
    proof { assert(metadata.map_view() =~= Map::<Seq<char>, String>::empty()); }
    match &x.case_type {
        Some(v) => { metadata.insert("case_type", v.clone()); }
        None => {}
    }
    match x.status {
        Some(v) => { metadata.insert("status", v); }
        None => {}
    }
    SearchItem {
        id: x.interpretation_id,
        title: x.interpretation_name,
        law_no: x.interpretation_no,
        law_type: x.case_type,
        department: x.department,
        enforcement_date: x.response_date,
        revision_date: None,
        summary: x.interpretation_summary,
        source: string_of("EXPC"),
        metadata,
    }
}

impl ExpcClient {
    /// A client with the given settings.
    pub fn new(config: ClientConfig) -> (res: ExpcClient)
        ensures
            res.config == config,
    {
        ExpcClient { config }
    }

    /// The API this client talks to.
    pub fn api_type(&self) -> (res: ApiType)
        ensures
            res == ApiType::Expc,
    {
        ApiType::Expc
    }

    /// The search endpoint.
    pub fn base_url(&self) -> (res: &'static str)
        ensures
            res@ == expc_search_url(),
    {
        "https://www.law.go.kr/DRF/lawSearch.do"
    }

    /// Whether an API key is set.
    pub fn is_configured(&self) -> (res: bool)
        ensures
            res == (self.config.api_key@.len() != 0),
    {
        self.config.api_key.as_str().unicode_len() != 0
    }

    /// The retry schedule of a request: `2^n` seconds before attempt `n`.
    pub fn retry_loop(&self) -> (res: RetryLoop)
        requires
            schedule_fits(Backoff::PowersOfTwoSeconds, self.config.max_retries, self.config.retry_base_delay),
        ensures
            res.wf(),
            res.backoff == Backoff::PowersOfTwoSeconds,
            res.max_retries == self.config.max_retries,
            res.attempt == 0,
            res.last_error is None,
    {
        RetryLoop::new(Backoff::PowersOfTwoSeconds, self.config.max_retries, self.config.retry_base_delay)
    }

    /// The query parameters of a search.
    pub fn search_params(&self, request: &UnifiedSearchRequest) -> (res: Vec<(String, String)>)
        requires
            offset_fits(request.page_no, request.page_size),
        ensures
            params_view(res@) == expc_search_params(self.config.api_key@, *request),
    {
        let offset = crate::api::client::page_offset(request.page_no, request.page_size);
        let mut params: Vec<(String, String)> = Vec::new();
        assert(params_view(params@) =~= Seq::<(Seq<char>, Seq<char>)>::empty());
        push_param(&mut params, "OC", self.config.api_key.as_str());
        push_param(&mut params, "target", "expc");
        push_param(&mut params, "type", "JSON");
        push_param(&mut params, "query", request.query.as_str());
        push_num_param(&mut params, "page", offset);
        push_num_param(&mut params, "display", request.page_size);
        match &request.department {
            Some(d) => push_param(&mut params, "org", d.as_str()),
            None => {}
        }
        match &request.date_from {
            Some(d) => push_param(&mut params, "fromDate", d.as_str()),
            None => {}
        }
        match &request.date_to {
            Some(d) => push_param(&mut params, "toDate", d.as_str()),
            None => {}
        }
        assert(params_view(params@) =~= expc_search_params(self.config.api_key@, *request));
        params
    }

    /// The URL of a search, or why there is none.
    pub fn search_url(&self, request: &UnifiedSearchRequest) -> (res: Result<String, WarpError>)
        requires
            offset_fits(request.page_no, request.page_size),
        ensures
            self.config.api_key@.len() == 0 ==> res matches Err(WarpError::NoApiKey),
            self.config.api_key@.len() != 0 ==> url_outcome(
                url_with_query(expc_search_url(), expc_search_params(self.config.api_key@, *request)), res),
    {
        if !self.is_configured() {
            return Err(WarpError::NoApiKey);
        }
        let params = self.search_params(request);
        build_url("https://www.law.go.kr/DRF/lawSearch.do", &params)
    }

    /// Checks the body of a search answer: HTML and blank bodies are refused.
    pub fn check_search_response(&self, is_html: bool, text: &str) -> (res: Result<(), WarpError>)
        ensures
            (is_html || has_prefix(text@, "<"@)) ==> (res matches Err(e) && is_html_answer_error(e, "law.key"@)),
            !(is_html || has_prefix(text@, "<"@)) && trimmed_of(text@).len() == 0
                ==> (res matches Err(e) && is_empty_answer_error(e)),
            res is Ok <==> !(is_html || has_prefix(text@, "<"@)) && trimmed_of(text@).len() != 0,
    {
        check_search_text(is_html, text, "law.key")
    }

    /// The error for a search answer that is not valid JSON.
    pub fn search_parse_failure(&self, text: &str, parse_error: &str) -> (res: WarpError)
        ensures
            mentions_error(text@) ==> is_reported_error(res, text@),
            !mentions_error(text@) ==> (res matches WarpError::Parse(m)
                && m@ == "Failed to parse legal interpretation API response: "@ + parse_error@),
    {
        search_parse_failure(text, "Failed to parse legal interpretation API response: ", parse_error)
    }

    /// The shared search response made of an answer: every interpretation
    /// as a search item, in order, for the page that was asked for.
    pub fn parse_search_response(&self, raw: ExpcSearchResponse, requested_page: u32) -> (res: SearchResponse)
        ensures
            res.total_count == expc_total(raw),
            res.page_no == requested_page,
            res.page_size == expc_page_size(raw),
            res.items@.len() == expc_interpretations(raw).len(),
            forall|i: int| 0 <= i < res.items@.len() ==> expc_item(#[trigger] expc_interpretations(raw)[i], res.items@[i]),
            res.source@ == "EXPC"@,
    {
        let ghost src = expc_interpretations(raw);
        let (list, total_count, page_size) = match raw.expc_search {
            Some(d) => {
                let total = opt_number(d.total_count, 0);
                let size = opt_number(d.page_size, 50);
                (d.interpretations, total, size)
            }
            None => {
                let list = match raw.interpretations {
                    Some(v) => v,
                    None => Vec::new(),
                };
                let total = match raw.total_count { Some(t) => t, None => 0 };
                let size = match raw.page_size { Some(s) => s, None => 50 };
                (list, total, size)
            }
        };
        assert(list@ == src);
        let mut items: Vec<SearchItem> = Vec::new();
        broadcast use vstd::std_specs::vec::axiom_spec_into_iter;
        for x in it: list.into_iter()
            invariant
                it.seq() == src,
                items@.len() == it.index(),
                forall|i: int| 0 <= i < items@.len() ==> expc_item(#[trigger] src[i], items@[i]),
        {
            items.push(expc_item_of(x));
        }
        SearchResponse {
            total_count,
            page_no: requested_page,
            page_size,
            items,
            source: string_of("EXPC"),
            timestamp: now_millis(),
        }
    }

    /// The cache key of a search request: the search endpoint with the query, the department as requesting agency, page and page size.
    pub fn search_cache_key(&self, request: &UnifiedSearchRequest) -> (res: String)
        ensures
            res@ == cache_key(ApiType::Expc, "search"@, expc_params(Some(request.query@), None,
                opt_chars(request.department), Some(request.page_no), Some(request.page_size)), None),
    {
        let agency = match &request.department { Some(t) => Some(t.as_str()), None => None };
        CacheKeyGenerator::expc_key("search", Some(request.query.as_str()), None, agency, Some(request.page_no), Some(request.page_size))
    }

    /// The cache key of a detail request (`expc:detail:<id>`).
    pub fn detail_cache_key(&self, id: &str) -> (res: String)
        ensures
            res@ == item_cache_key(ApiType::Expc, "detail"@, id@),
    {
        item_key(ApiType::Expc, "detail", id)
    }

    /// The URL of a detail request, or why there is none.
    pub fn detail_url(&self, id: &str) -> (res: Result<String, WarpError>)
        ensures
            self.config.api_key@.len() == 0 ==> res matches Err(WarpError::NoApiKey),
            self.config.api_key@.len() != 0 ==> url_outcome(
                url_with_query(expc_detail_url(), expc_detail_params(self.config.api_key@, id@)), res),
    {
        if !self.is_configured() {
            return Err(WarpError::NoApiKey);
        }
        let mut params: Vec<(String, String)> = Vec::new();
        push_param(&mut params, "OC", self.config.api_key.as_str());
        push_param(&mut params, "target", "expc");
        push_param(&mut params, "type", "JSON");
        push_param(&mut params, "ID", id);
        assert(params_view(params@) =~= expc_detail_params(self.config.api_key@, id@));
        build_url("https://www.law.go.kr/DRF/lawService.do", &params)
    }

    /// Checks the body of a detail answer.
    pub fn check_detail_response(&self, text: &str) -> (res: Result<(), WarpError>)
        ensures
            has_prefix(text@, "<"@) ==> (res matches Err(e) && is_html_detail_error(e)),
            res is Ok <==> !has_prefix(text@, "<"@),
    {
        check_detail_text(text)
    }

    /// The error for a detail answer that is not valid JSON.
    pub fn detail_parse_failure(&self, parse_error: &str) -> (res: WarpError)
        ensures
            res matches WarpError::Parse(m) && m@ == "Failed to parse legal interpretation detail: "@ + parse_error@,
    {
        parse_failure("Failed to parse legal interpretation detail: ", parse_error)
    }

    /// The history of an interpretation: interpretations have none, so it
    /// is empty under the given id.
    pub fn get_history(&self, id: &str) -> (res: LawHistory)
        ensures
            res.law_id@ == id@,
            res.law_name@.len() == 0,
            res.total_count == 0,
            res.entries@.len() == 0,
    {
        empty_history(id)
    }
}

impl ExpcDetailResponse {
    /// The shared law detail of an interpretation: number, case type,
    /// agency and answer date in the law's fields, and question, answer and
    /// reason as titled sections of the content.
    pub fn into_law_detail(self) -> (res: LawDetail)
        ensures
            res.law_id == self.expc.interpretation_info.interpretation_id,
            res.law_name == self.expc.interpretation_info.interpretation_name,
            res.law_no == self.expc.interpretation_info.interpretation_no,
            res.law_type == self.expc.interpretation_info.case_type,
            res.department == self.expc.interpretation_info.department,
            res.enforcement_date == self.expc.interpretation_info.response_date,
            res.revision_date is None,
            res.content@ == expc_content(self.expc.interpretation_info),
            res.articles@.len() == 0,
            res.attachments@.len() == 0,
            res.related_laws@.len() == 0,
            res.metadata.wf(),
            res.metadata.map_view().dom().len() == 0,
    {
        let info = self.expc.interpretation_info;
        let mut content = String::new();
        push_section(&mut content, &info.question_content, "【질의내용】\n", "\n\n");
        push_section(&mut content, &info.answer_content, "【회답내용】\n", "\n\n");
        push_section(&mut content, &info.reason, "【이유】\n", "");
        proof { reveal_strlit(""); }
        assert(content@ =~= expc_content(info));
        let metadata: StrMap<String> = StrMap::new();
        assert(metadata.map_view().dom() =~= Set::<Seq<char>>::empty());
        LawDetail {
            law_id: info.interpretation_id,
            law_name: info.interpretation_name,
            law_no: info.interpretation_no,
            law_type: info.case_type,
            department: info.department,
            enforcement_date: info.response_date,
            revision_date: None,
            content,
            articles: Vec::new(),
            attachments: Vec::new(),
            related_laws: Vec::new(),
            metadata,
        }
    }
}

/// A EXPC search asks for its page by offset: the `page` parameter is the
/// position of the page's first result, (page_no - 1) * page_size + 1 (page 2
/// of size 10 asks from result 11), `display` is the page size, and the key
/// and query go first.
pub proof fn law_expc_search_page_is_offset(key: Seq<char>, r: UnifiedSearchRequest)
    requires
        r.page_no >= 1,
    ensures
        expc_search_params(key, r).len() >= 6,
        expc_search_params(key, r)[0] == ("OC"@, key),
        expc_search_params(key, r)[3] == ("query"@, r.query@),
        expc_search_params(key, r)[4] == ("page"@, crate::text::dec(((r.page_no - 1) * r.page_size + 1) as nat)),
        expc_search_params(key, r)[5] == ("display"@, crate::text::dec(r.page_size as nat)),
{
}

/// A detail request carries the API key first and names the document asked
/// for: requests for two different documents differ, and one key never
/// stands for another.
pub proof fn law_expc_detail_params_name_the_document(k1: Seq<char>, k2: Seq<char>, a: Seq<char>, b: Seq<char>)
    ensures
        expc_detail_params(k1, a)[0] == ("OC"@, k1),
        expc_detail_params(k1, a) == expc_detail_params(k2, b) ==> k1 == k2 && a == b,
{
    if expc_detail_params(k1, a) == expc_detail_params(k2, b) {
        assert(expc_detail_params(k1, a)[0] == expc_detail_params(k2, b)[0]);
        assert(expc_detail_params(k1, a)[3] == expc_detail_params(k2, b)[3]);
    }
}

} // verus!
