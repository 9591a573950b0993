//! The administrative rules (행정규칙) client: its requests, the checks on
//! its answers, and the conversion of its answers into the shared shapes.

use vstd::prelude::*;
use crate::api::ApiType;
use crate::api::client::{ClientConfig, params_view, push_param, push_num_param, build_url, url_with_query,
    url_outcome, check_search_text, is_html_answer_error, is_empty_answer_error, check_detail_text,
    is_html_detail_error, mentions_error, is_reported_error, search_parse_failure, parse_failure, Backoff,
    RetryLoop, schedule_fits, with_opt, parsed_or, or_default, with_entry, opt_number, section, push_section};
use crate::api::elis::empty_history;
use crate::api::types::{UnifiedSearchRequest, SearchItem, SearchResponse, LawDetail, LawHistory};
use crate::clock::now_millis;
use crate::error::WarpError;
use crate::strmap::StrMap;
use crate::text::{string_of, dec, has_prefix, trimmed_of};

verus! {

/// A search answer: nested under `AdmrulSearch` with numbers as text, or flat.
#[derive(Debug)]
pub struct AdmrulSearchResponse {
    pub admrul_search: Option<AdmrulSearchData>,
    pub total_count: Option<u32>,
    pub page_no: Option<u32>,
    pub page_size: Option<u32>,
    pub rules: Option<Vec<AdmrulRule>>,
}

/// The nested part of a search answer.
#[derive(Debug)]
pub struct AdmrulSearchData {
    pub total_count: Option<String>,
    pub page_no: Option<String>,
    pub page_size: Option<String>,
    pub rules: Vec<AdmrulRule>,
}

/// One administrative rule of a search answer.
#[derive(Debug)]
pub struct AdmrulRule {
    pub rule_id: String,
    pub rule_name: String,
    pub rule_no: Option<String>,
    pub rule_type: Option<String>,
    pub department: Option<String>,
    pub enforcement_date: Option<String>,
    pub revision_date: Option<String>,
    pub status: Option<String>,
    pub rule_summary: Option<String>,
}

/// A detail answer.
#[derive(Debug)]
pub struct AdmrulDetailResponse {
    pub admrul: AdmrulDetailContent,
}

/// The rule of a detail answer.
#[derive(Debug)]
pub struct AdmrulDetailContent {
    pub rule_info: AdmrulDetailInfo,
}

/// The information of a rule.
#[derive(Debug)]
pub struct AdmrulDetailInfo {
    pub rule_id: String,
    pub rule_name: String,
    pub rule_no: Option<String>,
    pub rule_type: Option<String>,
    pub department: Option<String>,
    pub enforcement_date: Option<String>,
    pub revision_date: Option<String>,
    pub rule_content: Option<String>,
    pub revision_reason: Option<String>,
}

/// The search endpoint.
pub open spec fn admrul_search_url() -> Seq<char> {
    "https://www.law.go.kr/DRF/lawSearch.do"@
}

/// The detail endpoint.
pub open spec fn admrul_detail_url() -> Seq<char> {
    "https://www.law.go.kr/DRF/lawService.do"@
}

/// The query parameters of a search: key, target, format, query, the
/// page number itself, the page size, then ministry and date range when set.
pub open spec fn admrul_search_params(key: Seq<char>, r: UnifiedSearchRequest) -> Seq<(Seq<char>, Seq<char>)> {
    let base = seq![
        ("OC"@, key),
        ("target"@, "admrul"@),
        ("type"@, "JSON"@),
        ("query"@, r.query@),
        ("page"@, dec(r.page_no as nat)),
        ("display"@, dec(r.page_size as nat)),
    ];
    with_opt(with_opt(with_opt(base, "org"@, r.department), "fromDate"@, r.date_from), "toDate"@, r.date_to)
}

/// The query parameters of a detail request.
pub open spec fn admrul_detail_params(key: Seq<char>, id: Seq<char>) -> Seq<(Seq<char>, Seq<char>)> {
    seq![("OC"@, key), ("target"@, "admrul"@), ("type"@, "JSON"@), ("ID"@, id)]
}

/// The rules of a search answer.
pub open spec fn admrul_rules(raw: AdmrulSearchResponse) -> Seq<AdmrulRule> {
    match raw.admrul_search {
        Some(d) => d.rules@,
        None => match raw.rules {
            Some(v) => v@,
            None => Seq::empty(),
        },
    }
}

/// The total count of a search answer (0 when absent or unreadable).
pub open spec fn admrul_total(raw: AdmrulSearchResponse) -> u32 {
    match raw.admrul_search {
        Some(d) => parsed_or(d.total_count, 0),
        None => or_default(raw.total_count, 0),
    }
}

/// The page number of a search answer (1 when absent or unreadable).
pub open spec fn admrul_page_no(raw: AdmrulSearchResponse) -> u32 {
    match raw.admrul_search {
        Some(d) => parsed_or(d.page_no, 1),
        None => or_default(raw.page_no, 1),
    }
}

/// The page size of a search answer (50 when absent or unreadable).
pub open spec fn admrul_page_size(raw: AdmrulSearchResponse) -> u32 {
    match raw.admrul_search {
        Some(d) => parsed_or(d.page_size, 50),
        None => or_default(raw.page_size, 50),
    }
}

/// The search item made of a rule: its fields as they are, the source
/// `ADMRUL`, and rule type and status as metadata.
pub open spec fn admrul_item(r: AdmrulRule, item: SearchItem) -> bool {
    &&& item.id == r.rule_id
    &&& item.title == r.rule_name
    &&& item.law_no == r.rule_no
    &&& item.law_type == r.rule_type
    &&& item.department == r.department
    &&& item.enforcement_date == r.enforcement_date
    &&& item.revision_date == r.revision_date
    &&& item.summary == r.rule_summary
    &&& item.source@ == "ADMRUL"@
    &&& item.metadata.wf()
    &&& item.metadata.map_view() == with_entry(with_entry(Map::empty(),
        "rule_type"@, r.rule_type), "status"@, r.status)
}

/// The combined text of a rule: its content, then the reason of its
/// revision under a title.
pub open spec fn admrul_content(info: AdmrulDetailInfo) -> Seq<char> {
    section(info.rule_content, ""@, ""@) + section(info.revision_reason, "\n\n【개정이유】\n"@, ""@)
}

/// The client of the administrative rules database.
#[derive(Debug, Clone)]
pub struct AdmrulClient {
    pub config: ClientConfig,
}

fn admrul_item_of(r: AdmrulRule) -> (item: SearchItem)
    ensures
        admrul_item(r, item),
{
    let mut metadata: StrMap<String> = StrMap::new();
    proof { assert(metadata.map_view() =~= Map::<Seq<char>, String>::empty()); }
    match &r.rule_type {
        Some(v) => { metadata.insert("rule_type", v.clone()); }
        None => {}
    }
    match r.status {
        Some(v) => { metadata.insert("status", v); }
        None => {}
    }
    SearchItem {
        id: r.rule_id,
        title: r.rule_name,
        law_no: r.rule_no,
        law_type: r.rule_type,
        department: r.department,
        enforcement_date: r.enforcement_date,
        revision_date: r.revision_date,
        summary: r.rule_summary,
        source: string_of("ADMRUL"),
        metadata,
    }
}

impl AdmrulClient {
    /// A client with the given settings.
    pub fn new(config: ClientConfig) -> (res: AdmrulClient)
        ensures
            res.config == config,
    {
        AdmrulClient { config }
    }

    /// The API this client talks to.
    pub fn api_type(&self) -> (res: ApiType)
        ensures
            res == ApiType::Admrul,
    {
        ApiType::Admrul
    }

    /// The search endpoint.
    pub fn base_url(&self) -> (res: &'static str)
        ensures
            res@ == admrul_search_url(),
    {
        "https://www.law.go.kr/DRF/lawSearch.do"
    }

    /// Whether an API key is set.
    pub fn is_configured(&self) -> (res: bool)
        ensures
            res == (self.config.api_key@.len() != 0),
    {
        self.config.api_key.as_str().unicode_len() != 0
    }

    /// The retry schedule of a request: `2^n` seconds before attempt `n`.
    pub fn retry_loop(&self) -> (res: RetryLoop)
        requires
            schedule_fits(Backoff::PowersOfTwoSeconds, self.config.max_retries, self.config.retry_base_delay),
        ensures
            res.wf(),
            res.backoff == Backoff::PowersOfTwoSeconds,
            res.max_retries == self.config.max_retries,
            res.attempt == 0,
            res.last_error is None,
    {
        RetryLoop::new(Backoff::PowersOfTwoSeconds, self.config.max_retries, self.config.retry_base_delay)
    }

    /// The query parameters of a search.
    pub fn search_params(&self, request: &UnifiedSearchRequest) -> (res: Vec<(String, String)>)
        ensures
            params_view(res@) == admrul_search_params(self.config.api_key@, *request),
    {
        let mut params: Vec<(String, String)> = Vec::new();
        assert(params_view(params@) =~= Seq::<(Seq<char>, Seq<char>)>::empty());
        push_param(&mut params, "OC", self.config.api_key.as_str());
        push_param(&mut params, "target", "admrul");
        push_param(&mut params, "type", "JSON");
        push_param(&mut params, "query", request.query.as_str());
        push_num_param(&mut params, "page", request.page_no);
        push_num_param(&mut params, "display", request.page_size);
        match &request.department {
            Some(d) => push_param(&mut params, "org", d.as_str()),
            None => {}
        }
        match &request.date_from {
            Some(d) => push_param(&mut params, "fromDate", d.as_str()),
            None => {}
        }
        match &request.date_to {
            Some(d) => push_param(&mut params, "toDate", d.as_str()),
            None => {}
        }
        assert(params_view(params@) =~= admrul_search_params(self.config.api_key@, *request));
        params
    }

    /// The URL of a search, or why there is none.
    pub fn search_url(&self, request: &UnifiedSearchRequest) -> (res: Result<String, WarpError>)
        ensures
            self.config.api_key@.len() == 0 ==> res matches Err(WarpError::NoApiKey),
            self.config.api_key@.len() != 0 ==> url_outcome(
                url_with_query(admrul_search_url(), admrul_search_params(self.config.api_key@, *request)), res),
    {
        if !self.is_configured() {
            return Err(WarpError::NoApiKey);
        }
        let params = self.search_params(request);
        build_url("https://www.law.go.kr/DRF/lawSearch.do", &params)
    }

    /// Checks the body of a search answer: HTML and blank bodies are refused.
    pub fn check_search_response(&self, is_html: bool, text: &str) -> (res: Result<(), WarpError>)
        ensures
            (is_html || has_prefix(text@, "<"@)) ==> (res matches Err(e) && is_html_answer_error(e, "law.key"@)),
            !(is_html || has_prefix(text@, "<"@)) && trimmed_of(text@).len() == 0
                ==> (res matches Err(e) && is_empty_answer_error(e)),
            res is Ok <==> !(is_html || has_prefix(text@, "<"@)) && trimmed_of(text@).len() != 0,
    {
        check_search_text(is_html, text, "law.key")
    }

    /// The error for a search answer that is not valid JSON.
    pub fn search_parse_failure(&self, text: &str, parse_error: &str) -> (res: WarpError)
        ensures
            mentions_error(text@) ==> is_reported_error(res, text@),
            !mentions_error(text@) ==> (res matches WarpError::Parse(m)
                && m@ == "Failed to parse administrative rule API response: "@ + parse_error@),
    {
        search_parse_failure(text, "Failed to parse administrative rule API response: ", parse_error)
    }

    /// The shared search response made of an answer: every rule as a
    /// search item, in order, with the answer's own paging.
    pub fn parse_search_response(&self, raw: AdmrulSearchResponse) -> (res: SearchResponse)
        ensures
            res.total_count == admrul_total(raw),
            res.page_no == admrul_page_no(raw),
            res.page_size == admrul_page_size(raw),
            res.items@.len() == admrul_rules(raw).len(),
            forall|i: int| 0 <= i < res.items@.len() ==> admrul_item(#[trigger] admrul_rules(raw)[i], res.items@[i]),
            res.source@ == "ADMRUL"@,
    {
        let ghost src = admrul_rules(raw);
        let (rules, total_count, page_no, page_size) = match raw.admrul_search {
            Some(d) => {
                let total = opt_number(d.total_count, 0);
                let page = opt_number(d.page_no, 1);
                let size = opt_number(d.page_size, 50);
                (d.rules, total, page, size)
            }
            None => {
                let rules = match raw.rules {
                    Some(v) => v,
                    None => Vec::new(),
                };
                let total = match raw.total_count { Some(t) => t, None => 0 };
                let page = match raw.page_no { Some(p) => p, None => 1 };
                let size = match raw.page_size { Some(s) => s, None => 50 };
                (rules, total, page, size)
            }
        };
        assert(rules@ == src);
        let mut items: Vec<SearchItem> = Vec::new();
        broadcast use vstd::std_specs::vec::axiom_spec_into_iter;
        for r in it: rules.into_iter()
            invariant
                it.seq() == src,
                items@.len() == it.index(),
                forall|i: int| 0 <= i < items@.len() ==> admrul_item(#[trigger] src[i], items@[i]),
        {
            items.push(admrul_item_of(r));
        }
        SearchResponse {
            total_count,
            page_no,
            page_size,
            items,
            source: string_of("ADMRUL"),
            timestamp: now_millis(),
        }
    }

    /// The URL of a detail request, or why there is none.
    pub fn detail_url(&self, id: &str) -> (res: Result<String, WarpError>)
        ensures
            self.config.api_key@.len() == 0 ==> res matches Err(WarpError::NoApiKey),
            self.config.api_key@.len() != 0 ==> url_outcome(
                url_with_query(admrul_detail_url(), admrul_detail_params(self.config.api_key@, id@)), res),
    {
        if !self.is_configured() {
            return Err(WarpError::NoApiKey);
        }
        let mut params: Vec<(String, String)> = Vec::new();
        push_param(&mut params, "OC", self.config.api_key.as_str());
        push_param(&mut params, "target", "admrul");
        push_param(&mut params, "type", "JSON");
        push_param(&mut params, "ID", id);
        assert(params_view(params@) =~= admrul_detail_params(self.config.api_key@, id@));
        build_url("https://www.law.go.kr/DRF/lawService.do", &params)
    }

    /// Checks the body of a detail answer.
    pub fn check_detail_response(&self, text: &str) -> (res: Result<(), WarpError>)
        ensures
            has_prefix(text@, "<"@) ==> (res matches Err(e) && is_html_detail_error(e)),
            res is Ok <==> !has_prefix(text@, "<"@),
    {
        check_detail_text(text)
    }

    /// The error for a detail answer that is not valid JSON.
    pub fn detail_parse_failure(&self, parse_error: &str) -> (res: WarpError)
        ensures
            res matches WarpError::Parse(m) && m@ == "Failed to parse administrative rule detail: "@ + parse_error@,
    {
        parse_failure("Failed to parse administrative rule detail: ", parse_error)
    }

    /// The history of a rule: rules have none, so it is empty under the
    /// given id.
    pub fn get_history(&self, id: &str) -> (res: LawHistory)
        ensures
            res.law_id@ == id@,
            res.law_name@.len() == 0,
            res.total_count == 0,
            res.entries@.len() == 0,
    {
        empty_history(id)
    }
}

impl AdmrulDetailResponse {
    /// The shared law detail of a rule: its fields as they are, and its
    /// content followed by the titled reason of its revision.
    pub fn into_law_detail(self) -> (res: LawDetail)
        ensures
            res.law_id == self.admrul.rule_info.rule_id,
            res.law_name == self.admrul.rule_info.rule_name,
            res.law_no == self.admrul.rule_info.rule_no,
            res.law_type == self.admrul.rule_info.rule_type,
            res.department == self.admrul.rule_info.department,
            res.enforcement_date == self.admrul.rule_info.enforcement_date,
            res.revision_date == self.admrul.rule_info.revision_date,
            res.content@ == admrul_content(self.admrul.rule_info),
            res.articles@.len() == 0,
            res.attachments@.len() == 0,
            res.related_laws@.len() == 0,
            res.metadata.wf(),
            res.metadata.map_view().dom().len() == 0,
    {
        let info = self.admrul.rule_info;
        let mut content = String::new();
        push_section(&mut content, &info.rule_content, "", "");
        push_section(&mut content, &info.revision_reason, "\n\n【개정이유】\n", "");
        proof { reveal_strlit(""); }
        assert(content@ =~= admrul_content(info));
        let metadata: StrMap<String> = StrMap::new();
        assert(metadata.map_view().dom() =~= Set::<Seq<char>>::empty());
        LawDetail {
            law_id: info.rule_id,
            law_name: info.rule_name,
            law_no: info.rule_no,
            law_type: info.rule_type,
            department: info.department,
            enforcement_date: info.enforcement_date,
            revision_date: info.revision_date,
            content,
            articles: Vec::new(),
            attachments: Vec::new(),
            related_laws: Vec::new(),
            metadata,
        }
    }
}

/// An ADMRUL search asks for its page by number, not by offset: the `page`
/// parameter is the page number itself and `display` the page size, after the
/// key and the query.
pub proof fn law_admrul_search_page_is_number(key: Seq<char>, r: UnifiedSearchRequest)
    ensures
        admrul_search_params(key, r).len() >= 6,
        admrul_search_params(key, r)[0] == ("OC"@, key),
        admrul_search_params(key, r)[3] == ("query"@, r.query@),
        admrul_search_params(key, r)[4] == ("page"@, crate::text::dec(r.page_no as nat)),
        admrul_search_params(key, r)[5] == ("display"@, crate::text::dec(r.page_size as nat)),
{
}

/// A detail request carries the API key first and names the document asked
/// for: requests for two different documents differ, and one key never
/// stands for another.
pub proof fn law_admrul_detail_params_name_the_document(k1: Seq<char>, k2: Seq<char>, a: Seq<char>, b: Seq<char>)
    ensures
        admrul_detail_params(k1, a)[0] == ("OC"@, k1),
        admrul_detail_params(k1, a) == admrul_detail_params(k2, b) ==> k1 == k2 && a == b,
{
    if admrul_detail_params(k1, a) == admrul_detail_params(k2, b) {
        assert(admrul_detail_params(k1, a)[0] == admrul_detail_params(k2, b)[0]);
        assert(admrul_detail_params(k1, a)[3] == admrul_detail_params(k2, b)[3]);
    }
}

} // verus!
