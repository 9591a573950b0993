//! The National Law Information Center (국가법령정보센터) client: its
//! requests, the checks on its answers, and the conversion of its answers
//! into the shared shapes.

use vstd::prelude::*;
use crate::api::ApiType;
use crate::api::client::{ClientConfig, offset_fits, offset_of, params_view, push_param, push_num_param,
    build_url, url_with_query, url_outcome, check_search_text, is_html_answer_error, is_empty_answer_error,
    check_detail_text, is_html_detail_error, first_chars, take_chars, mentions_error, is_reported_error,
    reported_error, parse_failure, item_key, item_cache_key, Backoff, RetryLoop, schedule_fits,
    with_opt, parsed_or, or_default, with_entry, opt_number};
use crate::api::types::{UnifiedSearchRequest, SearchItem, SearchResponse, LawDetail, Article, LawHistory,
    HistoryEntry};
use crate::clock::now_millis;
use crate::error::WarpError;
use crate::strmap::StrMap;
use crate::cache::key::{CacheKeyGenerator, cache_key, nlic_params};
use crate::api::batcher::opt_chars;
use crate::text::{string_of, push_str, dec, has_prefix, has_substring, trimmed_of, contains_str};
use crate::metrics::{MetricsCollector, CacheMetrics};
use crate::metrics::collector::{can_record, value_or, fresh_stats, fresh_cache, model_add_success, model_add_failure};
use crate::time::Duration;

verus! {

/// A search answer: either nested under `LawSearch` with numbers as text,
/// or flat (older format).
#[derive(Debug)]
pub struct NlicSearchResponse {
    pub law_search: Option<NlicSearchData>,
    pub total_count: Option<u32>,
    pub page_no: Option<u32>,
    pub page_size: Option<u32>,
    pub laws: Option<Vec<NlicLaw>>,
}

/// The nested part of a search answer.
#[derive(Debug)]
pub struct NlicSearchData {
    pub total_count: Option<String>,
    pub page_no: Option<String>,
    pub page_size: Option<String>,
    pub laws: Vec<NlicLaw>,
}

/// One law of a search answer.
#[derive(Debug)]
pub struct NlicLaw {
    pub law_id: String,
    pub law_name: String,
    pub law_no: Option<String>,
    pub law_type: Option<String>,
    pub department: Option<String>,
    pub enforcement_date: Option<String>,
    pub revision_date: Option<String>,
    pub law_summary: Option<String>,
    pub law_detail_link: Option<String>,
    pub law_full_link: Option<String>,
}

/// A detail answer.
#[derive(Debug)]
pub struct NlicDetailResponse {
    pub law: NlicDetailContent,
}

/// The law of a detail answer.
#[derive(Debug)]
pub struct NlicDetailContent {
    pub law_id: String,
    pub law_name: String,
    pub law_no: Option<String>,
    pub law_type: Option<String>,
    pub department: Option<String>,
    pub enforcement_date: Option<String>,
    pub revision_date: Option<String>,
    pub articles: Vec<NlicArticle>,
}

/// One article of a detail answer.
#[derive(Debug)]
pub struct NlicArticle {
    pub article_key: String,
    pub article_number: String,
    pub article_title: Option<String>,
    pub article_content: String,
}

/// A history answer.
#[derive(Debug)]
pub struct NlicHistoryResponse {
    pub history: Vec<NlicHistoryEntry>,
}

/// One revision of a history answer.
#[derive(Debug)]
pub struct NlicHistoryEntry {
    pub law_id: String,
    pub law_name: String,
    pub revision_type: String,
    pub announcement_date: String,
    pub enforcement_date: Option<String>,
    pub reason: Option<String>,
}

/// The detail and history endpoint.
pub open spec fn nlic_base_url() -> Seq<char> {
    "https://www.law.go.kr/DRF/lawService.do"@
}

/// The search endpoint.
pub open spec fn nlic_search_url() -> Seq<char> {
    "https://www.law.go.kr/DRF/lawSearch.do"@
}

/// The query parameters of a search: key, target, format, query, the
/// offset of the page, the page size, then the filters that are set.
pub open spec fn nlic_search_params(key: Seq<char>, r: UnifiedSearchRequest) -> Seq<(Seq<char>, Seq<char>)> {
    let base = seq![
        ("OC"@, key),
        ("target"@, "law"@),
        ("type"@, "JSON"@),
        ("query"@, r.query@),
        ("page"@, dec(offset_of(r.page_no, r.page_size) as nat)),
        ("display"@, dec(r.page_size as nat)),
    ];
    with_opt(with_opt(with_opt(base, "MST"@, r.law_type), "ORG"@, r.department), "efYd"@, r.date_from)
}

/// The query parameters of a detail request (articles included).
pub open spec fn nlic_detail_params(key: Seq<char>, id: Seq<char>) -> Seq<(Seq<char>, Seq<char>)> {
    seq![("OC"@, key), ("target"@, "law"@), ("type"@, "JSON"@), ("MST"@, id), ("JO_YN"@, "Y"@)]
}

/// The query parameters of a history request.
pub open spec fn nlic_history_params(key: Seq<char>, id: Seq<char>) -> Seq<(Seq<char>, Seq<char>)> {
    seq![("OC"@, key), ("target"@, "lsHstry"@), ("type"@, "JSON"@), ("MST"@, id)]
}

/// The laws of a search answer.
pub open spec fn nlic_laws(raw: NlicSearchResponse) -> Seq<NlicLaw> {
    match raw.law_search {
        Some(d) => d.laws@,
        None => match raw.laws {
            Some(v) => v@,
            None => Seq::empty(),
        },
    }
}

/// The total count of a search answer (0 when absent or unreadable).
pub open spec fn nlic_total(raw: NlicSearchResponse) -> u32 {
    match raw.law_search {
        Some(d) => parsed_or(d.total_count, 0),
        None => or_default(raw.total_count, 0),
    }
}

/// The page size of a search answer (50 when absent or unreadable).
pub open spec fn nlic_page_size(raw: NlicSearchResponse) -> u32 {
    match raw.law_search {
        Some(d) => parsed_or(d.page_size, 50),
        None => or_default(raw.page_size, 50),
    }
}

/// The search item made of a law: its fields as they are, the source
/// `NLIC`, and its detail and full-text links as metadata.
pub open spec fn nlic_item(law: NlicLaw, item: SearchItem) -> bool {
    &&& item.id == law.law_id
    &&& item.title == law.law_name
    &&& item.law_no == law.law_no
    &&& item.law_type == law.law_type
    &&& item.department == law.department
    &&& item.enforcement_date == law.enforcement_date
    &&& item.revision_date == law.revision_date
    &&& item.summary == law.law_summary
    &&& item.source@ == "NLIC"@
    &&& item.metadata.wf()
    &&& item.metadata.map_view() == with_entry(
        with_entry(Map::empty(), "detail_link"@, law.law_detail_link), "full_link"@, law.law_full_link)
}

/// The article made of an answer's article.
pub open spec fn nlic_article(a: NlicArticle, b: Article) -> bool {
    b.number == a.article_number && b.title == a.article_title && b.content == a.article_content
        && b.paragraphs@.len() == 0
}

/// The history entry made of the `i`-th revision of an answer.
pub open spec fn nlic_history_entry(e: NlicHistoryEntry, i: int, h: HistoryEntry) -> bool {
    &&& h.revision_no == i + 1
    &&& h.revision_date == e.announcement_date
    &&& h.enforcement_date == e.enforcement_date
    &&& h.revision_type == e.revision_type
    &&& h.reason == e.reason
    &&& h.changed_articles@.len() == 0
}

/// The client of the National Law Information Center.
#[derive(Debug, Clone)]
pub struct NlicClient {
    pub config: ClientConfig,
}

fn nlic_item_of(law: NlicLaw) -> (item: SearchItem)
    ensures
        nlic_item(law, item),
{
    let mut metadata: StrMap<String> = StrMap::new();
    proof { assert(metadata.map_view() =~= Map::<Seq<char>, String>::empty()); }
    match law.law_detail_link {
        Some(d) => { metadata.insert("detail_link", d); }
        None => {}
    }
    match law.law_full_link {
        Some(f) => { metadata.insert("full_link", f); }
        None => {}
    }
    SearchItem {
        id: law.law_id,
        title: law.law_name,
        law_no: law.law_no,
        law_type: law.law_type,
        department: law.department,
        enforcement_date: law.enforcement_date,
        revision_date: law.revision_date,
        summary: law.law_summary,
        source: string_of("NLIC"),
        metadata,
    }
}

impl NlicClient {
    /// A client with the given settings.
    pub fn new(config: ClientConfig) -> (res: NlicClient)
        ensures
            res.config == config,
    {
        NlicClient { config }
    }

    /// The API this client talks to.
    pub fn api_type(&self) -> (res: ApiType)
        ensures
            res == ApiType::Nlic,
    {
        ApiType::Nlic
    }

    /// The detail endpoint.
    pub fn base_url(&self) -> (res: &'static str)
        ensures
            res@ == nlic_base_url(),
    {
        "https://www.law.go.kr/DRF/lawService.do"
    }

    /// Whether an API key is set.
    pub fn is_configured(&self) -> (res: bool)
        ensures
            res == (self.config.api_key@.len() != 0),
    {
        self.config.api_key.as_str().unicode_len() != 0
    }

    /// The retry schedule of a request: the base delay, doubled after
    /// every wait.
    pub fn retry_loop(&self) -> (res: RetryLoop)
        requires
            schedule_fits(Backoff::Doubling, self.config.max_retries, self.config.retry_base_delay),
        ensures
            res.wf(),
            res.backoff == Backoff::Doubling,
            res.max_retries == self.config.max_retries,
            res.base_millis == self.config.retry_base_delay,
            res.attempt == 0,
            res.last_error is None,
    {
        RetryLoop::new(Backoff::Doubling, self.config.max_retries, self.config.retry_base_delay)
    }

    /// The query parameters of a search.
    pub fn search_params(&self, request: &UnifiedSearchRequest) -> (res: Vec<(String, String)>)
        requires
            offset_fits(request.page_no, request.page_size),
        ensures
            params_view(res@) == nlic_search_params(self.config.api_key@, *request),
    {
        let offset = crate::api::client::page_offset(request.page_no, request.page_size);
        let mut params: Vec<(String, String)> = Vec::new();
        assert(params_view(params@) =~= Seq::<(Seq<char>, Seq<char>)>::empty());
        push_param(&mut params, "OC", self.config.api_key.as_str());
        push_param(&mut params, "target", "law");
        push_param(&mut params, "type", "JSON");
        push_param(&mut params, "query", request.query.as_str());
        push_num_param(&mut params, "page", offset);
        push_num_param(&mut params, "display", request.page_size);
        match &request.law_type {
            Some(t) => push_param(&mut params, "MST", t.as_str()),
            None => {}
        }
        match &request.department {
            Some(d) => push_param(&mut params, "ORG", d.as_str()),
            None => {}
        }
        match &request.date_from {
            Some(d) => push_param(&mut params, "efYd", d.as_str()),
            None => {}
        }
        proof { reveal_strlit(""); }
        assert(params_view(params@) =~= nlic_search_params(self.config.api_key@, *request));
        params
    }

    /// The URL of a search, or why there is none: no API key, or a URL
    /// that does not parse.
    pub fn search_url(&self, request: &UnifiedSearchRequest) -> (res: Result<String, WarpError>)
        requires
            offset_fits(request.page_no, request.page_size),
        ensures
            self.config.api_key@.len() == 0 ==> res matches Err(WarpError::NoApiKey),
            self.config.api_key@.len() != 0 ==> url_outcome(
                url_with_query(nlic_search_url(), nlic_search_params(self.config.api_key@, *request)), res),
    {
        if !self.is_configured() {
            return Err(WarpError::NoApiKey);
        }
        let params = self.search_params(request);
        build_url("https://www.law.go.kr/DRF/lawSearch.do", &params)
    }

    /// Checks the body of a search answer: HTML and blank bodies are refused.
    pub fn check_search_response(&self, is_html: bool, text: &str) -> (res: Result<(), WarpError>)
        ensures
            (is_html || has_prefix(text@, "<"@)) ==> (res matches Err(e) && is_html_answer_error(e, "law.nlic.key"@)),
            !(is_html || has_prefix(text@, "<"@)) && trimmed_of(text@).len() == 0
                ==> (res matches Err(e) && is_empty_answer_error(e)),
            res is Ok <==> !(is_html || has_prefix(text@, "<"@)) && trimmed_of(text@).len() != 0,
    {
        check_search_text(is_html, text, "law.nlic.key")
    }

    /// The error for a search answer that is not valid JSON: an error
    /// report when the body mentions an error, else a parse error quoting
    /// the first 100 characters of the body.
    pub fn search_parse_failure(&self, text: &str, parse_error: &str) -> (res: WarpError)
        ensures
            mentions_error(text@) ==> is_reported_error(res, text@),
            !mentions_error(text@) ==> (res matches WarpError::Parse(m)
                && m@ == "Failed to parse API response as JSON: "@ + parse_error@
                    + ". Response starts with: "@ + first_chars(text@, 100)),
    {
        if contains_str(text, "error") || contains_str(text, "Error") {
            reported_error(text)
        } else {
            let mut m = string_of("Failed to parse API response as JSON: ");
            push_str(&mut m, parse_error);
            push_str(&mut m, ". Response starts with: ");
            let head = take_chars(text, 100);
            push_str(&mut m, head.as_str());
            WarpError::Parse(m)
        }
    }

    /// The shared search response made of an answer: every law as a
    /// search item, in order, for the page that was asked for.
    pub fn parse_search_response(&self, raw: NlicSearchResponse, requested_page: u32) -> (res: SearchResponse)
        ensures
            res.total_count == nlic_total(raw),
            res.page_no == requested_page,
            res.page_size == nlic_page_size(raw),
            res.items@.len() == nlic_laws(raw).len(),
            forall|i: int| 0 <= i < res.items@.len() ==> nlic_item(#[trigger] nlic_laws(raw)[i], res.items@[i]),
            res.source@ == "NLIC"@,
    {
        let ghost laws_view = nlic_laws(raw);
        let (laws, total_count, page_size) = match raw.law_search {
            Some(d) => {
                let total = opt_number(d.total_count, 0);
                let size = opt_number(d.page_size, 50);
                (d.laws, total, size)
            }
            None => {
                let laws = match raw.laws {
                    Some(v) => v,
                    None => Vec::new(),
                };
                let total = match raw.total_count { Some(t) => t, None => 0 };
                let size = match raw.page_size { Some(s) => s, None => 50 };
                (laws, total, size)
            }
        };
        assert(laws@ == laws_view);
        let mut items: Vec<SearchItem> = Vec::new();
        broadcast use vstd::std_specs::vec::axiom_spec_into_iter;
        for law in it: laws.into_iter()
            invariant
                it.seq() == laws_view,
                items@.len() == it.index(),
                forall|i: int| 0 <= i < items@.len() ==> nlic_item(#[trigger] laws_view[i], items@[i]),
        {
            let item = nlic_item_of(law);
            items.push(item);
        }
        SearchResponse {
            total_count,
            page_no: requested_page,
            page_size,
            items,
            source: string_of("NLIC"),
            timestamp: now_millis(),
        }
    }

    /// The cache key of a search request: the search endpoint with the query, law type, page and page size.
    pub fn search_cache_key(&self, request: &UnifiedSearchRequest) -> (res: String)
        ensures
            res@ == cache_key(ApiType::Nlic, "search"@, nlic_params(Some(request.query@),
                opt_chars(request.law_type), Some(request.page_no), Some(request.page_size)), None),
    {
        let law_type = match &request.law_type { Some(t) => Some(t.as_str()), None => None };
        CacheKeyGenerator::nlic_key("search", Some(request.query.as_str()), law_type, Some(request.page_no), Some(request.page_size))
    }

    /// The cache key of a detail request (`nlic:detail:<id>`).
    pub fn detail_cache_key(&self, id: &str) -> (res: String)
        ensures
            res@ == item_cache_key(ApiType::Nlic, "detail"@, id@),
    {
        item_key(ApiType::Nlic, "detail", id)
    }

    /// The cache key of a history request (`nlic:history:<id>`).
    pub fn history_cache_key(&self, id: &str) -> (res: String)
        ensures
            res@ == item_cache_key(ApiType::Nlic, "history"@, id@),
    {
        item_key(ApiType::Nlic, "history", id)
    }

    /// The URL of a detail request, or why there is none.
    pub fn detail_url(&self, id: &str) -> (res: Result<String, WarpError>)
        ensures
            self.config.api_key@.len() == 0 ==> res matches Err(WarpError::NoApiKey),
            self.config.api_key@.len() != 0 ==> url_outcome(
                url_with_query(nlic_base_url(), nlic_detail_params(self.config.api_key@, id@)), res),
    {
        if !self.is_configured() {
            return Err(WarpError::NoApiKey);
        }
        let mut params: Vec<(String, String)> = Vec::new();
        push_param(&mut params, "OC", self.config.api_key.as_str());
        push_param(&mut params, "target", "law");
        push_param(&mut params, "type", "JSON");
        push_param(&mut params, "MST", id);
        push_param(&mut params, "JO_YN", "Y");
        assert(params_view(params@) =~= nlic_detail_params(self.config.api_key@, id@));
        build_url("https://www.law.go.kr/DRF/lawService.do", &params)
    }

    /// The URL of a history request, or why there is none.
    pub fn history_url(&self, id: &str) -> (res: Result<String, WarpError>)
        ensures
            self.config.api_key@.len() == 0 ==> res matches Err(WarpError::NoApiKey),
            self.config.api_key@.len() != 0 ==> url_outcome(
                url_with_query(nlic_base_url(), nlic_history_params(self.config.api_key@, id@)), res),
    {
        if !self.is_configured() {
            return Err(WarpError::NoApiKey);
        }
        let mut params: Vec<(String, String)> = Vec::new();
        push_param(&mut params, "OC", self.config.api_key.as_str());
        push_param(&mut params, "target", "lsHstry");
        push_param(&mut params, "type", "JSON");
        push_param(&mut params, "MST", id);
        assert(params_view(params@) =~= nlic_history_params(self.config.api_key@, id@));
        build_url("https://www.law.go.kr/DRF/lawService.do", &params)
    }

    /// Checks the body of a detail or history answer.
    pub fn check_detail_response(&self, text: &str) -> (res: Result<(), WarpError>)
        ensures
            has_prefix(text@, "<"@) ==> (res matches Err(e) && is_html_detail_error(e)),
            res is Ok <==> !has_prefix(text@, "<"@),
    {
        check_detail_text(text)
    }

    /// The error for a detail answer that is not valid JSON.
    pub fn detail_parse_failure(&self, parse_error: &str) -> (res: WarpError)
        ensures
            res matches WarpError::Parse(m) && m@ == "Failed to parse detail response: "@ + parse_error@,
    {
        parse_failure("Failed to parse detail response: ", parse_error)
    }

    /// The error for a history answer that is not valid JSON.
    pub fn history_parse_failure(&self, parse_error: &str) -> (res: WarpError)
        ensures
            res matches WarpError::Parse(m) && m@ == "Failed to parse history response: "@ + parse_error@,
    {
        parse_failure("Failed to parse history response: ", parse_error)
    }
}

impl NlicDetailContent {
    /// The shared law detail: the law's fields and articles as they are,
    /// with no combined content, attachments, related laws or metadata.
    pub fn into_law_detail(self) -> (res: LawDetail)
        ensures
            res.law_id == self.law_id,
            res.law_name == self.law_name,
            res.law_no == self.law_no,
            res.law_type == self.law_type,
            res.department == self.department,
            res.enforcement_date == self.enforcement_date,
            res.revision_date == self.revision_date,
            res.content@.len() == 0,
            res.articles@.len() == self.articles@.len(),
            forall|i: int| 0 <= i < res.articles@.len() ==> nlic_article(#[trigger] self.articles@[i], res.articles@[i]),
            res.attachments@.len() == 0,
            res.related_laws@.len() == 0,
            res.metadata.wf(),
            res.metadata.map_view().dom().len() == 0,
    {
        let ghost src = self.articles@;
        let mut articles: Vec<Article> = Vec::new();
        broadcast use vstd::std_specs::vec::axiom_spec_into_iter;
        for a in it: self.articles.into_iter()
            invariant
                it.seq() == src,
                articles@.len() == it.index(),
                forall|i: int| 0 <= i < articles@.len() ==> nlic_article(#[trigger] src[i], articles@[i]),
        {
            articles.push(Article {
                number: a.article_number,
                title: a.article_title,
                content: a.article_content,
                paragraphs: Vec::new(),
            });
        }
        let metadata: StrMap<String> = StrMap::new();
        assert(metadata.map_view().dom() =~= Set::<Seq<char>>::empty());
        LawDetail {
            law_id: self.law_id,
            law_name: self.law_name,
            law_no: self.law_no,
            law_type: self.law_type,
            department: self.department,
            enforcement_date: self.enforcement_date,
            revision_date: self.revision_date,
            content: String::new(),
            articles,
            attachments: Vec::new(),
            related_laws: Vec::new(),
            metadata,
        }
    }
}

impl NlicDetailResponse {
    /// The shared law detail of the answer's law.
    pub fn into_law_detail(self) -> (res: LawDetail)
        ensures
            res.law_id == self.law.law_id,
            res.law_name == self.law.law_name,
            res.articles@.len() == self.law.articles@.len(),
            forall|i: int| 0 <= i < res.articles@.len() ==> nlic_article(#[trigger] self.law.articles@[i], res.articles@[i]),
    {
        self.law.into_law_detail()
    }
}

impl NlicHistoryResponse {
    /// The shared history: one entry per revision, numbered from 1 in the
    /// answer's order, with an empty law id and name.
    pub fn into_law_history(self) -> (res: LawHistory)
        requires
            self.history@.len() <= u32::MAX,
        ensures
            res.law_id@.len() == 0,
            res.law_name@.len() == 0,
            res.total_count == self.history@.len(),
            res.entries@.len() == self.history@.len(),
            forall|i: int| 0 <= i < res.entries@.len() ==> nlic_history_entry(#[trigger] self.history@[i], i, res.entries@[i]),
    {
        let ghost src = self.history@;
        let n = self.history.len();
        let mut entries: Vec<HistoryEntry> = Vec::new();
        let mut idx: u32 = 0;
        broadcast use vstd::std_specs::vec::axiom_spec_into_iter;
        for entry in it: self.history.into_iter()
            invariant
                it.seq() == src,
                src.len() == n,
                n <= u32::MAX,
                entries@.len() == it.index(),
                idx == it.index(),
                forall|i: int| 0 <= i < entries@.len() ==> nlic_history_entry(#[trigger] src[i], i, entries@[i]),
        {
            entries.push(HistoryEntry {
                revision_no: idx + 1,
                revision_date: entry.announcement_date,
                enforcement_date: entry.enforcement_date,
                revision_type: entry.revision_type,
                reason: entry.reason,
                changed_articles: Vec::new(),
            });
            idx = idx + 1;
        }
        let total = entries.len() as u32;
        LawHistory {
            law_id: String::new(),
            law_name: String::new(),
            total_count: total,
            entries,
        }
    }
}

/// How an NLIC search ended, as its metrics see it. The search is timed
/// under `nlic_search`, and its cache lookup counted under `nlic`.
#[derive(Debug, Clone, Copy, PartialEq, Eq, Structural)]
pub enum NlicSearchEnd {
    /// Refused for want of an API key, before anything else.
    NoApiKey,
    /// The cache could not be read.
    CacheFailed,
    /// Answered from the cache.
    CacheHit,
    /// After a cache miss, the URL, the request or its body failed.
    FetchFailed,
    /// After a cache miss, the answer was HTML, empty or could not be read.
    Rejected,
    /// After a cache miss, the answer was read.
    Fetched,
}

/// The operation under which NLIC searches are timed.
pub open spec fn nlic_search_operation() -> Seq<char> {
    "nlic_search"@
}

/// The name under which the NLIC cache lookups are counted.
pub open spec fn nlic_cache_name() -> Seq<char> {
    "nlic"@
}

/// The end is timed: the search's timer records it (errors of the cache,
/// the URL or the transport pass it by).
pub open spec fn search_end_timed(end: NlicSearchEnd) -> bool {
    end != NlicSearchEnd::CacheFailed && end != NlicSearchEnd::FetchFailed
}

/// The end counts as a successful search.
pub open spec fn search_end_succeeded(end: NlicSearchEnd) -> bool {
    end == NlicSearchEnd::CacheHit || end == NlicSearchEnd::Fetched
}

/// The end came after a cache miss.
pub open spec fn search_end_missed(end: NlicSearchEnd) -> bool {
    end == NlicSearchEnd::FetchFailed || end == NlicSearchEnd::Rejected || end == NlicSearchEnd::Fetched
}

/// The counters have room for what the end records.
pub open spec fn search_end_recordable(c: MetricsCollector, end: NlicSearchEnd, elapsed: Duration) -> bool {
    &&& search_end_timed(end) ==> can_record(value_or(c.ops(), nlic_search_operation(), fresh_stats()), elapsed@)
    &&& end == NlicSearchEnd::CacheHit ==> value_or(c.caches(), nlic_cache_name(), fresh_cache()).hits < u64::MAX
    &&& search_end_missed(end) ==> value_or(c.caches(), nlic_cache_name(), fresh_cache()).misses < u64::MAX
}

/// Whether the counters have room for what an end records.
pub fn search_end_fits(collector: &MetricsCollector, end: NlicSearchEnd, elapsed: Duration) -> (res: bool)
    requires
        collector.wf(),
    ensures
        res == search_end_recordable(*collector, end, elapsed),
{
    let timed = !matches!(end, NlicSearchEnd::CacheFailed | NlicSearchEnd::FetchFailed);
    let counters = collector.cache_counters("nlic");
    let op_ok = !timed || collector.can_record_request("nlic_search", elapsed);
    let hit_ok = !matches!(end, NlicSearchEnd::CacheHit) || counters.hits < u64::MAX;
    let miss_ok = !matches!(end, NlicSearchEnd::FetchFailed | NlicSearchEnd::Rejected | NlicSearchEnd::Fetched)
        || counters.misses < u64::MAX;
    op_ok && hit_ok && miss_ok
}

/// Records how one NLIC search ended after `elapsed`: a cache hit or a
/// miss under `nlic` when the lookup was made, and a success or a failure
/// of `nlic_search` when the search's timer saw the end.
pub fn record_search_end(collector: &mut MetricsCollector, end: NlicSearchEnd, elapsed: Duration)
    requires
        old(collector).wf(),
        search_end_recordable(*old(collector), end, elapsed),
    ensures
        final(collector).wf(),
        final(collector).ops() == if !search_end_timed(end) {
            old(collector).ops()
        } else if search_end_succeeded(end) {
            old(collector).ops().insert(nlic_search_operation(),
                model_add_success(value_or(old(collector).ops(), nlic_search_operation(), fresh_stats()), elapsed@))
        } else {
            old(collector).ops().insert(nlic_search_operation(),
                model_add_failure(value_or(old(collector).ops(), nlic_search_operation(), fresh_stats()), elapsed@))
        },
        final(collector).caches() == if end == NlicSearchEnd::CacheHit {
            old(collector).caches().insert(nlic_cache_name(), CacheMetrics {
                hits: (value_or(old(collector).caches(), nlic_cache_name(), fresh_cache()).hits + 1) as u64,
                ..value_or(old(collector).caches(), nlic_cache_name(), fresh_cache())
            })
        } else if search_end_missed(end) {
            old(collector).caches().insert(nlic_cache_name(), CacheMetrics {
                misses: (value_or(old(collector).caches(), nlic_cache_name(), fresh_cache()).misses + 1) as u64,
                ..value_or(old(collector).caches(), nlic_cache_name(), fresh_cache())
            })
        } else {
            old(collector).caches()
        },
        final(collector).pools() == old(collector).pools(),
{
    match end {
        NlicSearchEnd::NoApiKey => {
            collector.record_request_failure("nlic_search", elapsed);
        }
        NlicSearchEnd::CacheFailed => {}
        NlicSearchEnd::CacheHit => {
            collector.record_cache_hit("nlic");
            collector.record_request_success("nlic_search", elapsed);
        }
        NlicSearchEnd::FetchFailed => {
            collector.record_cache_miss("nlic");
        }
        NlicSearchEnd::Rejected => {
            collector.record_cache_miss("nlic");
            collector.record_request_failure("nlic_search", elapsed);
        }
        NlicSearchEnd::Fetched => {
            collector.record_cache_miss("nlic");
            collector.record_request_success("nlic_search", elapsed);
        }
    }
}

/// A NLIC search asks for its page by offset: the `page` parameter is the
/// position of the page's first result, (page_no - 1) * page_size + 1 (page 2
/// of size 10 asks from result 11), `display` is the page size, and the key
/// and query go first.
pub proof fn law_nlic_search_page_is_offset(key: Seq<char>, r: UnifiedSearchRequest)
    requires
        r.page_no >= 1,
    ensures
        nlic_search_params(key, r).len() >= 6,
        nlic_search_params(key, r)[0] == ("OC"@, key),
        nlic_search_params(key, r)[3] == ("query"@, r.query@),
        nlic_search_params(key, r)[4] == ("page"@, crate::text::dec(((r.page_no - 1) * r.page_size + 1) as nat)),
        nlic_search_params(key, r)[5] == ("display"@, crate::text::dec(r.page_size as nat)),
{
}

/// A detail request carries the API key first and names the document asked
/// for: requests for two different documents differ, and one key never
/// stands for another.
pub proof fn law_nlic_detail_params_name_the_document(k1: Seq<char>, k2: Seq<char>, a: Seq<char>, b: Seq<char>)
    ensures
        nlic_detail_params(k1, a)[0] == ("OC"@, k1),
        nlic_detail_params(k1, a) == nlic_detail_params(k2, b) ==> k1 == k2 && a == b,
{
    if nlic_detail_params(k1, a) == nlic_detail_params(k2, b) {
        assert(nlic_detail_params(k1, a)[0] == nlic_detail_params(k2, b)[0]);
        assert(nlic_detail_params(k1, a)[3] == nlic_detail_params(k2, b)[3]);
    }
}

/// A history request carries the API key first and names the document asked
/// for: requests for two different documents differ, and one key never
/// stands for another.
pub proof fn law_nlic_history_params_name_the_document(k1: Seq<char>, k2: Seq<char>, a: Seq<char>, b: Seq<char>)
    ensures
        nlic_history_params(k1, a)[0] == ("OC"@, k1),
        nlic_history_params(k1, a) == nlic_history_params(k2, b) ==> k1 == k2 && a == b,
{
    if nlic_history_params(k1, a) == nlic_history_params(k2, b) {
        assert(nlic_history_params(k1, a)[0] == nlic_history_params(k2, b)[0]);
        assert(nlic_history_params(k1, a)[3] == nlic_history_params(k2, b)[3]);
    }
}

} // verus!
