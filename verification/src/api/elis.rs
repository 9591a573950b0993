//! The Local Regulations Information System (자치법규정보시스템) client:
//! its requests, the checks on its answers, and the conversion of its
//! answers into the shared shapes.

use vstd::prelude::*;
use crate::api::ApiType;
use crate::api::client::{ClientConfig, offset_fits, offset_of, params_view, push_param, push_num_param,
    build_url, url_with_query, url_outcome, check_search_text_for_html, is_html_answer_error,
    check_detail_text, is_html_detail_error, parse_failure, item_key, item_cache_key, Backoff, RetryLoop,
    schedule_fits, with_opt, or_default, with_entry};
use crate::api::types::{UnifiedSearchRequest, SearchItem, SearchResponse, LawDetail, Article, LawHistory};
use crate::clock::now_millis;
use crate::error::WarpError;
use crate::strmap::StrMap;
use crate::cache::key::{CacheKeyGenerator, cache_key, elis_params};
use crate::api::batcher::opt_chars;
use crate::text::{string_of, push_str, dec, has_prefix};

verus! {

/// A search answer: nested under `LawSearch`, or flat.
#[derive(Debug)]
pub struct ElisSearchResponse {
    pub law_search: Option<ElisSearchData>,
    pub total_count: Option<u32>,
    pub page_no: Option<u32>,
    pub page_size: Option<u32>,
    pub laws: Option<Vec<ElisLaw>>,
}

/// The nested part of a search answer.
#[derive(Debug)]
pub struct ElisSearchData {
    pub total_count: Option<u32>,
    pub page_no: Option<u32>,
    pub page_size: Option<u32>,
    pub laws: Vec<ElisLaw>,
}

/// One local regulation of a search answer.
#[derive(Debug)]
pub struct ElisLaw {
    pub law_id: String,
    pub law_name: String,
    pub region: Option<String>,
    pub law_type: Option<String>,
    pub department: Option<String>,
    pub enforcement_date: Option<String>,
    pub revision_date: Option<String>,
    pub law_no: Option<String>,
    pub law_summary: Option<String>,
}

/// A detail answer.
#[derive(Debug)]
pub struct ElisDetailResponse {
    pub law: ElisDetailContent,
}

/// The regulation of a detail answer.
#[derive(Debug)]
pub struct ElisDetailContent {
    pub basic_info: ElisBasicInfo,
    pub articles: Vec<ElisArticle>,
}

/// The identification of a regulation.
#[derive(Debug)]
pub struct ElisBasicInfo {
    pub law_id: String,
    pub law_name: String,
    pub region: Option<String>,
}

/// One article of a detail answer.
#[derive(Debug)]
pub struct ElisArticle {
    pub number: String,
    pub title: Option<String>,
    pub content: String,
}

/// The detail endpoint.
pub open spec fn elis_base_url() -> Seq<char> {
    "https://www.elis.go.kr/api/"@
}

/// The search endpoint.
pub open spec fn elis_search_url() -> Seq<char> {
    "https://www.elis.go.kr/api/search"@
}

/// The query parameters of a search: key, target, format, query, the
/// offset of the page, the page size, then region and regulation type when set.
pub open spec fn elis_search_params(key: Seq<char>, r: UnifiedSearchRequest) -> Seq<(Seq<char>, Seq<char>)> {
    let base = seq![
        ("OC"@, key),
        ("target"@, "law"@),
        ("type"@, "JSON"@),
        ("query"@, r.query@),
        ("page"@, dec(offset_of(r.page_no, r.page_size) as nat)),
        ("display"@, dec(r.page_size as nat)),
    ];
    with_opt(with_opt(base, "region"@, r.region), "lsKndCd"@, r.law_type)
}

/// The query parameters of a detail request.
pub open spec fn elis_detail_params(key: Seq<char>, id: Seq<char>) -> Seq<(Seq<char>, Seq<char>)> {
    seq![("OC"@, key), ("target"@, "lawDetail"@), ("type"@, "JSON"@), ("MST"@, id)]
}

/// The regulations of a search answer.
pub open spec fn elis_laws(raw: ElisSearchResponse) -> Seq<ElisLaw> {
    match raw.law_search {
        Some(d) => d.laws@,
        None => match raw.laws {
            Some(v) => v@,
            None => Seq::empty(),
        },
    }
}

/// The search item made of a regulation: its fields as they are, the
/// source `ELIS`, and its region as metadata.
pub open spec fn elis_item(law: ElisLaw, item: SearchItem) -> bool {
    &&& item.id == law.law_id
    &&& item.title == law.law_name
    &&& item.law_no == law.law_no
    &&& item.law_type == law.law_type
    &&& item.department == law.department
    &&& item.enforcement_date == law.enforcement_date
    &&& item.revision_date == law.revision_date
    &&& item.summary == law.law_summary
    &&& item.source@ == "ELIS"@
    &&& item.metadata.wf()
    &&& item.metadata.map_view() == with_entry(Map::empty(), "region"@, law.region)
}

/// One article as a line of the combined content: `<number>: <content>`.
pub open spec fn article_line(a: ElisArticle) -> Seq<char> {
    a.number@ + ": "@ + a.content@
}

/// The article lines joined by blank lines.
pub open spec fn joined_articles(s: Seq<ElisArticle>) -> Seq<char>
    decreases s.len(),
{
    if s.len() == 0 {
        Seq::empty()
    } else if s.len() == 1 {
        article_line(s[0])
    } else {
        joined_articles(s.drop_last()) + "\n\n"@ + article_line(s.last())
    }
}

/// The shared article made of an answer's article.
pub open spec fn elis_article(a: ElisArticle, b: Article) -> bool {
    b.number == a.number && b.title == a.title && b.content == a.content && b.paragraphs@.len() == 0
}

/// The client of the Local Regulations Information System.
#[derive(Debug, Clone)]
pub struct ElisClient {
    pub config: ClientConfig,
}

fn elis_item_of(law: ElisLaw) -> (item: SearchItem)
    ensures
        elis_item(law, item),
{
    let mut metadata: StrMap<String> = StrMap::new();
    proof { assert(metadata.map_view() =~= Map::<Seq<char>, String>::empty()); }
    match law.region {
        Some(r) => { metadata.insert("region", r); }
        None => {}
    }
    SearchItem {
        id: law.law_id,
        title: law.law_name,
        law_no: law.law_no,
        law_type: law.law_type,
        department: law.department,
        enforcement_date: law.enforcement_date,
        revision_date: law.revision_date,
        summary: law.law_summary,
        source: string_of("ELIS"),
        metadata,
    }
}

impl ElisClient {
    /// A client with the given settings.
    pub fn new(config: ClientConfig) -> (res: ElisClient)
        ensures
            res.config == config,
    {
        ElisClient { config }
    }

    /// The API this client talks to.
    pub fn api_type(&self) -> (res: ApiType)
        ensures
            res == ApiType::Elis,
    {
        ApiType::Elis
    }

    /// The detail endpoint.
    pub fn base_url(&self) -> (res: &'static str)
        ensures
            res@ == elis_base_url(),
    {
        "https://www.elis.go.kr/api/"
    }

    /// Whether an API key is set.
    pub fn is_configured(&self) -> (res: bool)
        ensures
            res == (self.config.api_key@.len() != 0),
    {
        self.config.api_key.as_str().unicode_len() != 0
    }

    /// The retry schedule of a request: `2^n` seconds before attempt `n`.
    pub fn retry_loop(&self) -> (res: RetryLoop)
        requires
            schedule_fits(Backoff::PowersOfTwoSeconds, self.config.max_retries, self.config.retry_base_delay),
        ensures
            res.wf(),
            res.backoff == Backoff::PowersOfTwoSeconds,
            res.max_retries == self.config.max_retries,
            res.attempt == 0,
            res.last_error is None,
    {
        RetryLoop::new(Backoff::PowersOfTwoSeconds, self.config.max_retries, self.config.retry_base_delay)
    }

    /// The query parameters of a search.
    pub fn search_params(&self, request: &UnifiedSearchRequest) -> (res: Vec<(String, String)>)
        requires
            offset_fits(request.page_no, request.page_size),
        ensures
            params_view(res@) == elis_search_params(self.config.api_key@, *request),
    {
        let offset = crate::api::client::page_offset(request.page_no, request.page_size);
        let mut params: Vec<(String, String)> = Vec::new();
        assert(params_view(params@) =~= Seq::<(Seq<char>, Seq<char>)>::empty());
        push_param(&mut params, "OC", self.config.api_key.as_str());
        push_param(&mut params, "target", "law");
        push_param(&mut params, "type", "JSON");
        push_param(&mut params, "query", request.query.as_str());
        push_num_param(&mut params, "page", offset);
        push_num_param(&mut params, "display", request.page_size);
        match &request.region {
            Some(r) => push_param(&mut params, "region", r.as_str()),
            None => {}
        }
        match &request.law_type {
            Some(t) => push_param(&mut params, "lsKndCd", t.as_str()),
            None => {}
        }
        assert(params_view(params@) =~= elis_search_params(self.config.api_key@, *request));
        params
    }

    /// The URL of a search, or why there is none.
    pub fn search_url(&self, request: &UnifiedSearchRequest) -> (res: Result<String, WarpError>)
        requires
            offset_fits(request.page_no, request.page_size),
        ensures
            self.config.api_key@.len() == 0 ==> res matches Err(WarpError::NoApiKey),
            self.config.api_key@.len() != 0 ==> url_outcome(
                url_with_query(elis_search_url(), elis_search_params(self.config.api_key@, *request)), res),
    {
        if !self.is_configured() {
            return Err(WarpError::NoApiKey);
        }
        let params = self.search_params(request);
        build_url("https://www.elis.go.kr/api/search", &params)
    }

    /// Checks the body of a search answer: a body starting with `<` is HTML.
    pub fn check_search_response(&self, text: &str) -> (res: Result<(), WarpError>)
        ensures
            has_prefix(text@, "<"@) ==> (res matches Err(e) && is_html_answer_error(e, "law.elis.key"@)),
            res is Ok <==> !has_prefix(text@, "<"@),
    {
        check_search_text_for_html(text, "law.elis.key")
    }

    /// The error for a search answer that is not valid JSON.
    pub fn search_parse_failure(&self, parse_error: &str) -> (res: WarpError)
        ensures
            res matches WarpError::Parse(m) && m@ == "Failed to parse ELIS response: "@ + parse_error@,
    {
        parse_failure("Failed to parse ELIS response: ", parse_error)
    }

    /// The shared search response made of an answer: every regulation as
    /// a search item, in order, with the answer's top-level count and
    /// page size.
    pub fn parse_search_response(&self, raw: ElisSearchResponse, requested_page: u32) -> (res: SearchResponse)
        ensures
            res.total_count == or_default(raw.total_count, 0),
            res.page_no == requested_page,
            res.page_size == or_default(raw.page_size, 50),
            res.items@.len() == elis_laws(raw).len(),
            forall|i: int| 0 <= i < res.items@.len() ==> elis_item(#[trigger] elis_laws(raw)[i], res.items@[i]),
            res.source@ == "ELIS"@,
    {
        let ghost laws_view = elis_laws(raw);
        let total_count = match raw.total_count { Some(t) => t, None => 0 };
        let page_size = match raw.page_size { Some(s) => s, None => 50 };
        let laws = match raw.law_search {
            Some(d) => d.laws,
            None => match raw.laws {
                Some(v) => v,
                None => Vec::new(),
            },
        };
        assert(laws@ == laws_view);
        let mut items: Vec<SearchItem> = Vec::new();
        broadcast use vstd::std_specs::vec::axiom_spec_into_iter;
        for law in it: laws.into_iter()
            invariant
                it.seq() == laws_view,
                items@.len() == it.index(),
                forall|i: int| 0 <= i < items@.len() ==> elis_item(#[trigger] laws_view[i], items@[i]),
        {
            items.push(elis_item_of(law));
        }
        SearchResponse {
            total_count,
            page_no: requested_page,
            page_size,
            items,
            source: string_of("ELIS"),
            timestamp: now_millis(),
        }
    }

    /// The cache key of a search request: the search endpoint with the query, region, law type, page and page size.
    pub fn search_cache_key(&self, request: &UnifiedSearchRequest) -> (res: String)
        ensures
            res@ == cache_key(ApiType::Elis, "search"@, elis_params(Some(request.query@), opt_chars(request.region),
                opt_chars(request.law_type), Some(request.page_no), Some(request.page_size)), None),
    {
        let region = match &request.region { Some(t) => Some(t.as_str()), None => None };
        let law_type = match &request.law_type { Some(t) => Some(t.as_str()), None => None };
        CacheKeyGenerator::elis_key("search", Some(request.query.as_str()), region, law_type, Some(request.page_no), Some(request.page_size))
    }

    /// The cache key of a detail request (`elis:detail:<id>`).
    pub fn detail_cache_key(&self, id: &str) -> (res: String)
        ensures
            res@ == item_cache_key(ApiType::Elis, "detail"@, id@),
    {
        item_key(ApiType::Elis, "detail", id)
    }

    /// The URL of a detail request, or why there is none.
    pub fn detail_url(&self, id: &str) -> (res: Result<String, WarpError>)
        ensures
            self.config.api_key@.len() == 0 ==> res matches Err(WarpError::NoApiKey),
            self.config.api_key@.len() != 0 ==> url_outcome(
                url_with_query(elis_base_url(), elis_detail_params(self.config.api_key@, id@)), res),
    {
        if !self.is_configured() {
            return Err(WarpError::NoApiKey);
        }
        let mut params: Vec<(String, String)> = Vec::new();
        push_param(&mut params, "OC", self.config.api_key.as_str());
        push_param(&mut params, "target", "lawDetail");
        push_param(&mut params, "type", "JSON");
        push_param(&mut params, "MST", id);
        assert(params_view(params@) =~= elis_detail_params(self.config.api_key@, id@));
        build_url("https://www.elis.go.kr/api/", &params)
    }

    /// Checks the body of a detail answer.
    pub fn check_detail_response(&self, text: &str) -> (res: Result<(), WarpError>)
        ensures
            has_prefix(text@, "<"@) ==> (res matches Err(e) && is_html_detail_error(e)),
            res is Ok <==> !has_prefix(text@, "<"@),
    {
        check_detail_text(text)
    }

    /// The error for a detail answer that is not valid JSON.
    pub fn detail_parse_failure(&self, parse_error: &str) -> (res: WarpError)
        ensures
            res matches WarpError::Parse(m) && m@ == "Failed to parse detail response: "@ + parse_error@,
    {
        parse_failure("Failed to parse detail response: ", parse_error)
    }

    /// The history of a regulation: the service keeps none, so it is
    /// empty under the given id.
    pub fn get_history(&self, id: &str) -> (res: LawHistory)
        ensures
            res.law_id@ == id@,
            res.law_name@.len() == 0,
            res.total_count == 0,
            res.entries@.len() == 0,
    {
        empty_history(id)
    }
}

/// An empty history under the given id.
pub fn empty_history(id: &str) -> (res: LawHistory)
    ensures
        res.law_id@ == id@,
        res.law_name@.len() == 0,
        res.total_count == 0,
        res.entries@.len() == 0,
{
    LawHistory { law_id: string_of(id), law_name: String::new(), total_count: 0, entries: Vec::new() }
}

impl ElisDetailResponse {
    /// The shared law detail: id and name from the basic information, the
    /// articles as they are, and their lines joined by blank lines as
    /// content; the other fields are empty.
    pub fn into_law_detail(self) -> (res: LawDetail)
        ensures
            res.law_id == self.law.basic_info.law_id,
            res.law_name == self.law.basic_info.law_name,
            res.law_no is None,
            res.law_type is None,
            res.department is None,
            res.enforcement_date is None,
            res.revision_date is None,
            res.content@ == joined_articles(self.law.articles@),
            res.articles@.len() == self.law.articles@.len(),
            forall|i: int| 0 <= i < res.articles@.len() ==> elis_article(#[trigger] self.law.articles@[i], res.articles@[i]),
            res.attachments@.len() == 0,
            res.related_laws@.len() == 0,
            res.metadata.wf(),
            res.metadata.map_view().dom().len() == 0,
    {
        let ghost src = self.law.articles@;
        let n = self.law.articles.len();
        let mut content = String::new();
        let mut i: usize = 0;
        while i < n
            invariant
                n == src.len(),
                src == self.law.articles@,
                i <= n,
                content@ == joined_articles(src.take(i as int)),
            decreases n - i,
        {
            let a = &self.law.articles[i];
            let ghost pre = content@;
            if i > 0 {
                push_str(&mut content, "\n\n");
            }
            push_str(&mut content, a.number.as_str());
            push_str(&mut content, ": ");
            push_str(&mut content, a.content.as_str());
            assert(src.take(i + 1).drop_last() =~= src.take(i as int));
            assert(src.take(i + 1).last() == src[i as int]);
            proof {
                if i == 0 {
                    assert(content@ =~= article_line(src[0]));
                } else {
                    assert(content@ =~= pre + "\n\n"@ + article_line(src[i as int]));
                }
            }
            i = i + 1;
        }
        assert(src.take(n as int) =~= src);
        let mut articles: Vec<Article> = Vec::new();
        broadcast use vstd::std_specs::vec::axiom_spec_into_iter;
        for a in it: self.law.articles.into_iter()
            invariant
                it.seq() == src,
                articles@.len() == it.index(),
                forall|k: int| 0 <= k < articles@.len() ==> elis_article(#[trigger] src[k], articles@[k]),
        {
            articles.push(Article { number: a.number, title: a.title, content: a.content, paragraphs: Vec::new() });
        }
        let metadata: StrMap<String> = StrMap::new();
        assert(metadata.map_view().dom() =~= Set::<Seq<char>>::empty());
        LawDetail {
            law_id: self.law.basic_info.law_id,
            law_name: self.law.basic_info.law_name,
            law_no: None,
            law_type: None,
            department: None,
            enforcement_date: None,
            revision_date: None,
            content,
            articles,
            attachments: Vec::new(),
            related_laws: Vec::new(),
            metadata,
        }
    }
}

/// A ELIS search asks for its page by offset: the `page` parameter is the
/// position of the page's first result, (page_no - 1) * page_size + 1 (page 2
/// of size 10 asks from result 11), `display` is the page size, and the key
/// and query go first.
pub proof fn law_elis_search_page_is_offset(key: Seq<char>, r: UnifiedSearchRequest)
    requires
        r.page_no >= 1,
    ensures
        elis_search_params(key, r).len() >= 6,
        elis_search_params(key, r)[0] == ("OC"@, key),
        elis_search_params(key, r)[3] == ("query"@, r.query@),
        elis_search_params(key, r)[4] == ("page"@, crate::text::dec(((r.page_no - 1) * r.page_size + 1) as nat)),
        elis_search_params(key, r)[5] == ("display"@, crate::text::dec(r.page_size as nat)),
{
}

/// A detail request carries the API key first and names the document asked
/// for: requests for two different documents differ, and one key never
/// stands for another.
pub proof fn law_elis_detail_params_name_the_document(k1: Seq<char>, k2: Seq<char>, a: Seq<char>, b: Seq<char>)
    ensures
        elis_detail_params(k1, a)[0] == ("OC"@, k1),
        elis_detail_params(k1, a) == elis_detail_params(k2, b) ==> k1 == k2 && a == b,
{
    if elis_detail_params(k1, a) == elis_detail_params(k2, b) {
        assert(elis_detail_params(k1, a)[0] == elis_detail_params(k2, b)[0]);
        assert(elis_detail_params(k1, a)[3] == elis_detail_params(k2, b)[3]);
    }
}

} // verus!
