//! Request and response shapes shared by every legal database client.

use vstd::prelude::*;
use crate::strmap::StrMap;
use crate::text::string_of;
use crate::api::client::copy_opt;

verus! {

/// The format asked of an API.
#[derive(Debug, Clone, Copy, PartialEq, Eq, Structural)]
pub enum ResponseType {
    Json,
    Xml,
}

/// Order of search results.
#[derive(Debug, Clone, Copy, PartialEq, Eq, Structural)]
pub enum SortOrder {
    /// Relevance (default)
    Relevance,
    /// Date ascending
    DateAsc,
    /// Date descending
    DateDesc,
    /// Title ascending
    TitleAsc,
    /// Title descending
    TitleDesc,
}

/// A search request understood by every client.
#[derive(Debug, Clone)]
pub struct UnifiedSearchRequest {
    /// Search query
    pub query: String,
    /// Page number (1-based)
    pub page_no: u32,
    /// Results per page
    pub page_size: u32,
    /// Response type (JSON/XML)
    pub response_type: ResponseType,
    /// Region filter (for ELIS)
    pub region: Option<String>,
    /// Law type filter
    pub law_type: Option<String>,
    /// Department filter
    pub department: Option<String>,
    /// Date range start (YYYYMMDD)
    pub date_from: Option<String>,
    /// Date range end (YYYYMMDD)
    pub date_to: Option<String>,
    /// Sort order
    pub sort: Option<SortOrder>,
    /// API-specific extra parameters
    pub extras: StrMap<String>,
}

impl Default for UnifiedSearchRequest {
    /// An empty query for the first page of 50 results, as JSON, with no filters.
    fn default() -> (res: Self)
        ensures
            res.query@.len() == 0,
            res.page_no == 1,
            res.page_size == 50,
            res.response_type == ResponseType::Json,
            res.region is None,
            res.law_type is None,
            res.department is None,
            res.date_from is None,
            res.date_to is None,
            res.sort is None,
            res.extras.wf(),
            res.extras.map_view() == Map::<Seq<char>, String>::empty(),
    {
        let extras = StrMap::new();
        proof { reveal_strlit(""); }
        assert(extras.map_view() =~= Map::<Seq<char>, String>::empty());
        UnifiedSearchRequest {
            query: string_of(""),
            page_no: 1,
            page_size: 50,
            response_type: ResponseType::Json,
            region: None,
            law_type: None,
            department: None,
            date_from: None,
            date_to: None,
            sort: None,
            extras,
        }
    }
}

/// Two requests with the same fields, extra parameters in the same order.
pub open spec fn same_request(a: UnifiedSearchRequest, b: UnifiedSearchRequest) -> bool {
    &&& b.query == a.query
    &&& b.page_no == a.page_no
    &&& b.page_size == a.page_size
    &&& b.response_type == a.response_type
    &&& b.region == a.region
    &&& b.law_type == a.law_type
    &&& b.department == a.department
    &&& b.date_from == a.date_from
    &&& b.date_to == a.date_to
    &&& b.sort == a.sort
    &&& b.extras.wf()
    &&& b.extras.key_seq() == a.extras.key_seq()
    &&& b.extras.val_seq() == a.extras.val_seq()
}

impl UnifiedSearchRequest {
    /// A copy of the request.
    pub fn duplicate(&self) -> (res: UnifiedSearchRequest)
        requires
            self.extras.wf(),
        ensures
            same_request(*self, res),
    {
        UnifiedSearchRequest {
            query: self.query.clone(),
            page_no: self.page_no,
            page_size: self.page_size,
            response_type: self.response_type,
            region: copy_opt(&self.region),
            law_type: copy_opt(&self.law_type),
            department: copy_opt(&self.department),
            date_from: copy_opt(&self.date_from),
            date_to: copy_opt(&self.date_to),
            sort: self.sort,
            extras: self.extras.duplicate(),
        }
    }
}

/// One search result.
#[derive(Debug, Clone)]
pub struct SearchItem {
    /// Unique identifier
    pub id: String,
    /// Law/document title
    pub title: String,
    /// Law number or document number
    pub law_no: Option<String>,
    /// Type of law/document
    pub law_type: Option<String>,
    /// Department or organization
    pub department: Option<String>,
    /// Enforcement date
    pub enforcement_date: Option<String>,
    /// Revision date
    pub revision_date: Option<String>,
    /// Summary or excerpt
    pub summary: Option<String>,
    /// Source API
    pub source: String,
    /// Additional metadata
    pub metadata: StrMap<String>,
}

/// Two search items with the same fields, metadata in the same order.
pub open spec fn same_item(a: SearchItem, b: SearchItem) -> bool {
    &&& b.id == a.id
    &&& b.title == a.title
    &&& b.law_no == a.law_no
    &&& b.law_type == a.law_type
    &&& b.department == a.department
    &&& b.enforcement_date == a.enforcement_date
    &&& b.revision_date == a.revision_date
    &&& b.summary == a.summary
    &&& b.source == a.source
    &&& b.metadata.wf()
    &&& b.metadata.key_seq() == a.metadata.key_seq()
    &&& b.metadata.val_seq() == a.metadata.val_seq()
}

impl SearchItem {
    /// A copy of the item.
    pub fn duplicate(&self) -> (res: SearchItem)
        requires
            self.metadata.wf(),
        ensures
            same_item(*self, res),
    {
        SearchItem {
            id: self.id.clone(),
            title: self.title.clone(),
            law_no: copy_opt(&self.law_no),
            law_type: copy_opt(&self.law_type),
            department: copy_opt(&self.department),
            enforcement_date: copy_opt(&self.enforcement_date),
            revision_date: copy_opt(&self.revision_date),
            summary: copy_opt(&self.summary),
            source: self.source.clone(),
            metadata: self.metadata.duplicate(),
        }
    }
}

/// Every item of a response has well-formed metadata.
pub open spec fn items_wf(items: Seq<SearchItem>) -> bool {
    forall|i: int| 0 <= i < items.len() ==> (#[trigger] items[i]).metadata.wf()
}

/// A page of search results.
#[derive(Debug, Clone)]
pub struct SearchResponse {
    /// Total number of results
    pub total_count: u32,
    /// Current page number
    pub page_no: u32,
    /// Results per page
    pub page_size: u32,
    /// List of search results
    pub items: Vec<SearchItem>,
    /// Source API
    pub source: String,
    /// When the response was made, in milliseconds since the Unix epoch (UTC)
    pub timestamp: i64,
}

/// Two responses with the same fields and pairwise the same items.
pub open spec fn same_response(a: SearchResponse, b: SearchResponse) -> bool {
    &&& b.total_count == a.total_count
    &&& b.page_no == a.page_no
    &&& b.page_size == a.page_size
    &&& b.source == a.source
    &&& b.timestamp == a.timestamp
    &&& b.items@.len() == a.items@.len()
    &&& forall|i: int| 0 <= i < a.items@.len() ==> same_item(#[trigger] a.items@[i], b.items@[i])
}

impl SearchResponse {
    /// A copy of the response.
    pub fn duplicate(&self) -> (res: SearchResponse)
        requires
            items_wf(self.items@),
        ensures
            same_response(*self, res),
            items_wf(res.items@),
    {
        let mut items: Vec<SearchItem> = Vec::new();
        let n = self.items.len();
        let mut i: usize = 0;
        while i < n
            invariant
                n == self.items@.len(),
                items_wf(self.items@),
                i <= n,
                items@.len() == i,
                forall|j: int| 0 <= j < i ==> same_item(#[trigger] self.items@[j], items@[j]),
            decreases n - i,
        {
            items.push(self.items[i].duplicate());
            i = i + 1;
        }
        assert forall|j: int| 0 <= j < items@.len() implies (#[trigger] items@[j]).metadata.wf() by {
            assert(same_item(self.items@[j], items@[j]));
        }
        SearchResponse {
            total_count: self.total_count,
            page_no: self.page_no,
            page_size: self.page_size,
            items,
            source: self.source.clone(),
            timestamp: self.timestamp,
        }
    }
}

/// The full text and structure of one law.
#[derive(Debug, Clone)]
pub struct LawDetail {
    /// Law ID
    pub law_id: String,
    /// Law title
    pub law_name: String,
    /// Law number
    pub law_no: Option<String>,
    /// Law type
    pub law_type: Option<String>,
    /// Department
    pub department: Option<String>,
    /// Enforcement date
    pub enforcement_date: Option<String>,
    /// Revision date
    pub revision_date: Option<String>,
    /// Full content
    pub content: String,
    /// Articles
    pub articles: Vec<Article>,
    /// Attachments
    pub attachments: Vec<Attachment>,
    /// Related laws
    pub related_laws: Vec<RelatedLaw>,
    /// Metadata
    pub metadata: StrMap<String>,
}

/// An article of a law.
#[derive(Debug, Clone)]
pub struct Article {
    /// Article number
    pub number: String,
    /// Article title
    pub title: Option<String>,
    /// Article content
    pub content: String,
    /// Paragraphs
    pub paragraphs: Vec<Paragraph>,
}

/// A paragraph of an article.
#[derive(Debug, Clone)]
pub struct Paragraph {
    /// Paragraph number
    pub number: String,
    /// Paragraph content
    pub content: String,
    /// Sub-items
    pub items: Vec<String>,
}

/// A file attached to a law.
#[derive(Debug, Clone)]
pub struct Attachment {
    /// Attachment ID
    pub id: String,
    /// File name
    pub name: String,
    /// File type
    pub file_type: String,
    /// File size in bytes
    pub size: Option<u64>,
    /// Download URL
    pub url: Option<String>,
}

/// A law related to another.
#[derive(Debug, Clone)]
pub struct RelatedLaw {
    /// Law ID
    pub id: String,
    /// Law title
    pub title: String,
    /// Law number
    pub law_no: Option<String>,
    /// Relationship type
    pub relation_type: String,
}

/// The revisions of a law.
#[derive(Debug, Clone)]
pub struct LawHistory {
    /// Law ID
    pub law_id: String,
    /// Law title
    pub law_name: String,
    /// Total count
    pub total_count: u32,
    /// History entries
    pub entries: Vec<HistoryEntry>,
}

/// One revision of a law.
#[derive(Debug, Clone)]
pub struct HistoryEntry {
    /// Revision number
    pub revision_no: u32,
    /// Revision date
    pub revision_date: String,
    /// Enforcement date
    pub enforcement_date: Option<String>,
    /// Revision type
    pub revision_type: String,
    /// Revision reason
    pub reason: Option<String>,
    /// Changed articles
    pub changed_articles: Vec<String>,
}

} // verus!
