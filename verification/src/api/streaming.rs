//! Paging through a large result set one page at a time.
//!
//! The stream's state says which page to ask for next and when to stop; the
//! caller fetches each page and hands the outcome back.

use vstd::prelude::*;
use crate::api::client::LegalClient;
use crate::api::types::{UnifiedSearchRequest, SearchItem, SearchResponse, same_request};
use crate::error::WarpError;
use crate::time::Duration;

verus! {

/// Settings of a result stream.
#[derive(Debug, Clone, Copy)]
pub struct StreamConfig {
    /// Size of each page/batch to fetch
    pub page_size: u32,
    /// Maximum number of concurrent page requests
    pub max_concurrent_pages: usize,
    /// Delay between page requests to avoid rate limiting
    pub page_delay: Duration,
    /// Maximum total items to fetch (0 = unlimited)
    pub max_items: u32,
    /// Buffer size for the stream
    pub buffer_size: usize,
}

impl StreamConfig {
    /// Pages of a hundred, three at a time, a fifth of a second apart, no
    /// limit on the items.
    pub fn default() -> (res: StreamConfig)
        ensures
            res.page_size == 100,
            res.max_concurrent_pages == 3,
            res.page_delay@ == 200_000_000,
            res.max_items == 0,
            res.buffer_size == 1000,
    {
        StreamConfig {
            page_size: 100,
            max_concurrent_pages: 3,
            page_delay: Duration::from_millis(200),
            max_items: 0,
            buffer_size: 1000,
        }
    }
}

/// Where a stream stands.
#[derive(Debug, Clone, Copy, PartialEq, Eq, Structural)]
pub struct StreamStats {
    pub current_page: u32,
    pub items_fetched: u32,
    pub total_count: Option<u32>,
    pub finished: bool,
}

/// What the stream yields for a fetched page.
#[derive(Debug)]
pub enum PageStep {
    /// A page of results.
    Page(SearchResponse),
    /// The fetch failed; the stream ends after this error.
    Failed(WarpError),
    /// No more results; the stream ends.
    End,
}

/// A stream of search results, page by page.
#[derive(Debug)]
pub struct SearchResultStream {
    pub client: LegalClient,
    pub base_request: UnifiedSearchRequest,
    pub config: StreamConfig,
    pub current_page: u32,
    pub total_count: Option<u32>,
    pub items_fetched: u32,
    pub finished: bool,
}

impl SearchResultStream {
    /// A stream from the first page, asking pages of the configured size.
    pub fn new(client: LegalClient, request: UnifiedSearchRequest, config: StreamConfig) -> (res: SearchResultStream)
        ensures
            res.client == client,
            res.config == config,
            res.base_request == (UnifiedSearchRequest { page_size: config.page_size, ..request }),
            res.current_page == 1,
            res.total_count is None,
            res.items_fetched == 0,
            !res.finished,
    {
        let mut request = request;
        request.page_size = config.page_size;
        SearchResultStream {
            client,
            base_request: request,
            config,
            current_page: 1,
            total_count: None,
            items_fetched: 0,
            finished: false,
        }
    }

    /// The item limit is set and reached.
    pub open spec fn at_limit(&self) -> bool {
        self.config.max_items > 0 && self.items_fetched >= self.config.max_items
    }

    /// The request for the next page, or `None` when the stream has ended
    /// or reached its item limit.
    pub fn next_request(&self) -> (res: Option<UnifiedSearchRequest>)
        requires
            self.base_request.extras.wf(),
        ensures
            (self.finished || self.at_limit()) ==> res is None,
            !(self.finished || self.at_limit()) ==> (res matches Some(r)
                && same_request((UnifiedSearchRequest { page_no: self.current_page, page_size: self.config.page_size, ..self.base_request }), r)),
    {
        if self.finished || (self.config.max_items > 0 && self.items_fetched >= self.config.max_items) {
            return None;
        }
        let mut request = self.base_request.duplicate();
        request.page_no = self.current_page;
        request.page_size = self.config.page_size;
        Some(request)
    }

    /// How many more items the stream may hand on: what is left of the item
    /// limit, or any number when there is none.
    pub open spec fn room(&self) -> int {
        if self.config.max_items == 0 {
            u32::MAX as int
        } else if self.items_fetched >= self.config.max_items {
            0
        } else {
            self.config.max_items - self.items_fetched
        }
    }

    /// The items of a fetched page that the stream hands on: the whole page,
    /// or its beginning when the item limit leaves room for fewer.
    pub open spec fn kept_items(&self, items: Seq<SearchItem>) -> Seq<SearchItem> {
        if items.len() > self.room() { items.take(self.room()) } else { items }
    }

    /// Takes in the outcome of fetching the next page. An empty page ends
    /// the stream; so does an error, which is yielded first. A page with
    /// results is yielded, cut to what is left of the item limit (the limit
    /// is the most items the stream ever hands on): the first page fixes the
    /// total, the counters move on by the items handed on, and the stream
    /// ends once it has fetched the total or reached the limit. A page that
    /// comes when the limit is already reached ends the stream.
    pub fn record_page(&mut self, fetched: Result<SearchResponse, WarpError>) -> (step: PageStep)
        requires
            fetched matches Ok(r) ==> old(self).items_fetched + r.items@.len() <= u32::MAX
                && old(self).current_page < u32::MAX,
        ensures
            final(self).client == old(self).client,
            final(self).base_request == old(self).base_request,
            final(self).config == old(self).config,
            match fetched {
                Ok(r) => if old(self).kept_items(r.items@).len() == 0 {
                    &&& step is End
                    &&& final(self).finished
                    &&& final(self).current_page == old(self).current_page
                    &&& final(self).items_fetched == old(self).items_fetched
                    &&& final(self).total_count == old(self).total_count
                } else {
                    &&& step matches PageStep::Page(p)
                    &&& p.items@ == old(self).kept_items(r.items@)
                    &&& p.total_count == r.total_count
                    &&& p.page_no == r.page_no
                    &&& p.page_size == r.page_size
                    &&& p.source == r.source
                    &&& p.timestamp == r.timestamp
                    &&& final(self).total_count == (match old(self).total_count {
                        Some(t) => Some(t),
                        None => Some(r.total_count),
                    })
                    &&& final(self).items_fetched == old(self).items_fetched + p.items@.len()
                    &&& final(self).current_page == old(self).current_page + 1
                    &&& final(self).finished == (old(self).finished
                        || final(self).items_fetched >= final(self).total_count->Some_0
                        || final(self).at_limit())
                },
                Err(e) => {
                    &&& step == PageStep::Failed(e)
                    &&& final(self).finished
                    &&& final(self).current_page == old(self).current_page
                    &&& final(self).items_fetched == old(self).items_fetched
                    &&& final(self).total_count == old(self).total_count
                },
            },
            old(self).config.max_items > 0 && old(self).items_fetched <= old(self).config.max_items
                ==> final(self).items_fetched <= final(self).config.max_items,
    {
        match fetched {
            Ok(response) => {
                let mut response = response;
                let ghost items = response.items@;
                let len = response.items.len();
                let max = self.config.max_items;
                let room: usize = if max == 0 {
                    len
                } else if self.items_fetched >= max {
                    0
                } else {
                    (max - self.items_fetched) as usize
                };
                if len > room {
                    response.items.truncate(room);
                }
                assert(response.items@ == self.kept_items(items));
                if response.items.len() == 0 {
                    self.finished = true;
                    PageStep::End
                } else {
                    if self.total_count.is_none() {
                        self.total_count = Some(response.total_count);
                    }
                    self.items_fetched = self.items_fetched + response.items.len() as u32;
                    self.current_page = self.current_page + 1;
                    let total = match self.total_count { Some(t) => t, None => 0 };
                    if self.items_fetched >= total
                        || (self.config.max_items > 0 && self.items_fetched >= self.config.max_items) {
                        self.finished = true;
                    }
                    PageStep::Page(response)
                }
            }
            Err(e) => {
                self.finished = true;
                PageStep::Failed(e)
            }
        }
    }

    /// Whether to wait the page delay before the next page: there is a
    /// delay and the stream goes on.
    pub fn should_pause(&self) -> (res: bool)
        ensures
            res == (self.config.page_delay@ > 0 && !self.finished),
    {
        proof { Duration::lemma_range(self.config.page_delay); }
        !self.config.page_delay.is_zero() && !self.finished
    }

    /// Where the stream stands.
    pub fn get_stats(&self) -> (res: StreamStats)
        ensures
            res == (StreamStats {
                current_page: self.current_page,
                items_fetched: self.items_fetched,
                total_count: self.total_count,
                finished: self.finished,
            }),
    {
        StreamStats {
            current_page: self.current_page,
            items_fetched: self.items_fetched,
            total_count: self.total_count,
            finished: self.finished,
        }
    }
}

} // verus!
