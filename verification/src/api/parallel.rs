//! Searching several databases at once: the settings of a parallel
//! search, the sorting of its answers into successes and failures, and
//! the merging of the successful answers.

use vstd::prelude::*;
use crate::api::ApiType;
use crate::api::types::{SearchItem, SearchResponse, same_item, items_wf};
use crate::clock::now_millis;
use crate::error::WarpError;
use crate::text::{string_of, push_str, push_dec, dec};
use crate::time::Duration;

verus! {

/// Settings of a parallel search.
#[derive(Debug, Clone, Copy)]
pub struct ParallelConfig {
    /// Maximum number of concurrent requests
    pub max_concurrent: usize,
    /// Timeout for individual requests
    pub request_timeout: Duration,
    /// Whether the first failure fails the whole search
    pub fail_fast: bool,
    /// Delay after a batch of requests
    pub batch_delay: Duration,
}

impl Default for ParallelConfig {
    /// Five at a time, 30 s per request, failures collected, 100 ms after a batch.
    fn default() -> (res: Self)
        ensures
            res.max_concurrent == 5,
            res.request_timeout@ == 30_000_000_000,
            !res.fail_fast,
            res.batch_delay@ == 100_000_000,
    {
        ParallelConfig {
            max_concurrent: 5,
            request_timeout: Duration::from_secs(30),
            fail_fast: false,
            batch_delay: Duration::from_millis(100),
        }
    }
}

/// The answers of a parallel search.
#[derive(Debug)]
pub struct ParallelSearchResult {
    /// Successful responses with their API
    pub successes: Vec<(ApiType, SearchResponse)>,
    /// Failed requests with their errors
    pub failures: Vec<(ApiType, WarpError)>,
    /// Total execution time
    pub execution_time: Duration,
}

/// Counts of a parallel search.
#[derive(Debug, Clone, Copy)]
pub struct ParallelSummary {
    pub total_apis: usize,
    pub successful_apis: usize,
    pub failed_apis: usize,
    pub total_items: usize,
    pub execution_time: Duration,
}

/// The items of the responses, one response after the other.
pub open spec fn all_items(s: Seq<(ApiType, SearchResponse)>) -> Seq<SearchItem>
    decreases s.len(),
{
    if s.len() == 0 {
        Seq::empty()
    } else {
        all_items(s.drop_last()) + s.last().1.items@
    }
}

/// Addition that stops at the largest 32-bit number.
pub open spec fn sat_add(a: u32, b: u32) -> u32 {
    if a + b > u32::MAX { u32::MAX } else { (a + b) as u32 }
}

/// The sum of the responses' total counts, saturating.
pub open spec fn saturating_total(s: Seq<(ApiType, SearchResponse)>) -> u32
    decreases s.len(),
{
    if s.len() == 0 {
        0
    } else {
        sat_add(saturating_total(s.drop_last()), s.last().1.total_count)
    }
}

/// Every response's items have well-formed metadata.
pub open spec fn responses_wf(s: Seq<(ApiType, SearchResponse)>) -> bool {
    forall|i: int| 0 <= i < s.len() ==> items_wf((#[trigger] s[i]).1.items@)
}

/// The successful answers, in order.
pub open spec fn ok_part(rs: Seq<(ApiType, Result<SearchResponse, WarpError>)>) -> Seq<(ApiType, SearchResponse)>
    decreases rs.len(),
{
    if rs.len() == 0 {
        Seq::empty()
    } else {
        match rs.last().1 {
            Ok(r) => ok_part(rs.drop_last()).push((rs.last().0, r)),
            Err(_) => ok_part(rs.drop_last()),
        }
    }
}

/// The failed answers, in order.
pub open spec fn err_part(rs: Seq<(ApiType, Result<SearchResponse, WarpError>)>) -> Seq<(ApiType, WarpError)>
    decreases rs.len(),
{
    if rs.len() == 0 {
        Seq::empty()
    } else {
        match rs.last().1 {
            Ok(_) => err_part(rs.drop_last()),
            Err(e) => err_part(rs.drop_last()).push((rs.last().0, e)),
        }
    }
}

fn saturating_add_u32(a: u32, b: u32) -> (res: u32)
    ensures
        res == sat_add(a, b),
{
    if a > 0xffff_ffff - b { 0xffff_ffff } else { a + b }
}

impl ParallelSearchResult {
    /// All successful answers as one response: their items one answer
    /// after the other, the saturating sum of their counts, the paging of
    /// the last answer, and the source `Unified (<n>)`; none without a
    /// successful answer.
    pub fn merge_responses(&self) -> (res: Option<SearchResponse>)
        requires
            responses_wf(self.successes@),
        ensures
            res is None <==> self.successes@.len() == 0,
            res matches Some(r) ==> {
                &&& r.items@.len() == all_items(self.successes@).len()
                &&& forall|i: int| 0 <= i < r.items@.len()
                    ==> same_item(#[trigger] all_items(self.successes@)[i], r.items@[i])
                &&& r.total_count == saturating_total(self.successes@)
                &&& r.page_no == self.successes@.last().1.page_no
                &&& r.page_size == self.successes@.last().1.page_size
                &&& r.source@ == "Unified ("@ + dec(self.successes@.len() as nat) + ")"@
            },
    {
        let n = self.successes.len();
        if n == 0 {
            return None;
        }
        let ghost s = self.successes@;
        let mut items: Vec<SearchItem> = Vec::new();
        let mut total_count: u32 = 0;
        let mut page_no: u32 = 1;
        let mut page_size: u32 = 10;
        let mut k: usize = 0;
        while k < n
            invariant
                n == s.len(),
                s == self.successes@,
                responses_wf(s),
                0 < n,
                k <= n,
                items@.len() == all_items(s.take(k as int)).len(),
                forall|i: int| 0 <= i < items@.len() ==> same_item(#[trigger] all_items(s.take(k as int))[i], items@[i]),
                total_count == saturating_total(s.take(k as int)),
                k > 0 ==> page_no == s[k - 1].1.page_no && page_size == s[k - 1].1.page_size,
            decreases n - k,
        {
            let response = &self.successes[k].1;
            let ghost before = all_items(s.take(k as int));
            assert(s.take(k + 1).drop_last() =~= s.take(k as int));
            assert(s.take(k + 1).last() == s[k as int]);
            assert(items_wf(response.items@));
            let m = response.items.len();
            let mut j: usize = 0;
            while j < m
                invariant
                    m == response.items@.len(),
                    items_wf(response.items@),
                    j <= m,
                    items@.len() == before.len() + j,
                    forall|i: int| 0 <= i < items@.len() ==> same_item(#[trigger] (before + response.items@)[i], items@[i]),
                decreases m - j,
            {
                let item = response.items[j].duplicate();
                items.push(item);
                j = j + 1;
            }
            assert(all_items(s.take(k + 1)) =~= before + response.items@);
            total_count = saturating_add_u32(total_count, response.total_count);
            page_no = response.page_no;
            page_size = response.page_size;
            k = k + 1;
        }
        assert(s.take(n as int) =~= s);
        let mut source = string_of("Unified (");
        push_dec(&mut source, n as u64);
        push_str(&mut source, ")");
        Some(SearchResponse {
            total_count,
            page_no,
            page_size,
            items,
            source,
            timestamp: now_millis(),
        })
    }

    /// How many APIs were asked, answered and failed, and how many items
    /// the answers hold.
    pub fn get_summary(&self) -> (res: ParallelSummary)
        requires
            self.successes@.len() + self.failures@.len() <= usize::MAX,
            all_items(self.successes@).len() <= usize::MAX,
        ensures
            res.total_apis == self.successes@.len() + self.failures@.len(),
            res.successful_apis == self.successes@.len(),
            res.failed_apis == self.failures@.len(),
            res.total_items == all_items(self.successes@).len(),
            res.execution_time == self.execution_time,
    {
        let n = self.successes.len();
        let ghost s = self.successes@;
        let mut total: usize = 0;
        let mut k: usize = 0;
        while k < n
            invariant
                n == s.len(),
                s == self.successes@,
                all_items(s).len() <= usize::MAX,
                k <= n,
                total == all_items(s.take(k as int)).len(),
            decreases n - k,
        {
            assert(s.take(k + 1).drop_last() =~= s.take(k as int));
            proof { lemma_all_items_prefix_len(s, k as int + 1); }
            total = total + self.successes[k].1.items.len();
            k = k + 1;
        }
        assert(s.take(n as int) =~= s);
        ParallelSummary {
            total_apis: n + self.failures.len(),
            successful_apis: n,
            failed_apis: self.failures.len(),
            total_items: total,
            execution_time: self.execution_time,
        }
    }
}

proof fn lemma_all_items_prefix_len(s: Seq<(ApiType, SearchResponse)>, k: int)
    requires
        0 <= k <= s.len(),
    ensures
        all_items(s.take(k)).len() <= all_items(s).len(),
    decreases s.len() - k,
{
    if k < s.len() {
        lemma_all_items_prefix_len(s, k + 1);
        assert(s.take(k + 1).drop_last() =~= s.take(k));
    } else {
        assert(s.take(k) =~= s);
    }
}

/// Runs searches on several databases at once.
#[derive(Debug, Clone, Copy)]
pub struct ParallelExecutor {
    pub config: ParallelConfig,
}

impl ParallelExecutor {
    /// An executor with the given settings.
    pub fn new(config: ParallelConfig) -> (res: ParallelExecutor)
        ensures
            res.config == config,
    {
        ParallelExecutor { config }
    }

    /// An executor with the default settings.
    pub fn default() -> (res: ParallelExecutor)
        ensures
            res.config.max_concurrent == 5,
            res.config.request_timeout@ == 30_000_000_000,
            !res.config.fail_fast,
            res.config.batch_delay@ == 100_000_000,
    {
        ParallelExecutor { config: ParallelConfig::default() }
    }

    /// A search needs at least one client.
    pub fn check_clients(&self, count: usize) -> (res: Result<(), WarpError>)
        ensures
            count == 0 ==> (res matches Err(WarpError::InvalidInput(m)) && m@ == "No clients provided"@),
            res is Ok <==> count > 0,
    {
        if count == 0 {
            Err(WarpError::InvalidInput(string_of("No clients provided")))
        } else {
            Ok(())
        }
    }

    /// The error of a request that ran out of time: the timeout in
    /// milliseconds, truncated to 64 bits.
    pub fn timeout_error(&self) -> (res: WarpError)
        ensures
            res matches WarpError::Timeout(ms) && ms == ((self.config.request_timeout@ / 1_000_000) as u64),
    {
        let ms = self.config.request_timeout.as_millis();
        WarpError::Timeout(ms as u64)
    }

    /// Sorts the answers into successes and failures, each in the order
    /// they came; with `fail_fast`, the first failure fails the search.
    pub fn collect_results(&self, results: Vec<(ApiType, Result<SearchResponse, WarpError>)>, execution_time: Duration)
        -> (res: Result<ParallelSearchResult, WarpError>)
        ensures
            self.config.fail_fast && err_part(results@).len() > 0 ==> (res matches Err(e) && e == err_part(results@)[0].1),
            !(self.config.fail_fast && err_part(results@).len() > 0) ==> (res matches Ok(r)
                && r.successes@ == ok_part(results@)
                && r.failures@ == err_part(results@)
                && r.execution_time == execution_time),
    {
        let ghost rs = results@;
        let mut successes: Vec<(ApiType, SearchResponse)> = Vec::new();
        let mut failures: Vec<(ApiType, WarpError)> = Vec::new();
        broadcast use vstd::std_specs::vec::axiom_spec_into_iter;
        for entry in it: results.into_iter()
            invariant
                it.seq() == rs,
                successes@ == ok_part(rs.take(it.index() as int)),
                failures@ == err_part(rs.take(it.index() as int)),
        {
            let ghost k = it.index() as int;
            assert(rs.take(k + 1).drop_last() =~= rs.take(k));
            assert(rs.take(k + 1).last() == entry);
            let (api_type, result) = entry;
            match result {
                Ok(response) => successes.push((api_type, response)),
                Err(error) => failures.push((api_type, error)),
            }
        }
        assert(rs.take(rs.len() as int) =~= rs);
        if self.config.fail_fast && failures.len() > 0 {
            let (_api, first) = failures.remove(0);
            return Err(first);
        }
        Ok(ParallelSearchResult { successes, failures, execution_time })
    }

    /// What follows attempt `attempt` (counted from zero) of an operation
    /// retried up to three times: its value when it succeeded; after a
    /// failure, the wait before the next attempt (100 ms, then 200 ms), or,
    /// after the third attempt, that attempt's error.
    pub fn retry_step<T>(&self, attempt: usize, outcome: Result<T, WarpError>) -> (res: RetryStep<T>)
        ensures
            match outcome {
                Ok(v) => res == RetryStep::<T>::Done(v),
                Err(e) => if attempt < 2 {
                    res matches RetryStep::Wait(d) && d@ == 100_000_000 * (if attempt == 0 { 1int } else { 2int })
                } else {
                    res == RetryStep::<T>::Fail(e)
                },
            },
    {
        match outcome {
            Ok(v) => RetryStep::Done(v),
            Err(e) => match self.retry_delay(attempt) {
                Some(d) => RetryStep::Wait(d),
                None => RetryStep::Fail(e),
            },
        }
    }

    /// The wait after failed attempt `attempt` of a retried operation:
    /// 100 ms doubled per attempt, and none after the third and last.
    pub fn retry_delay(&self, attempt: usize) -> (res: Option<Duration>)
        ensures
            attempt < 2 ==> (res matches Some(d) && d@ == 100_000_000 * (if attempt == 0 { 1int } else { 2int })),
            attempt >= 2 ==> res is None,
    {
        if attempt == 0 {
            Some(Duration::from_millis(100))
        } else if attempt == 1 {
            Some(Duration::from_millis(200))
        } else {
            None
        }
    }
}

/// What a retried operation does after one attempt.
#[derive(Debug)]
pub enum RetryStep<T> {
    /// The attempt succeeded with this value.
    Done(T),
    /// The attempt failed; wait this long, then try again.
    Wait(Duration),
    /// The last attempt failed with this error.
    Fail(WarpError),
}

} // verus!
