//! Batching and deduplication of search requests.
//!
//! The batcher keeps three pieces of state: the requests waiting for the next
//! batch (first come, first served), the answers of recent searches kept for
//! deduplication, and the requests whose search is under way. The caller
//! performs the searches and the waiting; every decision about the state is
//! made here.

use vstd::prelude::*;
use crate::api::ApiType;
use crate::api::client::LegalClient;
use crate::api::types::{UnifiedSearchRequest, SearchResponse, same_response, items_wf};
use crate::error::{WarpError, error_text};
use crate::text::{str_eq, string_of, push_str};
use crate::time::Duration;

verus! {

/// Settings of a request batcher.
#[derive(Debug, Clone, Copy)]
pub struct BatchConfig {
    /// Maximum batch size before forcing execution
    pub max_batch_size: usize,
    /// Maximum time to wait before executing a batch
    pub max_batch_delay: Duration,
    /// Enable request deduplication
    pub enable_deduplication: bool,
    /// Deduplication cache TTL
    pub deduplication_ttl: Duration,
    /// Enable predictive batching based on patterns
    pub enable_predictive_batching: bool,
}

impl Default for BatchConfig {
    /// Batches of ten, a tenth of a second apart, answers kept for a minute.
    fn default() -> (res: Self)
        ensures
            res.max_batch_size == 10,
            res.max_batch_delay@ == 100_000_000,
            res.enable_deduplication,
            res.deduplication_ttl@ == 60_000_000_000,
            res.enable_predictive_batching,
    {
        BatchConfig {
            max_batch_size: 10,
            max_batch_delay: Duration::from_millis(100),
            enable_deduplication: true,
            deduplication_ttl: Duration::from_secs(60),
            enable_predictive_batching: true,
        }
    }
}

/// What makes two search requests the same request.
#[derive(Debug)]
pub struct RequestKey {
    pub query: String,
    pub page_no: u32,
    pub page_size: u32,
    pub law_type: Option<String>,
    pub department: Option<String>,
}

/// The text of an optional string.
pub open spec fn opt_chars(o: Option<String>) -> Option<Seq<char>> {
    match o {
        Some(s) => Some(s@),
        None => None,
    }
}

/// The abstract key: query, page number, page size, law type, department.
pub type KeyView = (Seq<char>, u32, u32, Option<Seq<char>>, Option<Seq<char>>);

/// The key of a search request.
pub open spec fn request_key(r: UnifiedSearchRequest) -> KeyView {
    (r.query@, r.page_no, r.page_size, opt_chars(r.law_type), opt_chars(r.department))
}

impl View for RequestKey {
    type V = KeyView;

    open spec fn view(&self) -> Self::V {
        (self.query@, self.page_no, self.page_size, opt_chars(self.law_type), opt_chars(self.department))
    }
}

fn opt_str_eq(a: &Option<String>, b: &Option<String>) -> (res: bool)
    ensures
        res == (opt_chars(*a) == opt_chars(*b)),
{
    match (a, b) {
        (Some(x), Some(y)) => str_eq(x.as_str(), y.as_str()),
        (None, None) => true,
        _ => false,
    }
}

fn copy_opt_string(o: &Option<String>) -> (res: Option<String>)
    ensures
        opt_chars(res) == opt_chars(*o),
{
    match o {
        Some(s) => Some(s.clone()),
        None => None,
    }
}

impl RequestKey {
    /// The key of a search request: its query, page and the two filters.
    pub fn from_request(request: &UnifiedSearchRequest) -> (res: RequestKey)
        ensures
            res@ == request_key(*request),
    {
        RequestKey {
            query: request.query.clone(),
            page_no: request.page_no,
            page_size: request.page_size,
            law_type: copy_opt_string(&request.law_type),
            department: copy_opt_string(&request.department),
        }
    }

    /// Whether two keys name the same request.
    pub fn same_as(&self, other: &RequestKey) -> (res: bool)
        ensures
            res == (self@ == other@),
    {
        self.page_no == other.page_no && self.page_size == other.page_size
            && str_eq(self.query.as_str(), other.query.as_str())
            && opt_str_eq(&self.law_type, &other.law_type)
            && opt_str_eq(&self.department, &other.department)
    }

    /// A copy of the key.
    pub fn duplicate(&self) -> (res: RequestKey)
        ensures
            res@ == self@,
    {
        RequestKey {
            query: self.query.clone(),
            page_no: self.page_no,
            page_size: self.page_size,
            law_type: copy_opt_string(&self.law_type),
            department: copy_opt_string(&self.department),
        }
    }
}

/// A request waiting for its batch. The ticket is the caller's handle for
/// delivering the answer; the time is a reading of a monotonic clock in
/// nanoseconds.
#[derive(Debug)]
pub struct PendingRequest {
    pub ticket: u64,
    pub request: UnifiedSearchRequest,
    pub key: RequestKey,
    pub created_at: u64,
}

/// An answer kept for deduplication.
#[derive(Debug)]
pub struct CachedResponse {
    pub key: RequestKey,
    pub response: SearchResponse,
    pub created_at: u64,
}

/// Time elapsed from `then` to `now` on a monotonic clock; a reading that
/// lies ahead counts as no time at all.
pub open spec fn age(now: u64, then: u64) -> int {
    if now >= then { now - then } else { 0 }
}

/// An answer cached at `then` is still served at `now`.
pub open spec fn is_fresh(now: u64, then: u64, ttl: Duration) -> bool {
    age(now, then) < ttl@
}

fn fresh(now: u64, then: u64, ttl: Duration) -> (res: bool)
    ensures
        res == is_fresh(now, then, ttl),
{
    let elapsed: u64 = if now >= then { now - then } else { 0 };
    Duration::from_nanos(elapsed).lt(&ttl)
}

/// The cached entry for a key: the last entry with that key.
pub open spec fn lookup(cache: Seq<CachedResponse>, k: KeyView) -> Option<CachedResponse>
    decreases cache.len(),
{
    if cache.len() == 0 {
        None
    } else if cache.last().key@ == k {
        Some(cache.last())
    } else {
        lookup(cache.drop_last(), k)
    }
}

/// No two entries share a key.
pub open spec fn keys_distinct(cache: Seq<CachedResponse>) -> bool {
    forall|i: int, j: int| 0 <= i < j < cache.len() ==> (#[trigger] cache[i]).key@ != (#[trigger] cache[j]).key@
}

/// Every cached answer can be copied.
pub open spec fn answers_wf(cache: Seq<CachedResponse>) -> bool {
    forall|i: int| 0 <= i < cache.len() ==> items_wf((#[trigger] cache[i]).response.items@)
}

/// No two in-flight keys are the same.
pub open spec fn flight_distinct(keys: Seq<RequestKey>) -> bool {
    forall|i: int, j: int| 0 <= i < j < keys.len() ==> (#[trigger] keys[i])@ != (#[trigger] keys[j])@
}

/// Whether a key is among the in-flight keys.
pub open spec fn in_flight_has(keys: Seq<RequestKey>, k: KeyView) -> bool {
    exists|i: int| 0 <= i < keys.len() && (#[trigger] keys[i])@ == k
}

/// With distinct keys, the cached entry for a key is the one entry that has
/// it, and there is none when no entry has it.
pub proof fn lemma_lookup(cache: Seq<CachedResponse>, k: KeyView)
    ensures
        (lookup(cache, k) is None) <==> (forall|i: int| 0 <= i < cache.len() ==> (#[trigger] cache[i]).key@ != k),
        keys_distinct(cache) ==> forall|i: int| 0 <= i < cache.len() && (#[trigger] cache[i]).key@ == k
            ==> lookup(cache, k) == Some(cache[i]),
    decreases cache.len(),
{
    if cache.len() > 0 {
        let init = cache.drop_last();
        lemma_lookup(init, k);
        assert forall|i: int| 0 <= i < init.len() implies #[trigger] init[i] == cache[i] by {}
        assert(cache[cache.len() - 1] == cache.last());
        if cache.last().key@ != k {
            if lookup(cache, k) is None {
                assert forall|i: int| 0 <= i < cache.len() implies (#[trigger] cache[i]).key@ != k by {
                    if i < init.len() { assert(init[i] == cache[i]); }
                }
            } else {
                let i0 = choose|i: int| 0 <= i < init.len() && (#[trigger] init[i]).key@ == k;
                assert(cache[i0] == init[i0]);
            }
            assert forall|i: int| 0 <= i < cache.len() && (#[trigger] cache[i]).key@ == k implies i < init.len() by {
                if i == cache.len() - 1 {
                    assert(cache[i] == cache.last());
                }
            }
        }
        if keys_distinct(cache) {
            assert(keys_distinct(init)) by {
                assert forall|i: int, j: int| 0 <= i < j < init.len() implies (#[trigger] init[i]).key@ != (#[trigger] init[j]).key@ by {
                    assert(init[i] == cache[i] && init[j] == cache[j]);
                }
            }
            assert forall|i: int| 0 <= i < cache.len() && (#[trigger] cache[i]).key@ == k
                implies lookup(cache, k) == Some(cache[i]) by {
                if i < cache.len() - 1 {
                    assert(cache[i].key@ != cache[cache.len() - 1].key@);
                    assert(init[i] == cache[i]);
                }
            }
        }
    }
}

/// The cached entry for a key, if it is still fresh.
pub open spec fn lookup_fresh(cache: Seq<CachedResponse>, k: KeyView, now: u64, ttl: Duration) -> Option<CachedResponse> {
    match lookup(cache, k) {
        Some(e) => if is_fresh(now, e.created_at, ttl) { Some(e) } else { None },
        None => None,
    }
}

/// The message given to every request of a batch whose search failed.
pub open spec fn batch_failure_text(e: WarpError) -> Seq<char> {
    "Batch request failed: "@ + error_text(e)
}

/// The answer for one request of a batch, given the outcome of the batch's
/// search.
pub open spec fn batch_reply(outcome: Result<SearchResponse, WarpError>, reply: Result<SearchResponse, WarpError>) -> bool {
    match outcome {
        Ok(r) => reply matches Ok(r2) && same_response(r, r2),
        Err(e) => reply matches Err(WarpError::Other(m)) && m@ == batch_failure_text(e),
    }
}

/// The distinct keys of a sequence of requests, in order of first
/// appearance.
pub open spec fn first_keys(s: Seq<PendingRequest>) -> Seq<KeyView>
    decreases s.len(),
{
    if s.len() == 0 {
        Seq::empty()
    } else {
        let ks = first_keys(s.drop_last());
        if ks.contains(s.last().key@) { ks } else { ks.push(s.last().key@) }
    }
}

/// The requests with a given key, in their order.
pub open spec fn with_key(s: Seq<PendingRequest>, k: KeyView) -> Seq<PendingRequest> {
    s.filter(|p: PendingRequest| p.key@ == k)
}

/// Every key of a sequence is among its first keys, and no first key comes
/// twice.
pub proof fn lemma_first_keys(s: Seq<PendingRequest>)
    ensures
        forall|i: int| 0 <= i < s.len() ==> first_keys(s).contains((#[trigger] s[i]).key@),
        forall|a: int, b: int| 0 <= a < b < first_keys(s).len() ==> #[trigger] first_keys(s)[a] != #[trigger] first_keys(s)[b],
    decreases s.len(),
{
    if s.len() > 0 {
        let init = s.drop_last();
        lemma_first_keys(init);
        let ks = first_keys(init);
        assert forall|i: int| 0 <= i < init.len() implies #[trigger] init[i] == s[i] by {}
        assert(s[s.len() - 1] == s.last());
        if !ks.contains(s.last().key@) {
            let ks2 = ks.push(s.last().key@);
            assert forall|i: int| 0 <= i < s.len() implies ks2.contains((#[trigger] s[i]).key@) by {
                if i < init.len() {
                    assert(init[i] == s[i]);
                    let j = choose|j: int| 0 <= j < ks.len() && ks[j] == init[i].key@;
                    assert(ks2[j] == ks[j]);
                } else {
                    assert(ks2[ks.len() as int] == s.last().key@);
                }
            }
            assert forall|a: int, b: int| 0 <= a < b < ks2.len() implies #[trigger] ks2[a] != #[trigger] ks2[b] by {
                assert(ks2[a] == ks[a]);
                if b < ks.len() { assert(ks2[b] == ks[b]); } else { assert(ks.contains(ks2[a])); }
            }
        } else {
            assert forall|i: int| 0 <= i < s.len() implies ks.contains((#[trigger] s[i]).key@) by {
                if i < init.len() {
                    assert(init[i] == s[i]);
                }
            }
        }
    }
}

/// Adding a request to the end adds it to the requests of its key only.
pub proof fn lemma_with_key_push(s: Seq<PendingRequest>, p: PendingRequest, k: KeyView)
    ensures
        with_key(s.push(p), k) == if p.key@ == k { with_key(s, k).push(p) } else { with_key(s, k) },
{
    reveal(Seq::filter);
    assert(s.push(p).drop_last() =~= s);
}

/// No request has a key that none of them has.
pub proof fn lemma_with_key_absent(s: Seq<PendingRequest>, k: KeyView)
    requires
        forall|i: int| 0 <= i < s.len() ==> (#[trigger] s[i]).key@ != k,
    ensures
        with_key(s, k) == Seq::<PendingRequest>::empty(),
    decreases s.len(),
{
    reveal(Seq::filter);
    if s.len() > 0 {
        let init = s.drop_last();
        assert forall|i: int| 0 <= i < init.len() implies (#[trigger] init[i]).key@ != k by {
            assert(init[i] == s[i]);
        }
        lemma_with_key_absent(init, k);
        assert(s[s.len() - 1] == s.last());
    }
    assert(with_key(s, k) =~= Seq::<PendingRequest>::empty());
}

/// Splits a batch into groups of identical requests: one group per distinct
/// key, in order of first appearance, each holding the requests of its key
/// in the order they came.
pub fn group_similar_requests(requests: Vec<PendingRequest>) -> (groups: Vec<Vec<PendingRequest>>)
    ensures
        groups@.len() == first_keys(requests@).len(),
        forall|i: int| 0 <= i < groups@.len() ==> (#[trigger] groups@[i])@ == with_key(requests@, first_keys(requests@)[i]),
{
    let ghost all = requests@;
    let mut rest = requests;
    let mut groups: Vec<Vec<PendingRequest>> = Vec::new();
    let mut keys: Vec<RequestKey> = Vec::new();
    let mut done: usize = 0;
    let total = rest.len();
    while rest.len() > 0
        invariant
            total == all.len(),
            done <= total,
            rest@ == all.skip(done as int),
            groups@.len() == first_keys(all.take(done as int)).len(),
            keys@.len() == groups@.len(),
            forall|i: int| 0 <= i < keys@.len() ==> (#[trigger] keys@[i])@ == first_keys(all.take(done as int))[i],
            forall|i: int| 0 <= i < groups@.len() ==> (#[trigger] groups@[i])@ == with_key(all.take(done as int), first_keys(all.take(done as int))[i]),
        decreases rest@.len(),
    {
        let p = rest.remove(0);
        let ghost prefix = all.take(done as int);
        let ghost prefix2 = all.take(done + 1);
        assert(p == all[done as int]);
        assert(prefix2 =~= prefix.push(p));
        assert(prefix2.drop_last() =~= prefix);
        let ghost ks = first_keys(prefix);
        let ghost old_groups = groups@;
        proof { lemma_first_keys(prefix); }
        let n = keys.len();
        let mut j: usize = 0;
        let mut found: Option<usize> = None;
        while j < n
            invariant
                n == keys@.len(),
                j <= n,
                found is None ==> forall|a: int| 0 <= a < j ==> (#[trigger] keys@[a])@ != p.key@,
                found matches Some(a) ==> a < n && keys@[a as int]@ == p.key@,
            decreases n - j,
        {
            if found.is_none() && keys[j].same_as(&p.key) {
                found = Some(j);
            }
            j = j + 1;
        }
        match found {
            Some(j) => {
                assert(ks[j as int] == p.key@);
                assert(ks.contains(p.key@));
                assert(first_keys(prefix2) == ks);
                let mut g = groups.remove(j);
                g.push(p);
                groups.insert(j, g);
                assert forall|i: int| 0 <= i < groups@.len() implies (#[trigger] groups@[i])@ == with_key(prefix2, first_keys(prefix2)[i]) by {
                    lemma_with_key_push(prefix, p, ks[i]);
                    if i != j {
                        assert(groups@[i] == old_groups[i]);
                        assert(ks[i] != ks[j as int]);
                    }
                }
            }
            None => {
                assert(!ks.contains(p.key@)) by {
                    if ks.contains(p.key@) {
                        let a = choose|a: int| 0 <= a < ks.len() && ks[a] == p.key@;
                        assert(keys@[a]@ == ks[a]);
                    }
                }
                assert(first_keys(prefix2) == ks.push(p.key@));
                assert forall|i: int| 0 <= i < prefix.len() implies (#[trigger] prefix[i]).key@ != p.key@ by {}
                proof {
                    lemma_with_key_absent(prefix, p.key@);
                    lemma_with_key_push(prefix, p, p.key@);
                }
                let k2 = p.key.duplicate();
                let mut g: Vec<PendingRequest> = Vec::new();
                g.push(p);
                groups.push(g);
                keys.push(k2);
                assert forall|i: int| 0 <= i < groups@.len() implies (#[trigger] groups@[i])@ == with_key(prefix2, first_keys(prefix2)[i]) by {
                    if i < old_groups.len() {
                        lemma_with_key_push(prefix, p, ks[i]);
                        assert(groups@[i] == old_groups[i]);
                        assert(keys@[i]@ == ks[i]);
                    } else {
                        assert(groups@[i]@ =~= seq![p]);
                        assert(with_key(prefix2, p.key@) =~= seq![p]);
                    }
                }
            }
        }
        done = done + 1;
        assert(rest@ =~= all.skip(done as int));
    }
    assert(all.take(total as int) =~= all);
    groups
}

/// Counters of a batcher's state.
#[derive(Debug, Clone, Copy)]
pub struct BatchStats {
    pub pending_requests: usize,
    pub cached_responses: usize,
    pub in_flight_requests: usize,
    pub deduplication_enabled: bool,
}

/// The state of a request batcher for one client.
#[derive(Debug)]
pub struct RequestBatcher {
    pub config: BatchConfig,
    pub client: LegalClient,
    pub pending: Vec<PendingRequest>,
    pub cache: Vec<CachedResponse>,
    pub in_flight: Vec<RequestKey>,
}

/// What to do with a newly submitted request.
#[derive(Debug)]
pub enum Submission {
    /// A recent identical search answers it.
    Answered(SearchResponse),
    /// An identical search is under way: wait for its answer, then queue the
    /// request if none came.
    AwaitInFlight,
    /// Queue the request for the next batch.
    Enqueue,
}

impl RequestBatcher {
    /// The batcher's invariant: distinct cached keys, distinct in-flight keys,
    /// copyable answers.
    pub open spec fn wf(&self) -> bool {
        &&& keys_distinct(self.cache@)
        &&& answers_wf(self.cache@)
        &&& flight_distinct(self.in_flight@)
    }

    /// An empty batcher for a client.
    pub fn new(client: LegalClient, config: BatchConfig) -> (res: RequestBatcher)
        ensures
            res.wf(),
            res.config == config,
            res.client == client,
            res.pending@.len() == 0,
            res.cache@.len() == 0,
            res.in_flight@.len() == 0,
    {
        RequestBatcher { config, client, pending: Vec::new(), cache: Vec::new(), in_flight: Vec::new() }
    }

    /// The name under which the batcher's activity is counted:
    /// `batcher_` and the API's short name.
    pub fn metrics_label(&self) -> (res: String)
        ensures
            res@ == "batcher_"@ + crate::api::api_type_name(self.client.api_of()),
    {
        let mut s = string_of("batcher_");
        push_str(&mut s, self.client.api_type().as_str());
        s
    }

    /// The recent answer to the same request, if one is cached and younger
    /// than the deduplication time.
    pub fn cached_response(&self, key: &RequestKey, now: u64) -> (res: Option<SearchResponse>)
        requires
            self.wf(),
        ensures
            match lookup_fresh(self.cache@, key@, now, self.config.deduplication_ttl) {
                Some(e) => res matches Some(r) && same_response(e.response, r),
                None => res is None,
            },
    {
        let ghost cache = self.cache@;
        let mut i = self.cache.len();
        assert(cache.take(i as int) =~= cache);
        while i > 0
            invariant
                cache == self.cache@,
                answers_wf(cache),
                i <= cache.len(),
                lookup(cache, key@) == lookup(cache.take(i as int), key@),
            decreases i,
        {
            let e = &self.cache[i - 1];
            assert(cache.take(i as int).last() == cache[i - 1]);
            if e.key.same_as(key) {
                if fresh(now, e.created_at, self.config.deduplication_ttl) {
                    assert(items_wf(cache[i - 1].response.items@));
                    return Some(e.response.duplicate());
                } else {
                    return None;
                }
            }
            assert(cache.take(i as int).drop_last() =~= cache.take(i - 1));
            i = i - 1;
        }
        None
    }

    /// Keeps an answer for deduplication, replacing an older answer to the
    /// same request.
    pub fn store_response(&mut self, key: RequestKey, response: SearchResponse, now: u64)
        requires
            old(self).wf(),
            items_wf(response.items@),
        ensures
            final(self).wf(),
            final(self).config == old(self).config,
            final(self).client == old(self).client,
            final(self).pending == old(self).pending,
            final(self).in_flight == old(self).in_flight,
            lookup(final(self).cache@, key@) matches Some(e)
                && e.response == response && e.created_at == now,
            forall|k: KeyView| k != key@ ==> lookup(final(self).cache@, k) == lookup(old(self).cache@, k),
    {
        let ghost old_cache = self.cache@;
        let ghost kv = key@;
        let n = self.cache.len();
        let mut i: usize = 0;
        let mut found: Option<usize> = None;
        while i < n
            invariant
                n == self.cache@.len(),
                self.cache@ == old_cache,
                key@ == kv,
                i <= n,
                found is None ==> forall|j: int| 0 <= j < i ==> (#[trigger] old_cache[j]).key@ != kv,
                found matches Some(j) ==> j < n && old_cache[j as int].key@ == kv,
            decreases n - i,
        {
            let same = self.cache[i].key.same_as(&key);
            if found.is_none() && same {
                found = Some(i);
            }
            i = i + 1;
        }
        proof {
            lemma_lookup(old_cache, kv);
        }
        match found {
            Some(j) => {
                let _ = self.cache.remove(j);
            }
            None => {}
        }
        let ghost mid = self.cache@;
        assert(keys_distinct(mid) && answers_wf(mid) && forall|j: int| 0 <= j < mid.len() ==> (#[trigger] mid[j]).key@ != kv) by {
            assert forall|a: int| 0 <= a < mid.len() implies exists|b: int| 0 <= b < old_cache.len() && #[trigger] mid[a] == old_cache[b]
                && (found matches Some(j) ==> b != j) by {
                match found {
                    Some(j) => { if a < j { assert(mid[a] == old_cache[a]); } else { assert(mid[a] == old_cache[a + 1]); } }
                    None => { assert(mid[a] == old_cache[a]); }
                }
            }
            assert forall|a: int, c: int| 0 <= a < c < mid.len() implies (#[trigger] mid[a]).key@ != (#[trigger] mid[c]).key@ by {
                match found {
                    Some(j) => {
                        let a2 = if a < j { a } else { a + 1 };
                        let c2 = if c < j { c } else { c + 1 };
                        assert(mid[a] == old_cache[a2] && mid[c] == old_cache[c2]);
                    }
                    None => { assert(mid[a] == old_cache[a] && mid[c] == old_cache[c]); }
                }
            }
            assert forall|a: int| 0 <= a < mid.len() implies items_wf((#[trigger] mid[a]).response.items@) by {
                let b = choose|b: int| 0 <= b < old_cache.len() && #[trigger] mid[a] == old_cache[b]
                    && (found matches Some(j) ==> b != j);
            }
            assert forall|a: int| 0 <= a < mid.len() implies (#[trigger] mid[a]).key@ != kv by {
                let b = choose|b: int| 0 <= b < old_cache.len() && #[trigger] mid[a] == old_cache[b]
                    && (found matches Some(j) ==> b != j);
                match found {
                    Some(j) => { assert(old_cache[b].key@ != old_cache[j as int].key@); }
                    None => {}
                }
            }
        }
        proof {
            lemma_lookup(mid, kv);
            assert forall|k: KeyView| k != kv implies lookup(mid, k) == lookup(old_cache, k) by {
                lemma_lookup(mid, k);
                lemma_lookup(old_cache, k);
                if lookup(old_cache, k) is None {
                    assert forall|a: int| 0 <= a < mid.len() implies (#[trigger] mid[a]).key@ != k by {
                        let b = choose|b: int| 0 <= b < old_cache.len() && #[trigger] mid[a] == old_cache[b]
                            && (found matches Some(j) ==> b != j);
                    }
                } else {
                    let b = choose|b: int| 0 <= b < old_cache.len() && (#[trigger] old_cache[b]).key@ == k;
                    let a = match found {
                        Some(j) => if b < j { b } else { b - 1 },
                        None => b,
                    };
                    match found {
                        Some(j) => { assert(b != j); }
                        None => {}
                    }
                    assert(mid[a] == old_cache[b]);
                }
            }
        }
        self.cache.push(CachedResponse { key, response, created_at: now });
        let ghost fin = self.cache@;
        assert(fin.drop_last() =~= mid);
        assert(keys_distinct(fin)) by {
            assert forall|a: int, c: int| 0 <= a < c < fin.len() implies (#[trigger] fin[a]).key@ != (#[trigger] fin[c]).key@ by {
                assert(fin[a] == mid[a]);
                if c < mid.len() { assert(fin[c] == mid[c]); }
            }
        }
        assert(answers_wf(fin)) by {
            assert forall|a: int| 0 <= a < fin.len() implies items_wf((#[trigger] fin[a]).response.items@) by {
                if a < mid.len() { assert(fin[a] == mid[a]); }
            }
        }
    }

    /// Drops the answers older than the deduplication time; returns how
    /// many were dropped.
    pub fn cleanup_cache(&mut self, now: u64) -> (removed: usize)
        requires
            old(self).wf(),
        ensures
            final(self).wf(),
            final(self).config == old(self).config,
            final(self).client == old(self).client,
            final(self).pending == old(self).pending,
            final(self).in_flight == old(self).in_flight,
            forall|k: KeyView| lookup(final(self).cache@, k)
                == lookup_fresh(old(self).cache@, k, now, old(self).config.deduplication_ttl),
            forall|i: int| 0 <= i < final(self).cache@.len()
                ==> is_fresh(now, (#[trigger] final(self).cache@[i]).created_at, old(self).config.deduplication_ttl),
            removed == old(self).cache@.len() - final(self).cache@.len(),
    {
        let ghost old_cache = self.cache@;
        let ttl = self.config.deduplication_ttl;
        let mut rest: Vec<CachedResponse> = Vec::new();
        std::mem::swap(&mut rest, &mut self.cache);
        let total = rest.len();
        let mut kept: Vec<CachedResponse> = Vec::new();
        let mut done: usize = 0;
        while rest.len() > 0
            invariant
                old_cache == kept@.take(0) + old_cache,
                rest@ == old_cache.skip(done as int),
                total == old_cache.len(),
                done <= total,
                kept@.len() <= done,
                keys_distinct(old_cache),
                answers_wf(old_cache),
                forall|a: int| 0 <= a < kept@.len() ==> exists|b: int| 0 <= b < done
                    && #[trigger] kept@[a] == old_cache[b],
                forall|a: int| 0 <= a < kept@.len() ==> is_fresh(now, (#[trigger] kept@[a]).created_at, ttl),
                keys_distinct(kept@),
                forall|k: KeyView| lookup(kept@, k) == lookup_fresh(old_cache.take(done as int), k, now, ttl),
            decreases rest@.len(),
        {
            let e = rest.remove(0);
            assert(e == old_cache[done as int]);
            let ghost prefix = old_cache.take(done as int);
            let ghost prefix2 = old_cache.take(done + 1);
            assert(prefix2.drop_last() =~= prefix);
            assert(prefix2.last() == e);
            let ghost before = kept@;
            if fresh(now, e.created_at, ttl) {
                assert forall|a: int| 0 <= a < before.len() implies (#[trigger] before[a]).key@ != e.key@ by {
                    let b = choose|b: int| 0 <= b < done && #[trigger] before[a] == old_cache[b];
                    assert(old_cache[b].key@ != old_cache[done as int].key@);
                }
                assert(forall|k: KeyView| lookup(before, k) == lookup_fresh(prefix, k, now, ttl));
                kept.push(e);
                assert(kept@.drop_last() =~= before);
                assert(kept@.last() == e);
                assert(keys_distinct(kept@)) by {
                    assert forall|a: int, c: int| 0 <= a < c < kept@.len() implies (#[trigger] kept@[a]).key@ != (#[trigger] kept@[c]).key@ by {
                        assert(kept@[a] == before[a]);
                        if c < before.len() { assert(kept@[c] == before[c]); }
                    }
                }
                assert forall|a: int| 0 <= a < kept@.len() implies exists|b: int| 0 <= b < done + 1
                    && #[trigger] kept@[a] == old_cache[b] by {
                    if a < before.len() {
                        assert(kept@[a] == before[a]);
                        let b = choose|b: int| 0 <= b < done && #[trigger] before[a] == old_cache[b];
                        assert(kept@[a] == old_cache[b]);
                    } else {
                        assert(kept@[a] == old_cache[done as int]);
                    }
                }
                assert forall|k: KeyView| lookup(kept@, k) == lookup_fresh(prefix2, k, now, ttl) by {
                    if k != e.key@ {
                        assert(lookup(prefix2, k) == lookup(prefix, k));
                        assert(lookup(kept@, k) == lookup(before, k));
                    } else {
                        assert(lookup(kept@, k) == Some(e));
                        assert(lookup(prefix2, k) == Some(e));
                    }
                }
            } else {
                assert forall|k: KeyView| lookup(kept@, k) == lookup_fresh(prefix2, k, now, ttl) by {
                    if k != e.key@ {
                        assert(lookup(prefix2, k) == lookup(prefix, k));
                    } else {
                        lemma_lookup(prefix, k);
                        lemma_lookup(kept@, k);
                        assert forall|i: int| 0 <= i < prefix.len() implies (#[trigger] prefix[i]).key@ != k by {
                            assert(prefix[i] == old_cache[i]);
                            assert(old_cache[i].key@ != old_cache[done as int].key@);
                        }
                    }
                }
                assert forall|a: int| 0 <= a < kept@.len() implies exists|b: int| 0 <= b < done + 1
                    && #[trigger] kept@[a] == old_cache[b] by {
                    let b = choose|b: int| 0 <= b < done && #[trigger] kept@[a] == old_cache[b];
                }
            }
            done = done + 1;
            assert(rest@ =~= old_cache.skip(done as int));
        }
        assert(old_cache.take(total as int) =~= old_cache);
        assert(answers_wf(kept@)) by {
            assert forall|a: int| 0 <= a < kept@.len() implies items_wf((#[trigger] kept@[a]).response.items@) by {
                let b = choose|b: int| 0 <= b < done && #[trigger] kept@[a] == old_cache[b];
            }
        }
        let removed = total - kept.len();
        self.cache = kept;
        removed
    }

    /// Marks a request as under way.
    pub fn begin_group(&mut self, key: &RequestKey)
        requires
            old(self).wf(),
        ensures
            final(self).wf(),
            final(self).config == old(self).config,
            final(self).client == old(self).client,
            final(self).pending == old(self).pending,
            final(self).cache == old(self).cache,
            in_flight_has(final(self).in_flight@, key@),
            forall|k: KeyView| k != key@ ==> (in_flight_has(final(self).in_flight@, k) == in_flight_has(old(self).in_flight@, k)),
    {
        if !self.is_in_flight(key) {
            let ghost before = self.in_flight@;
            self.in_flight.push(key.duplicate());
            assert(self.in_flight@.drop_last() =~= before);
            assert(self.in_flight@[before.len() as int]@ == key@);
            assert forall|k: KeyView| k != key@ implies (in_flight_has(self.in_flight@, k) == in_flight_has(before, k)) by {
                if in_flight_has(self.in_flight@, k) {
                    let i = choose|i: int| 0 <= i < self.in_flight@.len() && (#[trigger] self.in_flight@[i])@ == k;
                    assert(before[i] == self.in_flight@[i]);
                }
                if in_flight_has(before, k) {
                    let i = choose|i: int| 0 <= i < before.len() && (#[trigger] before[i])@ == k;
                    assert(before[i] == self.in_flight@[i]);
                }
            }
            assert(flight_distinct(self.in_flight@)) by {
                assert forall|i: int, j: int| 0 <= i < j < self.in_flight@.len()
                    implies (#[trigger] self.in_flight@[i])@ != (#[trigger] self.in_flight@[j])@ by {
                    assert(self.in_flight@[i] == before[i]);
                    if j < before.len() { assert(self.in_flight@[j] == before[j]); }
                }
            }
        }
    }

    /// Whether a request is under way.
    pub fn is_in_flight(&self, key: &RequestKey) -> (res: bool)
        ensures
            res == in_flight_has(self.in_flight@, key@),
    {
        let n = self.in_flight.len();
        let mut i: usize = 0;
        while i < n
            invariant
                n == self.in_flight@.len(),
                i <= n,
                forall|j: int| 0 <= j < i ==> (#[trigger] self.in_flight@[j])@ != key@,
            decreases n - i,
        {
            if self.in_flight[i].same_as(key) {
                return true;
            }
            i = i + 1;
        }
        false
    }

    /// Marks a request as no longer under way.
    pub fn end_group(&mut self, key: &RequestKey)
        requires
            old(self).wf(),
        ensures
            final(self).wf(),
            final(self).config == old(self).config,
            final(self).client == old(self).client,
            final(self).pending == old(self).pending,
            final(self).cache == old(self).cache,
            !in_flight_has(final(self).in_flight@, key@),
            forall|k: KeyView| k != key@ ==> (in_flight_has(final(self).in_flight@, k) == in_flight_has(old(self).in_flight@, k)),
    {
        let ghost before = self.in_flight@;
        let n = self.in_flight.len();
        let mut i: usize = 0;
        let mut found: Option<usize> = None;
        while i < n
            invariant
                n == before.len(),
                self.in_flight@ == before,
                i <= n,
                found is None ==> forall|j: int| 0 <= j < i ==> (#[trigger] before[j])@ != key@,
                found matches Some(j) ==> j < n && before[j as int]@ == key@,
            decreases n - i,
        {
            if found.is_none() && self.in_flight[i].same_as(key) {
                found = Some(i);
            }
            i = i + 1;
        }
        match found {
            Some(i) => {
                let _ = self.in_flight.remove(i);
                let ghost after = self.in_flight@;
                assert forall|a: int| 0 <= a < after.len() implies #[trigger] after[a] == before[if a < i { a } else { a + 1 }] by {}
                assert forall|a: int| 0 <= a < after.len() implies (#[trigger] after[a])@ != key@ by {
                    let b = if a < i { a } else { a + 1 };
                    assert(after[a] == before[b]);
                    if b < i { assert(before[b]@ != before[i as int]@); }
                    if b > i { assert(before[i as int]@ != before[b]@); }
                }
                assert forall|k: KeyView| k != key@ implies (in_flight_has(after, k) == in_flight_has(before, k)) by {
                    if in_flight_has(after, k) {
                        let a = choose|a: int| 0 <= a < after.len() && (#[trigger] after[a])@ == k;
                        assert(after[a] == before[if a < i { a } else { a + 1 }]);
                    }
                    if in_flight_has(before, k) {
                        let b = choose|b: int| 0 <= b < before.len() && (#[trigger] before[b])@ == k;
                        if b < i { assert(after[b] == before[b]); } else if b > i { assert(after[b - 1] == before[b]); }
                    }
                }
                assert(flight_distinct(after)) by {
                    assert forall|a: int, c: int| 0 <= a < c < after.len()
                        implies (#[trigger] after[a])@ != (#[trigger] after[c])@ by {
                        let a2 = if a < i { a } else { a + 1 };
                        let c2 = if c < i { c } else { c + 1 };
                        assert(after[a] == before[a2]);
                        assert(after[c] == before[c2]);
                    }
                }
            }
            None => {}
        }
    }

    /// How a newly submitted request is handled: answered from a recent
    /// identical search when deduplication is on, else made to wait for an
    /// identical search under way, else queued.
    pub fn check_submission(&self, key: &RequestKey, now: u64) -> (res: Submission)
        requires
            self.wf(),
        ensures
            match res {
                Submission::Answered(r) => {
                    &&& self.config.enable_deduplication
                    &&& lookup_fresh(self.cache@, key@, now, self.config.deduplication_ttl) matches Some(e)
                    &&& same_response(e.response, r)
                },
                Submission::AwaitInFlight => !(self.config.enable_deduplication
                    && lookup_fresh(self.cache@, key@, now, self.config.deduplication_ttl) is Some)
                    && in_flight_has(self.in_flight@, key@),
                Submission::Enqueue => !(self.config.enable_deduplication
                    && lookup_fresh(self.cache@, key@, now, self.config.deduplication_ttl) is Some)
                    && !in_flight_has(self.in_flight@, key@),
            },
    {
        if self.config.enable_deduplication {
            match self.cached_response(key, now) {
                Some(r) => { return Submission::Answered(r); }
                None => {}
            }
        }
        if self.is_in_flight(key) { Submission::AwaitInFlight } else { Submission::Enqueue }
    }

    /// Ends the search of a group of identical requests: the request is no
    /// longer under way, a successful answer is kept for deduplication when
    /// that is on, and every request of the group gets its answer, in order,
    /// with its ticket.
    pub fn finish_group(&mut self, group: &Vec<PendingRequest>, outcome: Result<SearchResponse, WarpError>, now: u64)
        -> (replies: Vec<(u64, Result<SearchResponse, WarpError>)>)
        requires
            old(self).wf(),
            group@.len() > 0,
            outcome matches Ok(r) ==> items_wf(r.items@),
        ensures
            final(self).wf(),
            final(self).config == old(self).config,
            final(self).client == old(self).client,
            final(self).pending == old(self).pending,
            !in_flight_has(final(self).in_flight@, group@[0].key@),
            forall|k: KeyView| k != group@[0].key@ ==> (in_flight_has(final(self).in_flight@, k) == in_flight_has(old(self).in_flight@, k)),
            (outcome matches Ok(r) && old(self).config.enable_deduplication) ==> {
                &&& lookup(final(self).cache@, group@[0].key@) matches Some(e)
                &&& same_response(outcome->Ok_0, e.response)
                &&& e.created_at == now
                &&& forall|k: KeyView| k != group@[0].key@ ==> lookup(final(self).cache@, k) == lookup(old(self).cache@, k)
            },
            !(outcome matches Ok(r) && old(self).config.enable_deduplication) ==> final(self).cache == old(self).cache,
            replies@.len() == group@.len(),
            forall|i: int| 0 <= i < group@.len() ==> (#[trigger] replies@[i]).0 == group@[i].ticket
                && batch_reply(outcome, replies@[i].1),
    {
        let key = &group[0].key;
        self.end_group(key);
        let n = group.len();
        let mut replies: Vec<(u64, Result<SearchResponse, WarpError>)> = Vec::new();
        let mut i: usize = 0;
        while i < n
            invariant
                n == group@.len(),
                i <= n,
                outcome matches Ok(r) ==> items_wf(r.items@),
                replies@.len() == i,
                forall|j: int| 0 <= j < i ==> (#[trigger] replies@[j]).0 == group@[j].ticket
                    && batch_reply(outcome, replies@[j].1),
            decreases n - i,
        {
            let reply = match &outcome {
                Ok(r) => Ok(r.duplicate()),
                Err(e) => {
                    let mut m = string_of("Batch request failed: ");
                    push_str(&mut m, e.to_string().as_str());
                    Err(WarpError::Other(m))
                }
            };
            replies.push((group[i].ticket, reply));
            i = i + 1;
        }
        match outcome {
            Ok(r) => {
                if self.config.enable_deduplication {
                    let copy = r.duplicate();
                    self.store_response(key.duplicate(), copy, now);
                }
            }
            Err(_) => {}
        }
        replies
    }

    /// Current counts of waiting, cached and in-flight requests.
    pub fn get_stats(&self) -> (res: BatchStats)
        ensures
            res.pending_requests == self.pending@.len(),
            res.cached_responses == self.cache@.len(),
            res.in_flight_requests == self.in_flight@.len(),
            res.deduplication_enabled == self.config.enable_deduplication,
    {
        BatchStats {
            pending_requests: self.pending.len(),
            cached_responses: self.cache.len(),
            in_flight_requests: self.in_flight.len(),
            deduplication_enabled: self.config.enable_deduplication,
        }
    }

    /// Puts a request at the end of the queue; says whether the queue has
    /// reached the batch size, so that a batch should be taken at once.
    pub fn enqueue(&mut self, ticket: u64, request: UnifiedSearchRequest, now: u64) -> (full: bool)
        ensures
            final(self).config == old(self).config,
            final(self).client == old(self).client,
            final(self).cache == old(self).cache,
            final(self).in_flight == old(self).in_flight,
            final(self).pending@.len() == old(self).pending@.len() + 1,
            final(self).pending@.take(old(self).pending@.len() as int) == old(self).pending@,
            final(self).pending@.last().ticket == ticket,
            final(self).pending@.last().request == request,
            final(self).pending@.last().key@ == request_key(request),
            final(self).pending@.last().created_at == now,
            full == (final(self).pending@.len() >= old(self).config.max_batch_size),
    {
        let key = RequestKey::from_request(&request);
        let ghost before = self.pending@;
        self.pending.push(PendingRequest { ticket, request, key, created_at: now });
        assert(self.pending@.take(before.len() as int) =~= before);
        self.pending.len() >= self.config.max_batch_size
    }

    /// Takes the next batch: the oldest requests, at most the batch size of
    /// them, in the order they came.
    pub fn take_batch(&mut self) -> (batch: Vec<PendingRequest>)
        ensures
            final(self).config == old(self).config,
            final(self).client == old(self).client,
            final(self).cache == old(self).cache,
            final(self).in_flight == old(self).in_flight,
            batch@.len() == if old(self).pending@.len() <= old(self).config.max_batch_size {
                old(self).pending@.len() as int
            } else {
                old(self).config.max_batch_size as int
            },
            batch@ + final(self).pending@ == old(self).pending@,
    {
        let k = if self.config.max_batch_size < self.pending.len() { self.config.max_batch_size } else { self.pending.len() };
        let mut batch = self.pending.split_off(k);
        std::mem::swap(&mut batch, &mut self.pending);
        assert(batch@ + self.pending@ =~= old(self).pending@);
        batch
    }
}

/// Makes request batchers with the usual settings.
#[derive(Debug, Clone, Copy)]
pub struct BatcherFactory;

impl BatcherFactory {
    /// A batcher for a client, with the given settings or the defaults.
    pub fn create_batcher(client: LegalClient, config: Option<BatchConfig>) -> (res: RequestBatcher)
        ensures
            res.wf(),
            res.client == client,
            config matches Some(c) ==> res.config == c,
            config is None ==> {
                &&& res.config.max_batch_size == 10
                &&& res.config.max_batch_delay@ == 100_000_000
                &&& res.config.enable_deduplication
                &&& res.config.deduplication_ttl@ == 60_000_000_000
                &&& res.config.enable_predictive_batching
            },
            res.pending@.len() == 0,
            res.cache@.len() == 0,
            res.in_flight@.len() == 0,
    {
        let config = match config {
            Some(c) => c,
            None => BatchConfig::default(),
        };
        RequestBatcher::new(client, config)
    }

    /// A batcher for heavy traffic: batches of twenty every twentieth of a
    /// second, answers kept for five minutes.
    pub fn create_high_throughput_batcher(client: LegalClient) -> (res: RequestBatcher)
        ensures
            res.wf(),
            res.client == client,
            res.config.max_batch_size == 20,
            res.config.max_batch_delay@ == 50_000_000,
            res.config.enable_deduplication,
            res.config.deduplication_ttl@ == 300_000_000_000,
            res.config.enable_predictive_batching,
            res.pending@.len() == 0,
            res.cache@.len() == 0,
            res.in_flight@.len() == 0,
    {
        let config = BatchConfig {
            max_batch_size: 20,
            max_batch_delay: Duration::from_millis(50),
            enable_deduplication: true,
            deduplication_ttl: Duration::from_secs(300),
            enable_predictive_batching: true,
        };
        RequestBatcher::new(client, config)
    }

    /// A batcher for short waits: batches of five every fortieth of a
    /// second, answers kept for a minute, no predictive batching.
    pub fn create_low_latency_batcher(client: LegalClient) -> (res: RequestBatcher)
        ensures
            res.wf(),
            res.client == client,
            res.config.max_batch_size == 5,
            res.config.max_batch_delay@ == 25_000_000,
            res.config.enable_deduplication,
            res.config.deduplication_ttl@ == 60_000_000_000,
            !res.config.enable_predictive_batching,
            res.pending@.len() == 0,
            res.cache@.len() == 0,
            res.in_flight@.len() == 0,
    {
        let config = BatchConfig {
            max_batch_size: 5,
            max_batch_delay: Duration::from_millis(25),
            enable_deduplication: true,
            deduplication_ttl: Duration::from_secs(60),
            enable_predictive_batching: false,
        };
        RequestBatcher::new(client, config)
    }
}

/// The number of requests over the groups of the given keys.
pub open spec fn group_total(s: Seq<PendingRequest>, ks: Seq<KeyView>) -> int
    decreases ks.len(),
{
    if ks.len() == 0 { 0 } else { group_total(s, ks.drop_last()) + with_key(s, ks.last()).len() }
}

proof fn lemma_group_total_push(s: Seq<PendingRequest>, p: PendingRequest, ks: Seq<KeyView>)
    requires
        forall|a: int, b: int| 0 <= a < b < ks.len() ==> #[trigger] ks[a] != #[trigger] ks[b],
    ensures
        group_total(s.push(p), ks) == group_total(s, ks) + if ks.contains(p.key@) { 1int } else { 0int },
    decreases ks.len(),
{
    if ks.len() > 0 {
        let init = ks.drop_last();
        assert forall|a: int, b: int| 0 <= a < b < init.len() implies #[trigger] init[a] != #[trigger] init[b] by {
            assert(init[a] == ks[a] && init[b] == ks[b]);
        }
        lemma_group_total_push(s, p, init);
        lemma_with_key_push(s, p, ks.last());
        if ks.last() == p.key@ {
            assert(!init.contains(p.key@)) by {
                if init.contains(p.key@) {
                    let a = choose|a: int| 0 <= a < init.len() && init[a] == p.key@;
                    assert(ks[a] == init[a]);
                    assert(ks[ks.len() - 1] == ks.last());
                }
            }
            assert(ks[ks.len() - 1] == p.key@);
        } else {
            assert(ks.contains(p.key@) == init.contains(p.key@)) by {
                if ks.contains(p.key@) {
                    let a = choose|a: int| 0 <= a < ks.len() && ks[a] == p.key@;
                    assert(a != ks.len() - 1);
                    assert(init[a] == ks[a]);
                }
                if init.contains(p.key@) {
                    let a = choose|a: int| 0 <= a < init.len() && init[a] == p.key@;
                    assert(ks[a] == init[a]);
                }
            }
        }
    }
}

proof fn lemma_group_total_new_key(s: Seq<PendingRequest>, ks: Seq<KeyView>, k: KeyView)
    ensures
        group_total(s, ks.push(k)) == group_total(s, ks) + with_key(s, k).len(),
{
    assert(ks.push(k).drop_last() =~= ks);
}

/// Grouping a batch loses no request and invents none: the groups of the
/// batch's distinct keys hold exactly as many requests as the batch, and
/// every request is in the group of its own key.
pub proof fn law_grouping_partitions_batch(s: Seq<PendingRequest>)
    ensures
        group_total(s, first_keys(s)) == s.len(),
        forall|i: int| 0 <= i < s.len() ==> first_keys(s).contains((#[trigger] s[i]).key@)
            && with_key(s, s[i].key@).contains(s[i]),
    decreases s.len(),
{
    lemma_first_keys(s);
    if s.len() > 0 {
        let init = s.drop_last();
        let p = s.last();
        law_grouping_partitions_batch(init);
        lemma_first_keys(init);
        assert(init.push(p) =~= s);
        let ks = first_keys(init);
        lemma_group_total_push(init, p, ks);
        if !ks.contains(p.key@) {
            lemma_group_total_new_key(s, ks, p.key@);
            lemma_with_key_push(init, p, p.key@);
            assert forall|i: int| 0 <= i < init.len() implies (#[trigger] init[i]).key@ != p.key@ by {}
            lemma_with_key_absent(init, p.key@);
        }
        assert forall|i: int| 0 <= i < s.len() implies with_key(s, (#[trigger] s[i]).key@).contains(s[i]) by {
            let k = s[i].key@;
            lemma_with_key_push(init, p, k);
            if i < init.len() {
                assert(init[i] == s[i]);
                let w = with_key(init, k);
                let j = choose|j: int| 0 <= j < w.len() && w[j] == init[i];
                if p.key@ == k { assert(w.push(p)[j] == w[j]); }
            } else {
                assert(s[i] == p);
                let w = with_key(init, k);
                assert(w.push(p)[w.len() as int] == p);
            }
        }
    }
}

/// A successful search is not repeated while its answer is fresh: once the
/// answer of a request is kept at `then`, an identical request submitted at
/// a time `now` less than the deduplication time later is answered from it.
pub proof fn law_fresh_answer_is_reused(b: RequestBatcher, k: KeyView, now: u64)
    requires
        b.config.enable_deduplication,
        lookup(b.cache@, k) matches Some(e) && age(now, e.created_at) < b.config.deduplication_ttl@,
    ensures
        lookup_fresh(b.cache@, k, now, b.config.deduplication_ttl) == lookup(b.cache@, k),
        lookup_fresh(b.cache@, k, now, b.config.deduplication_ttl) is Some,
{
}

/// The same text, or both absent.
pub open spec fn same_opt_text(a: Option<String>, b: Option<String>) -> bool {
    match (a, b) {
        (None, None) => true,
        (Some(x), Some(y)) => x@ == y@,
        _ => false,
    }
}

/// Two requests share a key exactly when they agree on the query, the page
/// number, the page size, the law type and the department: requests for
/// different departments (or law types, pages, queries) are never answered
/// from one another's results or grouped together.
pub proof fn law_request_key_tells_requests_apart(a: UnifiedSearchRequest, b: UnifiedSearchRequest)
    ensures
        request_key(a) == request_key(b) <==> {
            &&& a.query@ == b.query@
            &&& a.page_no == b.page_no
            &&& a.page_size == b.page_size
            &&& same_opt_text(a.law_type, b.law_type)
            &&& same_opt_text(a.department, b.department)
        },
{
}

} // verus!
