//! The metrics collector: per-operation statistics, cache and pool metrics.

use vstd::prelude::*;
use vstd::relations::{sorted_by, total_ordering};
use vstd::seq_lib::lemma_sorted_unique;
use crate::time::{Duration, max_nanos};
use crate::strmap::StrMap;
use super::{OperationMetrics, CacheMetrics, ConnectionPoolMetrics, MetricsSnapshot, MetricsWindow};
use crate::ranking::top_indices;
use crate::text::string_of;

verus! {

broadcast use vstd::seq_lib::to_multiset_insert;

/// How many recent request durations are kept for percentiles.
pub const DURATION_WINDOW: usize = 10000;

/// The statistics of one operation as mathematical values.
pub struct StatsModel {
    pub total_requests: int,
    pub successful_requests: int,
    pub failed_requests: int,
    /// Most recent durations (nanoseconds), oldest first.
    pub durations: Seq<int>,
    pub total_duration: int,
    pub min_duration: int,
    pub max_duration: int,
}

/// Statistics of an operation never seen before.
pub open spec fn fresh_stats() -> StatsModel {
    StatsModel {
        total_requests: 0,
        successful_requests: 0,
        failed_requests: 0,
        durations: Seq::empty(),
        total_duration: 0,
        min_duration: max_nanos(),
        max_duration: 0,
    }
}

/// Keeps the last `DURATION_WINDOW` durations.
pub open spec fn keep_window(s: Seq<int>) -> Seq<int> {
    if s.len() > 10000 { s.drop_first() } else { s }
}

/// Folds one request duration into the statistics.
pub open spec fn model_add_duration(m: StatsModel, d: int) -> StatsModel {
    StatsModel {
        durations: keep_window(m.durations.push(d)),
        total_duration: m.total_duration + d,
        min_duration: if m.min_duration <= d { m.min_duration } else { d },
        max_duration: if m.max_duration >= d { m.max_duration } else { d },
        ..m
    }
}

/// A successful request of the given duration.
pub open spec fn model_add_success(m: StatsModel, d: int) -> StatsModel {
    model_add_duration(StatsModel {
        total_requests: m.total_requests + 1,
        successful_requests: m.successful_requests + 1,
        ..m
    }, d)
}

/// A failed request of the given duration.
pub open spec fn model_add_failure(m: StatsModel, d: int) -> StatsModel {
    model_add_duration(StatsModel {
        total_requests: m.total_requests + 1,
        failed_requests: m.failed_requests + 1,
        ..m
    }, d)
}

/// Whether one more request of duration `d` fits the counters' ranges.
pub open spec fn can_record(m: StatsModel, d: int) -> bool {
    &&& m.total_requests < u64::MAX
    &&& m.successful_requests < u64::MAX
    &&& m.failed_requests < u64::MAX
    &&& m.total_duration + d <= max_nanos()
}

/// The counter by which the average is taken: the request count cut to 32 bits.
pub open spec fn avg_divisor(m: StatsModel) -> int {
    m.total_requests % 0x1_0000_0000
}

/// The statistics can be reported: either no request yet, or the request
/// count does not vanish when cut to 32 bits (a zero divisor would abort).
pub open spec fn reportable(m: StatsModel) -> bool {
    m.total_requests == 0 || avg_divisor(m) != 0
}

/// Average duration: total divided by the 32-bit request count, zero when idle.
pub open spec fn model_avg(m: StatsModel) -> int {
    if m.total_requests > 0 { m.total_duration / avg_divisor(m) } else { 0 }
}

/// Position read for a percentile of `n` sorted samples: `n * pct / 100`,
/// less one when positive.
pub open spec fn percentile_pos(n: int, pct: int) -> int {
    let idx = n * pct / 100;
    if idx > 0 { idx - 1 } else { 0 }
}

/// A percentile of the recent durations, zero when there are none.
pub open spec fn model_percentile(m: StatsModel, pct: int) -> int {
    if m.durations.len() == 0 {
        0
    } else {
        m.durations.sort()[percentile_pos(m.durations.len() as int, pct)]
    }
}

/// Every request is counted as exactly one success or one failure: the
/// counts add up for a fresh operation and stay so with every request.
pub proof fn law_request_counts_add_up(m: StatsModel, d: int)
    ensures
        fresh_stats().total_requests == fresh_stats().successful_requests + fresh_stats().failed_requests,
        m.total_requests == m.successful_requests + m.failed_requests ==> {
            &&& model_add_success(m, d).total_requests == model_add_success(m, d).successful_requests + model_add_success(m, d).failed_requests
            &&& model_add_failure(m, d).total_requests == model_add_failure(m, d).successful_requests + model_add_failure(m, d).failed_requests
        },
{
}

/// A recorded failure counts once more as a request and as a failure,
/// leaves the successes, and its duration lies between the new shortest
/// and longest durations; a recorded success does the same with the
/// successes.
pub proof fn law_recorded_request_counted(m: StatsModel, d: int)
    ensures
        model_add_failure(m, d).total_requests == m.total_requests + 1,
        model_add_failure(m, d).failed_requests == m.failed_requests + 1,
        model_add_failure(m, d).successful_requests == m.successful_requests,
        model_add_failure(m, d).min_duration <= d <= model_add_failure(m, d).max_duration,
        model_add_success(m, d).total_requests == m.total_requests + 1,
        model_add_success(m, d).successful_requests == m.successful_requests + 1,
        model_add_success(m, d).failed_requests == m.failed_requests,
        model_add_success(m, d).min_duration <= d <= model_add_success(m, d).max_duration,
{
}

/// What statistics built by recording requests satisfy: the counts add up;
/// with no request, nothing is totalled and the extremes are at their
/// starting values; otherwise the total lies between the shortest and the
/// longest duration times the number of requests.
pub open spec fn stats_consistent(m: StatsModel) -> bool {
    &&& m.total_requests == m.successful_requests + m.failed_requests
    &&& m.total_requests >= 0
    &&& m.total_requests == 0 ==> m.total_duration == 0 && m.min_duration == max_nanos() && m.max_duration == 0
    &&& m.total_requests > 0 ==> {
        &&& 0 <= m.min_duration <= m.max_duration
        &&& m.min_duration * m.total_requests <= m.total_duration
        &&& m.total_duration <= m.max_duration * m.total_requests
    }
}

/// The shortest duration is at most the average, which is at most the
/// longest: fresh statistics are consistent, every recorded request keeps
/// them so, and for consistent statistics with at least one request whose
/// count fits the 32-bit divisor, min <= avg <= max.
pub proof fn law_average_between_extremes(m: StatsModel, d: int)
    requires
        0 <= d <= max_nanos(),
    ensures
        stats_consistent(fresh_stats()),
        stats_consistent(m) && m.total_duration >= 0 ==> stats_consistent(model_add_success(m, d))
            && stats_consistent(model_add_failure(m, d)),
        stats_consistent(m) && 0 < m.total_requests < 0x1_0000_0000
            ==> m.min_duration <= model_avg(m) <= m.max_duration,
{
    if stats_consistent(m) && m.total_duration >= 0 {
        lemma_add_keeps_consistent(StatsModel { total_requests: m.total_requests + 1, successful_requests: m.successful_requests + 1, ..m }, m, d);
        lemma_add_keeps_consistent(StatsModel { total_requests: m.total_requests + 1, failed_requests: m.failed_requests + 1, ..m }, m, d);
    }
    if stats_consistent(m) && 0 < m.total_requests < 0x1_0000_0000 {
        let n = m.total_requests;
        let t = m.total_duration;
        assert(avg_divisor(m) == n);
        let lo = m.min_duration;
        let hi = m.max_duration;
        assert(lo <= t / n <= hi) by (nonlinear_arith)
            requires n > 0, lo * n <= t, t <= hi * n, lo >= 0;
    }
}

proof fn lemma_add_keeps_consistent(bumped: StatsModel, m: StatsModel, d: int)
    requires
        stats_consistent(m),
        m.total_duration >= 0,
        0 <= d <= max_nanos(),
        bumped.total_requests == m.total_requests + 1,
        bumped.successful_requests + bumped.failed_requests == bumped.total_requests,
        bumped.total_duration == m.total_duration,
        bumped.min_duration == m.min_duration,
        bumped.max_duration == m.max_duration,
    ensures
        stats_consistent(model_add_duration(bumped, d)),
{
    let r = model_add_duration(bumped, d);
    let n = m.total_requests;
    let t = m.total_duration;
    if n == 0 {
        assert(r.min_duration == d);
        assert(r.min_duration <= d);
        assert(r.total_duration == d);
        assert(r.max_duration == d);
        assert(r.min_duration * 1 <= d);
    } else {
        let lo = m.min_duration;
        let hi = m.max_duration;
        let lo2 = r.min_duration;
        let hi2 = r.max_duration;
        assert(lo2 <= lo && lo2 <= d && hi2 >= hi && hi2 >= d && lo2 >= 0);
        assert(lo2 * (n + 1) <= t + d) by (nonlinear_arith)
            requires lo * n <= t, lo2 <= lo, lo2 <= d, n > 0, lo2 >= 0;
        assert(t + d <= hi2 * (n + 1)) by (nonlinear_arith)
            requires t <= hi * n, hi <= hi2, d <= hi2, n > 0;
    }
}

/// Percentiles grow with the percentage, and each one is a duration that was
/// recorded: the median is at most the 95th percentile, which is at most the
/// 99th.
pub proof fn law_percentiles_ordered(m: StatsModel, p: int, q: int)
    requires
        0 <= p <= q <= 100,
    ensures
        model_percentile(m, p) <= model_percentile(m, q),
        m.durations.len() > 0 ==> m.durations.contains(model_percentile(m, p)),
{
    if m.durations.len() > 0 {
        let n = m.durations.len() as int;
        let sorted = m.durations.sort();
        m.durations.lemma_sort_ensures();
        vstd::seq_lib::to_multiset_len(m.durations);
        vstd::seq_lib::to_multiset_len(sorted);
        assert(sorted.len() == n);
        assert(n * p / 100 <= n * q / 100 && n * q / 100 <= n) by (nonlinear_arith)
            requires
                0 <= p <= q <= 100,
                n > 0,
        {
            assert(n * p <= n * q);
            assert(n * q <= n * 100);
        }
        assert(n * p / 100 >= 0) by (nonlinear_arith)
            requires
                0 <= p,
                n > 0,
        ;
        let i = percentile_pos(n, p);
        let j = percentile_pos(n, q);
        assert(0 <= i <= j < n);
        if i < j {
            assert((|x: int, y: int| x <= y)(sorted[i], sorted[j]));
        }
        vstd::seq_lib::to_multiset_contains(sorted, sorted[i]);
        assert(sorted.contains(sorted[i]));
        assert(sorted.to_multiset().count(sorted[i]) > 0);
        vstd::seq_lib::to_multiset_contains(m.durations, sorted[i]);
    }
}

/// `om` is the report of `m`.
pub open spec fn reports(om: OperationMetrics, m: StatsModel) -> bool {
    &&& om.total_requests == m.total_requests
    &&& om.successful_requests == m.successful_requests
    &&& om.failed_requests == m.failed_requests
    &&& om.total_duration@ == m.total_duration
    &&& om.min_duration@ == (if m.min_duration == max_nanos() { 0 } else { m.min_duration })
    &&& om.max_duration@ == m.max_duration
    &&& om.avg_duration@ == model_avg(m)
    &&& om.p50_duration@ == model_percentile(m, 50)
    &&& om.p95_duration@ == model_percentile(m, 95)
    &&& om.p99_duration@ == model_percentile(m, 99)
}

/// Statistics of one operation.
#[derive(Debug)]
pub struct OperationStats {
    pub total_requests: u64,
    pub successful_requests: u64,
    pub failed_requests: u64,
    /// Most recent request durations, oldest first, at most `DURATION_WINDOW`.
    pub durations: Vec<Duration>,
    pub total_duration: Duration,
    pub min_duration: Duration,
    pub max_duration: Duration,
}

impl OperationStats {
    /// The statistics as mathematical values.
    pub open spec fn model(self) -> StatsModel {
        StatsModel {
            total_requests: self.total_requests as int,
            successful_requests: self.successful_requests as int,
            failed_requests: self.failed_requests as int,
            durations: self.durations@.map_values(|d: Duration| d@),
            total_duration: self.total_duration@,
            min_duration: self.min_duration@,
            max_duration: self.max_duration@,
        }
    }

    /// At most `DURATION_WINDOW` durations are kept.
    pub open spec fn wf(self) -> bool {
        self.durations@.len() <= 10000
    }

    /// Statistics of an operation never seen before.
    pub fn default() -> (res: OperationStats)
        ensures
            res.wf(),
            res.model() == fresh_stats(),
    {
        let res = OperationStats {
            total_requests: 0,
            successful_requests: 0,
            failed_requests: 0,
            durations: Vec::new(),
            total_duration: Duration::zero(),
            min_duration: Duration::max_value(),
            max_duration: Duration::zero(),
        };
        assert(res.model().durations =~= Seq::<int>::empty());
        res
    }

    /// Records a successful request.
    pub fn add_success(&mut self, duration: Duration)
        requires
            old(self).wf(),
            can_record(old(self).model(), duration@),
        ensures
            final(self).wf(),
            final(self).model() == model_add_success(old(self).model(), duration@),
    {
        self.total_requests = self.total_requests + 1;
        self.successful_requests = self.successful_requests + 1;
        self.add_duration(duration);
    }

    /// Records a failed request.
    pub fn add_failure(&mut self, duration: Duration)
        requires
            old(self).wf(),
            can_record(old(self).model(), duration@),
        ensures
            final(self).wf(),
            final(self).model() == model_add_failure(old(self).model(), duration@),
    {
        self.total_requests = self.total_requests + 1;
        self.failed_requests = self.failed_requests + 1;
        self.add_duration(duration);
    }

    /// Folds a request duration into totals, extremes and the recent window.
    pub fn add_duration(&mut self, duration: Duration)
        requires
            old(self).wf(),
            old(self).total_duration@ + duration@ <= max_nanos(),
        ensures
            final(self).wf(),
            final(self).model() == model_add_duration(old(self).model(), duration@),
    {
        let ghost old_durs = self.model().durations;
        self.total_duration = self.total_duration.add(duration);
        self.min_duration = self.min_duration.min(duration);
        self.max_duration = self.max_duration.max(duration);
        self.durations.push(duration);
        assert(self.durations@.map_values(|d: Duration| d@) =~= old_durs.push(duration@));
        if self.durations.len() > DURATION_WINDOW {
            let ghost before = self.durations@;
            self.durations.remove(0);
            assert(self.durations@ =~= before.drop_first());
            assert(self.durations@.map_values(|d: Duration| d@) =~= old_durs.push(duration@).drop_first());
        }
    }

    /// Percentiles 50, 95 and 99 of the recent durations.
    pub fn calculate_percentiles(&self) -> (res: (Duration, Duration, Duration))
        requires
            self.wf(),
        ensures
            res.0@ == model_percentile(self.model(), 50),
            res.1@ == model_percentile(self.model(), 95),
            res.2@ == model_percentile(self.model(), 99),
    {
        let len = self.durations.len();
        if len == 0 {
            return (Duration::zero(), Duration::zero(), Duration::zero());
        }
        let sorted = sort_durations(&self.durations);
        let i50 = len * 50 / 100;
        let i95 = len * 95 / 100;
        let i99 = len * 99 / 100;
        let p50 = if i50 > 0 { sorted[i50 - 1] } else { sorted[0] };
        let p95 = if i95 > 0 { sorted[i95 - 1] } else { sorted[0] };
        let p99 = if i99 > 0 { sorted[i99 - 1] } else { sorted[0] };
        (p50, p95, p99)
    }

    /// The report of these statistics, with average and percentiles.
    pub fn to_operation_metrics(&self) -> (res: OperationMetrics)
        requires
            self.wf(),
            reportable(self.model()),
        ensures
            reports(res, self.model()),
    {
        let avg_duration = if self.total_requests > 0 {
            let divisor = (self.total_requests % 0x1_0000_0000) as u32;
            self.total_duration.div_u32(divisor)
        } else {
            Duration::zero()
        };
        let (p50, p95, p99) = self.calculate_percentiles();
        let maxd = Duration::max_value();
        OperationMetrics {
            total_requests: self.total_requests,
            successful_requests: self.successful_requests,
            failed_requests: self.failed_requests,
            total_duration: self.total_duration,
            min_duration: if self.min_duration.as_nanos() == maxd.as_nanos() {
                Duration::zero()
            } else {
                self.min_duration
            },
            max_duration: self.max_duration,
            avg_duration,
            p50_duration: p50,
            p95_duration: p95,
            p99_duration: p99,
        }
    }
}

/// Nanosecond values of a list of spans.
pub open spec fn nanos_of(s: Seq<Duration>) -> Seq<int> {
    s.map_values(|d: Duration| d@)
}

proof fn lemma_le_total()
    ensures
        total_ordering(|x: int, y: int| x <= y),
{
}

/// The spans in ascending order.
fn sort_durations(v: &Vec<Duration>) -> (res: Vec<Duration>)
    ensures
        nanos_of(res@) == nanos_of(v@).sort(),
        res@.len() == v@.len(),
{
    let n = v.len();
    let mut out: Vec<Duration> = Vec::new();
    let mut i: usize = 0;
    assert(nanos_of(out@) =~= Seq::<int>::empty());
    assert(nanos_of(v@.take(0)) =~= Seq::<int>::empty());
    while i < n
        invariant
            n == v@.len(),
            i <= n,
            out@.len() == i,
            sorted_by(nanos_of(out@), |x: int, y: int| x <= y),
            nanos_of(out@).to_multiset() == nanos_of(v@.take(i as int)).to_multiset(),
        decreases n - i,
    {
        let x = v[i];
        let len = out.len();
        let mut p: usize = 0;
        while p < len && !x.lt(&out[p])
            invariant
                len == out@.len(),
                p <= len,
                forall|t: int| 0 <= t < p ==> out@[t]@ <= x@,
            decreases len - p,
        {
            p = p + 1;
        }
        let ghost before = out@;
        out.insert(p, x);
        proof {
            assert(out@ == before.insert(p as int, x));
            assert(nanos_of(out@) =~= nanos_of(before).insert(p as int, x@));
            assert(nanos_of(v@.take(i + 1)) =~= nanos_of(v@.take(i as int)).push(x@));
            assert(nanos_of(v@.take(i as int)).push(x@) =~= nanos_of(v@.take(i as int)).insert(i as int, x@));
            let ns = nanos_of(out@);
            assert forall|a: int, b: int| 0 <= a < b < ns.len() implies #[trigger] ns[a] <= #[trigger] ns[b] by {
                let nb = nanos_of(before);
                if b < p {
                    assert(ns[a] == nb[a] && ns[b] == nb[b]);
                    assert((|x: int, y: int| x <= y)(nb[a], nb[b]));
                } else if b == p {
                    assert(ns[a] == nb[a]);
                    assert(before[a]@ <= x@);
                    assert(ns[b] == x@);
                } else if a < p {
                    assert(ns[a] == nb[a] && ns[b] == nb[b - 1]);
                    assert(before[a]@ <= x@);
                    assert(nb[p as int] > x@);
                    if b - 1 > p {
                        assert((|x: int, y: int| x <= y)(nb[p as int], nb[b - 1]));
                    }
                } else if a == p {
                    assert(ns[b] == nb[b - 1]);
                    assert(nb[p as int] > x@);
                    if b - 1 > p {
                        assert((|x: int, y: int| x <= y)(nb[p as int], nb[b - 1]));
                    }
                } else {
                    assert(ns[a] == nb[a - 1] && ns[b] == nb[b - 1]);
                    assert((|x: int, y: int| x <= y)(nb[a - 1], nb[b - 1]));
                }
            }
        }
        i = i + 1;
    }
    proof {
        assert(v@.take(n as int) =~= v@);
        nanos_of(v@).lemma_sort_ensures();
        lemma_le_total();
        lemma_sorted_unique(nanos_of(out@), nanos_of(v@).sort(), |x: int, y: int| x <= y);
    }
    out
}


/// The current value at a key, or `dflt` when the key is absent.
pub open spec fn value_or<V>(m: Map<Seq<char>, V>, k: Seq<char>, dflt: V) -> V {
    if m.dom().contains(k) { m[k] } else { dflt }
}

/// Cache counters of an API not seen before.
pub open spec fn fresh_cache() -> CacheMetrics {
    CacheMetrics { hits: 0, misses: 0, evictions: 0, storage_size: 0, entry_count: 0 }
}

/// Pool metrics of a pool not seen before.
pub open spec fn fresh_pool() -> ConnectionPoolMetrics {
    ConnectionPoolMetrics {
        active_connections: 0,
        idle_connections: 0,
        total_connections: 0,
        connection_acquires: 0,
        connection_timeouts: 0,
        connection_errors: 0,
    }
}

/// Collects per-operation, per-cache and per-pool metrics.
pub struct MetricsCollector {
    operations: StrMap<OperationStats>,
    caches: StrMap<CacheMetrics>,
    connection_pools: StrMap<ConnectionPoolMetrics>,
}

/// Approximate memory held per tracked operation, in bytes.
pub open spec fn op_overhead() -> int { 1024 }

/// Size in bytes of one kept duration (that of `std::time::Duration`).
pub open spec fn duration_size() -> int { 16 }

/// Total number of kept durations over a list of statistics.
pub open spec fn kept_durations(s: Seq<OperationStats>) -> int
    decreases s.len(),
{
    if s.len() == 0 { 0 } else { kept_durations(s.drop_last()) + s.last().durations@.len() }
}

impl MetricsCollector {
    /// Statistics per operation name.
    pub closed spec fn ops(self) -> Map<Seq<char>, StatsModel> {
        self.operations.map_view().map_values(|s: OperationStats| s.model())
    }

    /// Operation names in the order they were first recorded.
    pub closed spec fn op_names(self) -> Seq<Seq<char>> {
        self.operations.key_seq()
    }

    /// Cache metrics per API name.
    pub closed spec fn caches(self) -> Map<Seq<char>, CacheMetrics> {
        self.caches.map_view()
    }

    /// Pool metrics per pool name.
    pub closed spec fn pools(self) -> Map<Seq<char>, ConnectionPoolMetrics> {
        self.connection_pools.map_view()
    }

    /// The approximate memory figure reported for the collector.
    pub closed spec fn memory_estimate(self) -> int {
        self.operations.key_seq().len() * op_overhead() + kept_durations(self.operations.val_seq()) * duration_size()
    }

    /// Internal consistency.
    pub closed spec fn wf(self) -> bool {
        &&& self.operations.wf()
        &&& self.caches.wf()
        &&& self.connection_pools.wf()
        &&& forall|i: int| 0 <= i < self.operations.val_seq().len() ==> #[trigger] self.operations.val_seq()[i].wf()
    }

    /// Every operation name is a key of the statistics and vice versa.
    pub proof fn lemma_names(self)
        requires
            self.wf(),
        ensures
            forall|k: Seq<char>| self.ops().dom().contains(k) <==> self.op_names().contains(k),
            self.op_names().no_duplicates(),
    {
    }

    /// The memory figure grows with the operations only: it is at most 1024
    /// bytes plus ten thousand kept durations for each operation recorded.
    pub proof fn lemma_memory_bound(self)
        requires
            self.wf(),
        ensures
            0 <= self.memory_estimate(),
            self.memory_estimate() <= self.op_names().len() * (op_overhead() + 10000 * duration_size()),
    {
        let vs = self.operations.val_seq();
        lemma_kept_window_bound(vs);
        let n = self.op_names().len() as int;
        let k = kept_durations(vs);
        assert(vs.len() == n);
        assert(0 <= k <= 10000 * n);
        assert(n * 1024 + k * 16 <= n * (1024 + 10000 * 16)) by (nonlinear_arith)
            requires 0 <= k <= 10000 * n, 0 <= n;
        assert(0 <= n * 1024 + k * 16) by (nonlinear_arith)
            requires 0 <= k, 0 <= n;
    }

    /// An empty collector.
    pub fn new() -> (res: Self)
        ensures
            res.wf(),
            res.ops() == Map::<Seq<char>, StatsModel>::empty(),
            res.op_names() == Seq::<Seq<char>>::empty(),
            res.memory_estimate() == 0,
            res.caches() == Map::<Seq<char>, CacheMetrics>::empty(),
            res.pools() == Map::<Seq<char>, ConnectionPoolMetrics>::empty(),
    {
        let res = MetricsCollector {
            operations: StrMap::new(),
            caches: StrMap::new(),
            connection_pools: StrMap::new(),
        };
        assert(res.ops() =~= Map::<Seq<char>, StatsModel>::empty());
        assert(res.caches() =~= Map::<Seq<char>, CacheMetrics>::empty());
        assert(res.pools() =~= Map::<Seq<char>, ConnectionPoolMetrics>::empty());
        res
    }

    fn record_request(&mut self, operation: &str, duration: Duration, success: bool)
        requires
            old(self).wf(),
            can_record(value_or(old(self).ops(), operation@, fresh_stats()), duration@),
        ensures
            final(self).wf(),
            final(self).ops() == old(self).ops().insert(operation@,
                if success {
                    model_add_success(value_or(old(self).ops(), operation@, fresh_stats()), duration@)
                } else {
                    model_add_failure(value_or(old(self).ops(), operation@, fresh_stats()), duration@)
                }),
            final(self).caches() == old(self).caches(),
            final(self).pools() == old(self).pools(),
            old(self).op_names().contains(operation@) ==> final(self).op_names() == old(self).op_names(),
            !old(self).op_names().contains(operation@) ==> final(self).op_names() == old(self).op_names().push(operation@),
    {
        let ghost old_ops = self.ops();
        let i = match self.operations.find(operation) {
            Some(i) => i,
            None => {
                let fresh = OperationStats::default();
                self.operations.push_new(operation, fresh);
                self.operations.len() - 1
            }
        };
        proof { crate::strmap::lemma_index_of_unique(self.operations.key_seq(), i as int); }
        let mut stats = self.operations.take_value(i, OperationStats::default());
        assert(stats.model() == value_or(old_ops, operation@, fresh_stats()));
        if success {
            stats.add_success(duration);
        } else {
            stats.add_failure(duration);
        }
        let ghost m = stats.model();
        self.operations.set_value(i, stats);
        proof {
            assert forall|j: int| 0 <= j < self.operations.val_seq().len()
                implies #[trigger] self.operations.val_seq()[j].wf() by {
                if j != i as int {
                    assert(self.operations.val_seq()[j] == old(self).operations.val_seq()[j]);
                }
            }
            assert forall|q: Seq<char>| #[trigger] old(self).operations.key_seq().contains(q)
                implies self.operations.key_seq().contains(q) && self.operations.key_seq().index_of(q) == old(self).operations.key_seq().index_of(q)
            by {
                let j = old(self).operations.key_seq().index_of(q);
                crate::strmap::lemma_index_of_unique(old(self).operations.key_seq(), j);
                assert(self.operations.key_seq()[j] == q);
                crate::strmap::lemma_index_of_unique(self.operations.key_seq(), j);
            }
            assert forall|q: Seq<char>| self.operations.key_seq().contains(q)
                implies #[trigger] old(self).operations.key_seq().contains(q) || q == operation@ by {
                let j = self.operations.key_seq().index_of(q);
                if j != i as int {
                    assert(old(self).operations.key_seq()[j] == q);
                }
            }
            assert(self.ops() =~= old_ops.insert(operation@, m));
        }
    }

    /// Records a successful request of an operation.
    pub fn record_request_success(&mut self, operation: &str, duration: Duration)
        requires
            old(self).wf(),
            can_record(value_or(old(self).ops(), operation@, fresh_stats()), duration@),
        ensures
            final(self).wf(),
            final(self).ops() == old(self).ops().insert(operation@,
                model_add_success(value_or(old(self).ops(), operation@, fresh_stats()), duration@)),
            final(self).caches() == old(self).caches(),
            final(self).pools() == old(self).pools(),
            old(self).op_names().contains(operation@) ==> final(self).op_names() == old(self).op_names(),
            !old(self).op_names().contains(operation@) ==> final(self).op_names() == old(self).op_names().push(operation@),
    {
        self.record_request(operation, duration, true);
    }

    /// Records a failed request of an operation.
    pub fn record_request_failure(&mut self, operation: &str, duration: Duration)
        requires
            old(self).wf(),
            can_record(value_or(old(self).ops(), operation@, fresh_stats()), duration@),
        ensures
            final(self).wf(),
            final(self).ops() == old(self).ops().insert(operation@,
                model_add_failure(value_or(old(self).ops(), operation@, fresh_stats()), duration@)),
            final(self).caches() == old(self).caches(),
            final(self).pools() == old(self).pools(),
            old(self).op_names().contains(operation@) ==> final(self).op_names() == old(self).op_names(),
            !old(self).op_names().contains(operation@) ==> final(self).op_names() == old(self).op_names().push(operation@),
    {
        self.record_request(operation, duration, false);
    }

    fn cache_entry(&mut self, api: &str) -> (res: usize)
        requires
            old(self).wf(),
        ensures
            final(self).wf(),
            res < final(self).caches.key_seq().len(),
            final(self).caches.key_seq()[res as int] == api@,
            final(self).caches.val_seq()[res as int] == value_or(old(self).caches(), api@, fresh_cache()),
            final(self).caches() == old(self).caches().insert(api@, value_or(old(self).caches(), api@, fresh_cache())),
            final(self).operations == old(self).operations,
            final(self).connection_pools == old(self).connection_pools,
    {
        match self.caches.find(api) {
            Some(i) => {
                proof { crate::strmap::lemma_index_of_unique(self.caches.key_seq(), i as int); }
                assert(self.caches() =~= old(self).caches().insert(api@, value_or(old(self).caches(), api@, fresh_cache())));
                i
            }
            None => {
                let fresh = CacheMetrics::default();
                let ghost before = self.caches.map_view();
                self.caches.insert(api, fresh);
                proof {
                    crate::strmap::lemma_index_of_unique(self.caches.key_seq(), (self.caches.key_seq().len() - 1) as int);
                }
                self.caches.len() - 1
            }
        }
    }

    fn store_cache(&mut self, i: usize, m: CacheMetrics)
        requires
            old(self).wf(),
            i < old(self).caches.key_seq().len(),
        ensures
            final(self).wf(),
            final(self).caches() == old(self).caches().insert(old(self).caches.key_seq()[i as int], m),
            final(self).operations == old(self).operations,
            final(self).connection_pools == old(self).connection_pools,
    {
        self.caches.set_value(i, m);
    }

    /// Records a cache hit for an API.
    pub fn record_cache_hit(&mut self, api: &str)
        requires
            old(self).wf(),
            value_or(old(self).caches(), api@, fresh_cache()).hits < u64::MAX,
        ensures
            final(self).wf(),
            final(self).caches() == old(self).caches().insert(api@, CacheMetrics {
                hits: (value_or(old(self).caches(), api@, fresh_cache()).hits + 1) as u64,
                ..value_or(old(self).caches(), api@, fresh_cache())
            }),
            final(self).ops() == old(self).ops(),
            final(self).op_names() == old(self).op_names(),
            final(self).pools() == old(self).pools(),
    {
        let i = self.cache_entry(api);
        let mut m = *self.caches.value_at(i);
        m.hits = m.hits + 1;
        self.store_cache(i, m);
    }

    /// Records a cache miss for an API.
    pub fn record_cache_miss(&mut self, api: &str)
        requires
            old(self).wf(),
            value_or(old(self).caches(), api@, fresh_cache()).misses < u64::MAX,
        ensures
            final(self).wf(),
            final(self).caches() == old(self).caches().insert(api@, CacheMetrics {
                misses: (value_or(old(self).caches(), api@, fresh_cache()).misses + 1) as u64,
                ..value_or(old(self).caches(), api@, fresh_cache())
            }),
            final(self).ops() == old(self).ops(),
            final(self).op_names() == old(self).op_names(),
            final(self).pools() == old(self).pools(),
    {
        let i = self.cache_entry(api);
        let mut m = *self.caches.value_at(i);
        m.misses = m.misses + 1;
        self.store_cache(i, m);
    }

    /// Records a cache eviction for an API.
    pub fn record_cache_eviction(&mut self, api: &str)
        requires
            old(self).wf(),
            value_or(old(self).caches(), api@, fresh_cache()).evictions < u64::MAX,
        ensures
            final(self).wf(),
            final(self).caches() == old(self).caches().insert(api@, CacheMetrics {
                evictions: (value_or(old(self).caches(), api@, fresh_cache()).evictions + 1) as u64,
                ..value_or(old(self).caches(), api@, fresh_cache())
            }),
            final(self).ops() == old(self).ops(),
            final(self).op_names() == old(self).op_names(),
            final(self).pools() == old(self).pools(),
    {
        let i = self.cache_entry(api);
        let mut m = *self.caches.value_at(i);
        m.evictions = m.evictions + 1;
        self.store_cache(i, m);
    }

    /// Sets the storage size and entry count of an API's cache.
    pub fn update_cache_storage(&mut self, api: &str, size: u64, entry_count: u64)
        requires
            old(self).wf(),
        ensures
            final(self).wf(),
            final(self).caches() == old(self).caches().insert(api@, CacheMetrics {
                storage_size: size,
                entry_count: entry_count,
                ..value_or(old(self).caches(), api@, fresh_cache())
            }),
            final(self).ops() == old(self).ops(),
            final(self).op_names() == old(self).op_names(),
            final(self).pools() == old(self).pools(),
    {
        let i = self.cache_entry(api);
        let mut m = *self.caches.value_at(i);
        m.storage_size = size;
        m.entry_count = entry_count;
        self.store_cache(i, m);
    }

    fn pool_entry(&mut self, pool_name: &str) -> (res: usize)
        requires
            old(self).wf(),
        ensures
            final(self).wf(),
            res < final(self).connection_pools.key_seq().len(),
            final(self).connection_pools.key_seq()[res as int] == pool_name@,
            final(self).connection_pools.val_seq()[res as int] == value_or(old(self).pools(), pool_name@, fresh_pool()),
            final(self).pools() == old(self).pools().insert(pool_name@, value_or(old(self).pools(), pool_name@, fresh_pool())),
            final(self).operations == old(self).operations,
            final(self).caches == old(self).caches,
    {
        match self.connection_pools.find(pool_name) {
            Some(i) => {
                proof { crate::strmap::lemma_index_of_unique(self.connection_pools.key_seq(), i as int); }
                assert(self.pools() =~= old(self).pools().insert(pool_name@, value_or(old(self).pools(), pool_name@, fresh_pool())));
                i
            }
            None => {
                let fresh = ConnectionPoolMetrics::default();
                self.connection_pools.insert(pool_name, fresh);
                proof {
                    crate::strmap::lemma_index_of_unique(self.connection_pools.key_seq(), (self.connection_pools.key_seq().len() - 1) as int);
                }
                self.connection_pools.len() - 1
            }
        }
    }

    /// Sets the connection gauges of a pool.
    pub fn update_connection_pool(&mut self, pool_name: &str, active: u32, idle: u32, total: u32)
        requires
            old(self).wf(),
        ensures
            final(self).wf(),
            final(self).pools() == old(self).pools().insert(pool_name@, ConnectionPoolMetrics {
                active_connections: active,
                idle_connections: idle,
                total_connections: total,
                ..value_or(old(self).pools(), pool_name@, fresh_pool())
            }),
            final(self).ops() == old(self).ops(),
            final(self).op_names() == old(self).op_names(),
            final(self).caches() == old(self).caches(),
    {
        let i = self.pool_entry(pool_name);
        let mut m = *self.connection_pools.value_at(i);
        m.active_connections = active;
        m.idle_connections = idle;
        m.total_connections = total;
        self.connection_pools.set_value(i, m);
    }

    /// Records an attempt to acquire a connection: every attempt counts, a
    /// timeout counts as a timeout, any other failure as an error.
    pub fn record_connection_acquire(&mut self, pool_name: &str, success: bool, timeout: bool)
        requires
            old(self).wf(),
            value_or(old(self).pools(), pool_name@, fresh_pool()).connection_acquires < u64::MAX,
            value_or(old(self).pools(), pool_name@, fresh_pool()).connection_timeouts < u64::MAX,
            value_or(old(self).pools(), pool_name@, fresh_pool()).connection_errors < u64::MAX,
        ensures
            final(self).wf(),
            final(self).pools() == old(self).pools().insert(pool_name@, {
                let cur = value_or(old(self).pools(), pool_name@, fresh_pool());
                ConnectionPoolMetrics {
                    connection_acquires: (cur.connection_acquires + 1) as u64,
                    connection_timeouts: if timeout { (cur.connection_timeouts + 1) as u64 } else { cur.connection_timeouts },
                    connection_errors: if !timeout && !success { (cur.connection_errors + 1) as u64 } else { cur.connection_errors },
                    ..cur
                }
            }),
            final(self).ops() == old(self).ops(),
            final(self).op_names() == old(self).op_names(),
            final(self).caches() == old(self).caches(),
    {
        let i = self.pool_entry(pool_name);
        let mut m = *self.connection_pools.value_at(i);
        m.connection_acquires = m.connection_acquires + 1;
        if timeout {
            m.connection_timeouts = m.connection_timeouts + 1;
        } else if !success {
            m.connection_errors = m.connection_errors + 1;
        }
        self.connection_pools.set_value(i, m);
    }

    /// The report of one operation, if it was ever recorded.
    pub fn get_operation_metrics(&self, operation: &str) -> (res: Option<OperationMetrics>)
        requires
            self.wf(),
            self.ops().dom().contains(operation@) ==> reportable(self.ops()[operation@]),
        ensures
            res is Some <==> self.ops().dom().contains(operation@),
            res matches Some(om) ==> reports(om, self.ops()[operation@]),
    {
        match self.operations.find(operation) {
            Some(i) => {
                proof { crate::strmap::lemma_index_of_unique(self.operations.key_seq(), i as int); }
                Some(self.operations.value_at(i).to_operation_metrics())
            }
            None => None,
        }
    }

    /// Whether one more request of `operation` taking `duration` fits the
    /// counters: the request counts are below their maximum and the total
    /// duration stays in range.
    pub fn can_record_request(&self, operation: &str, duration: Duration) -> (res: bool)
        requires
            self.wf(),
        ensures
            res == can_record(value_or(self.ops(), operation@, fresh_stats()), duration@),
    {
        proof { Duration::lemma_range(duration); }
        let limit: u128 = 0xffff_ffff_ffff_ffff * 1_000_000_000 + 999_999_999;
        let d = duration.as_nanos();
        match self.operations.find(operation) {
            Some(i) => {
                proof { crate::strmap::lemma_index_of_unique(self.operations.key_seq(), i as int); }
                let s = self.operations.value_at(i);
                assert(s.model() == value_or(self.ops(), operation@, fresh_stats()));
                let t = s.total_duration.as_nanos();
                s.total_requests < u64::MAX && s.successful_requests < u64::MAX
                    && s.failed_requests < u64::MAX && t <= limit && d <= limit - t
            }
            None => {
                assert(!self.ops().dom().contains(operation@));
                d <= limit
            }
        }
    }

    /// The cache counters of one API, zero when none were recorded.
    pub fn cache_counters(&self, api: &str) -> (res: CacheMetrics)
        requires
            self.wf(),
        ensures
            res == value_or(self.caches(), api@, fresh_cache()),
    {
        match self.caches.get(api) {
            Some(c) => *c,
            None => CacheMetrics::default(),
        }
    }

    /// The cache metrics of one API, if any were recorded.
    pub fn get_cache_metrics(&self, api: &str) -> (res: Option<CacheMetrics>)
        requires
            self.wf(),
        ensures
            res is Some <==> self.caches().dom().contains(api@),
            res matches Some(c) ==> c == self.caches()[api@],
    {
        match self.caches.get(api) {
            Some(c) => Some(*c),
            None => None,
        }
    }

    /// The pool metrics of one pool, if any were recorded.
    pub fn get_pool_metrics(&self, pool_name: &str) -> (res: Option<ConnectionPoolMetrics>)
        requires
            self.wf(),
        ensures
            res is Some <==> self.pools().dom().contains(pool_name@),
            res matches Some(c) ==> c == self.pools()[pool_name@],
    {
        match self.connection_pools.get(pool_name) {
            Some(c) => Some(*c),
            None => None,
        }
    }

    /// Every recorded operation can be reported.
    pub open spec fn all_reportable(self) -> bool {
        forall|k: Seq<char>| #[trigger] self.ops().dom().contains(k) ==> reportable(self.ops()[k])
    }

    fn all_reports(&self) -> (res: Vec<(String, OperationMetrics)>)
        requires
            self.wf(),
            self.all_reportable(),
        ensures
            res@.len() == self.op_names().len(),
            forall|i: int| 0 <= i < res@.len() ==> (#[trigger] res@[i]).0@ == self.op_names()[i]
                && reports(res@[i].1, self.ops()[self.op_names()[i]]),
    {
        let n = self.operations.len();
        let mut out: Vec<(String, OperationMetrics)> = Vec::new();
        let mut i: usize = 0;
        while i < n
            invariant
                self.wf(),
                self.all_reportable(),
                n == self.op_names().len(),
                i <= n,
                out@.len() == i,
                forall|j: int| 0 <= j < out@.len() ==> (#[trigger] out@[j]).0@ == self.op_names()[j]
                    && reports(out@[j].1, self.ops()[self.op_names()[j]]),
            decreases n - i,
        {
            proof {
                crate::strmap::lemma_index_of_unique(self.operations.key_seq(), i as int);
                assert(self.ops().dom().contains(self.op_names()[i as int]));
            }
            let name = string_of(self.operations.key_at(i).as_str());
            let om = self.operations.value_at(i).to_operation_metrics();
            out.push((name, om));
            i = i + 1;
        }
        out
    }

    /// Up to `limit` operations with the most requests, most first.
    pub fn get_top_operations(&self, limit: usize) -> (res: Vec<(String, OperationMetrics)>)
        requires
            self.wf(),
            self.all_reportable(),
        ensures
            res@.len() == if limit < self.op_names().len() { limit as int } else { self.op_names().len() as int },
            forall|a: int| 0 <= a < res@.len() ==> self.ops().dom().contains((#[trigger] res@[a]).0@)
                && reports(res@[a].1, self.ops()[res@[a].0@]),
            forall|a: int, b: int| 0 <= a < res@.len() && 0 <= b < res@.len() && a != b
                ==> (#[trigger] res@[a]).0@ != (#[trigger] res@[b]).0@,
            forall|a: int, b: int| 0 <= a < b < res@.len()
                ==> (#[trigger] res@[a]).1.total_requests >= (#[trigger] res@[b]).1.total_requests,
            forall|k: Seq<char>, a: int| #[trigger] self.ops().dom().contains(k)
                && (forall|b: int| 0 <= b < res@.len() ==> (#[trigger] res@[b]).0@ != k)
                && 0 <= a < res@.len()
                ==> self.ops()[k].total_requests <= (#[trigger] res@[a]).1.total_requests,
    {
        let all = self.all_reports();
        let n = all.len();
        let mut scores: Vec<u128> = Vec::new();
        let mut i: usize = 0;
        while i < n
            invariant
                n == all@.len(),
                i <= n,
                scores@.len() == i,
                forall|j: int| 0 <= j < i ==> scores@[j] == all@[j].1.total_requests,
            decreases n - i,
        {
            scores.push(all[i].1.total_requests as u128);
            i = i + 1;
        }
        let idx = top_indices(&scores, limit);
        let res = self.pick(&all, &scores, &idx);
        proof {
            assert forall|k: Seq<char>, a: int| #[trigger] self.ops().dom().contains(k)
                && (forall|b: int| 0 <= b < res@.len() ==> (#[trigger] res@[b]).0@ != k)
                && 0 <= a < res@.len()
                implies self.ops()[k].total_requests <= (#[trigger] res@[a]).1.total_requests by {
                let j = self.op_names().index_of(k);
                assert(self.operations.key_seq().contains(k));
                crate::strmap::lemma_index_of_unique(self.operations.key_seq(), j);
                if idx@.contains(j as usize) {
                    let b = choose|b: int| 0 <= b < idx@.len() && idx@[b] == j as usize;
                    assert(res@[b].0@ == k);
                }
                assert(scores@[j] <= scores@[idx@[a] as int]);
            }
        }
        res
    }

    /// Up to `limit` operations with the longest average duration, longest first.
    pub fn get_slowest_operations(&self, limit: usize) -> (res: Vec<(String, OperationMetrics)>)
        requires
            self.wf(),
            self.all_reportable(),
        ensures
            res@.len() == if limit < self.op_names().len() { limit as int } else { self.op_names().len() as int },
            forall|a: int| 0 <= a < res@.len() ==> self.ops().dom().contains((#[trigger] res@[a]).0@)
                && reports(res@[a].1, self.ops()[res@[a].0@]),
            forall|a: int, b: int| 0 <= a < res@.len() && 0 <= b < res@.len() && a != b
                ==> (#[trigger] res@[a]).0@ != (#[trigger] res@[b]).0@,
            forall|a: int, b: int| 0 <= a < b < res@.len()
                ==> (#[trigger] res@[a]).1.avg_duration@ >= (#[trigger] res@[b]).1.avg_duration@,
            forall|k: Seq<char>, a: int| #[trigger] self.ops().dom().contains(k)
                && (forall|b: int| 0 <= b < res@.len() ==> (#[trigger] res@[b]).0@ != k)
                && 0 <= a < res@.len()
                ==> model_avg(self.ops()[k]) <= (#[trigger] res@[a]).1.avg_duration@,
    {
        let all = self.all_reports();
        let n = all.len();
        let mut scores: Vec<u128> = Vec::new();
        let mut i: usize = 0;
        while i < n
            invariant
                n == all@.len(),
                i <= n,
                scores@.len() == i,
                forall|j: int| 0 <= j < i ==> scores@[j] == all@[j].1.avg_duration@,
            decreases n - i,
        {
            scores.push(all[i].1.avg_duration.as_nanos());
            i = i + 1;
        }
        let idx = top_indices(&scores, limit);
        let res = self.pick(&all, &scores, &idx);
        proof {
            assert forall|k: Seq<char>, a: int| #[trigger] self.ops().dom().contains(k)
                && (forall|b: int| 0 <= b < res@.len() ==> (#[trigger] res@[b]).0@ != k)
                && 0 <= a < res@.len()
                implies model_avg(self.ops()[k]) <= (#[trigger] res@[a]).1.avg_duration@ by {
                let j = self.op_names().index_of(k);
                assert(self.operations.key_seq().contains(k));
                crate::strmap::lemma_index_of_unique(self.operations.key_seq(), j);
                if idx@.contains(j as usize) {
                    let b = choose|b: int| 0 <= b < idx@.len() && idx@[b] == j as usize;
                    assert(res@[b].0@ == k);
                }
                assert(scores@[j] <= scores@[idx@[a] as int]);
            }
        }
        res
    }

    fn pick(&self, all: &Vec<(String, OperationMetrics)>, scores: &Vec<u128>, idx: &Vec<usize>) -> (res: Vec<(String, OperationMetrics)>)
        requires
            self.wf(),
            all@.len() == self.op_names().len(),
            scores@.len() == all@.len(),
            forall|i: int| 0 <= i < all@.len() ==> (#[trigger] all@[i]).0@ == self.op_names()[i]
                && reports(all@[i].1, self.ops()[self.op_names()[i]]),
            idx@.no_duplicates(),
            forall|a: int| 0 <= a < idx@.len() ==> #[trigger] idx@[a] < scores@.len(),
        ensures
            res@.len() == idx@.len(),
            forall|a: int| 0 <= a < res@.len() ==> (#[trigger] res@[a]).0@ == all@[idx@[a] as int].0@
                && res@[a].1 == all@[idx@[a] as int].1,
            forall|a: int| 0 <= a < res@.len() ==> self.ops().dom().contains((#[trigger] res@[a]).0@)
                && reports(res@[a].1, self.ops()[res@[a].0@]),
            forall|a: int, b: int| 0 <= a < res@.len() && 0 <= b < res@.len() && a != b
                ==> (#[trigger] res@[a]).0@ != (#[trigger] res@[b]).0@,
    {
        let m = idx.len();
        let mut out: Vec<(String, OperationMetrics)> = Vec::new();
        let mut a: usize = 0;
        while a < m
            invariant
                m == idx@.len(),
                a <= m,
                out@.len() == a,
                forall|c: int| 0 <= c < a ==> (#[trigger] out@[c]).0@ == all@[idx@[c] as int].0@
                    && out@[c].1 == all@[idx@[c] as int].1,
                forall|c: int| 0 <= c < idx@.len() ==> #[trigger] idx@[c] < scores@.len(),
                scores@.len() == all@.len(),
            decreases m - a,
        {
            let t = idx[a];
            let name = string_of(all[t].0.as_str());
            out.push((name, all[t].1));
            a = a + 1;
        }
        proof {
            assert forall|c: int| 0 <= c < out@.len() implies self.ops().dom().contains((#[trigger] out@[c]).0@)
                && reports(out@[c].1, self.ops()[out@[c].0@]) by {
                let t = idx@[c] as int;
                crate::strmap::lemma_index_of_unique(self.operations.key_seq(), t);
            }
            assert forall|c: int, d: int| 0 <= c < out@.len() && 0 <= d < out@.len() && c != d
                implies (#[trigger] out@[c]).0@ != (#[trigger] out@[d]).0@ by {
                assert(idx@[c] != idx@[d]);
            }
        }
        out
    }

    /// All metrics at the clock reading `now` (nanoseconds), the collector
    /// having run for `uptime`: the report of every operation in the order
    /// the operations were first recorded, the cache and pool metrics, and
    /// the memory estimate.
    pub fn get_snapshot(&self, now: u64, uptime: Duration) -> (res: MetricsSnapshot)
        requires
            self.wf(),
            self.all_reportable(),
            self.memory_estimate() <= u64::MAX,
            self.memory_estimate() <= usize::MAX,
        ensures
            res.timestamp == now,
            res.uptime == uptime,
            res.memory_usage == self.memory_estimate(),
            res.operations.wf(),
            res.operations.key_seq() == self.op_names(),
            forall|i: int| 0 <= i < self.op_names().len()
                ==> reports(#[trigger] res.operations.val_seq()[i], self.ops()[self.op_names()[i]]),
            res.cache.wf(),
            res.cache.map_view() == self.caches(),
            res.connection_pools.wf(),
            res.connection_pools.map_view() == self.pools(),
    {
        let n = self.operations.len();
        let mut operations: StrMap<OperationMetrics> = StrMap::new();
        let mut i: usize = 0;
        while i < n
            invariant
                self.wf(),
                self.all_reportable(),
                n == self.op_names().len(),
                i <= n,
                operations.wf(),
                operations.key_seq() == self.op_names().take(i as int),
                operations.val_seq().len() == i,
                forall|j: int| 0 <= j < i
                    ==> reports(#[trigger] operations.val_seq()[j], self.ops()[self.op_names()[j]]),
            decreases n - i,
        {
            proof {
                crate::strmap::lemma_index_of_unique(self.operations.key_seq(), i as int);
                assert(self.ops().dom().contains(self.op_names()[i as int]));
                assert(!self.op_names().take(i as int).contains(self.op_names()[i as int]));
            }
            let om = self.operations.value_at(i).to_operation_metrics();
            operations.push_new(self.operations.key_at(i).as_str(), om);
            assert(self.op_names().take(i + 1) =~= self.op_names().take(i as int).push(self.op_names()[i as int]));
            i = i + 1;
        }
        assert(self.op_names().take(n as int) =~= self.op_names());
        let cache = self.caches.copied();
        let connection_pools = self.connection_pools.copied();
        assert(cache.map_view() =~= self.caches());
        assert(connection_pools.map_view() =~= self.pools());
        let memory_usage = self.get_memory_usage();
        MetricsSnapshot { timestamp: now, operations, cache, connection_pools, memory_usage, uptime }
    }

    /// The metrics of a window; every window gives the whole snapshot, as
    /// no history is kept by the collector.
    pub fn get_windowed_metrics(&self, _window: MetricsWindow, now: u64, uptime: Duration) -> (res: MetricsSnapshot)
        requires
            self.wf(),
            self.all_reportable(),
            self.memory_estimate() <= u64::MAX,
            self.memory_estimate() <= usize::MAX,
        ensures
            res.timestamp == now,
            res.uptime == uptime,
            res.memory_usage == self.memory_estimate(),
            res.operations.wf(),
            res.operations.key_seq() == self.op_names(),
            forall|i: int| 0 <= i < self.op_names().len()
                ==> reports(#[trigger] res.operations.val_seq()[i], self.ops()[self.op_names()[i]]),
            res.cache.wf(),
            res.cache.map_view() == self.caches(),
            res.connection_pools.wf(),
            res.connection_pools.map_view() == self.pools(),
    {
        self.get_snapshot(now, uptime)
    }

    /// Forgets all metrics.
    pub fn reset(&mut self)
        requires
            old(self).wf(),
        ensures
            final(self).wf(),
            final(self).ops() == Map::<Seq<char>, StatsModel>::empty(),
            final(self).op_names() == Seq::<Seq<char>>::empty(),
            final(self).caches() == Map::<Seq<char>, CacheMetrics>::empty(),
            final(self).pools() == Map::<Seq<char>, ConnectionPoolMetrics>::empty(),
    {
        self.operations.clear();
        self.caches.clear();
        self.connection_pools.clear();
        assert(self.ops() =~= Map::<Seq<char>, StatsModel>::empty());
        assert(self.caches() =~= Map::<Seq<char>, CacheMetrics>::empty());
        assert(self.pools() =~= Map::<Seq<char>, ConnectionPoolMetrics>::empty());
    }

    /// Approximate memory used: 1024 bytes per operation plus the size of
    /// every kept duration.
    pub fn get_memory_usage(&self) -> (res: u64)
        requires
            self.wf(),
            self.memory_estimate() <= u64::MAX,
            self.memory_estimate() <= usize::MAX,
        ensures
            res == self.memory_estimate(),
    {
        let n = self.operations.len();
        let mut kept: u64 = 0;
        let mut i: usize = 0;
        proof { lemma_kept_prefix_bound(self.operations.val_seq(), n as int); }
        while i < n
            invariant
                self.wf(),
                n == self.operations.key_seq().len(),
                i <= n,
                kept == kept_durations(self.operations.val_seq().take(i as int)),
                self.memory_estimate() <= u64::MAX,
                n * op_overhead() + kept_durations(self.operations.val_seq()) * duration_size() <= u64::MAX,
            decreases n - i,
        {
            let ghost vs = self.operations.val_seq();
            assert(vs.take(i + 1).drop_last() =~= vs.take(i as int));
            proof { lemma_kept_prefix_bound(vs, i + 1); }
            kept = kept + self.operations.value_at(i).durations.len() as u64;
            i = i + 1;
        }
        assert(self.operations.val_seq().take(n as int) =~= self.operations.val_seq());
        (n as u64) * 1024 + kept * 16
    }
}

proof fn lemma_kept_prefix_bound(s: Seq<OperationStats>, i: int)
    requires
        0 <= i <= s.len(),
    ensures
        0 <= kept_durations(s.take(i)) <= kept_durations(s),
    decreases s.len(),
{
    if i == s.len() {
        assert(s.take(i) =~= s);
        lemma_kept_nonneg(s);
    } else {
        assert(s.drop_last().take(i) =~= s.take(i));
        lemma_kept_prefix_bound(s.drop_last(), i);
    }
}

proof fn lemma_kept_window_bound(s: Seq<OperationStats>)
    requires
        forall|i: int| 0 <= i < s.len() ==> #[trigger] s[i].wf(),
    ensures
        0 <= kept_durations(s) <= 10000 * s.len(),
    decreases s.len(),
{
    if s.len() > 0 {
        lemma_kept_window_bound(s.drop_last());
        assert(s.last().wf());
    }
}

proof fn lemma_kept_nonneg(s: Seq<OperationStats>)
    ensures
        kept_durations(s) >= 0,
    decreases s.len(),
{
    if s.len() > 0 {
        lemma_kept_nonneg(s.drop_last());
    }
}

} // verus!
