//! Request counters and timings, overall and per API.

use vstd::prelude::*;
use crate::time::Duration;
use crate::strmap::StrMap;
use super::collector::value_or;

verus! {

/// Counters of one API.
#[derive(Debug, Clone, Copy, PartialEq, Eq, Structural)]
pub struct ApiMetrics {
    pub requests: u64,
    pub successes: u64,
    pub failures: u64,
    pub total_time_ms: u64,
    pub min_time_ms: u64,
    pub max_time_ms: u64,
    pub cache_hits: u64,
    pub cache_misses: u64,
}

/// Counters of an API not seen before.
pub open spec fn fresh_api_metrics() -> ApiMetrics {
    ApiMetrics {
        requests: 0,
        successes: 0,
        failures: 0,
        total_time_ms: 0,
        min_time_ms: 0,
        max_time_ms: 0,
        cache_hits: 0,
        cache_misses: 0,
    }
}

/// Whole milliseconds of a span, cut to 64 bits.
pub open spec fn millis_u64(d: Duration) -> u64 {
    ((d@ / 1_000_000) % 0x1_0000_0000_0000_0000) as u64
}

/// Per-API counters after a successful request taking `ms` milliseconds.
pub open spec fn api_after_success(m: ApiMetrics, ms: u64) -> ApiMetrics {
    ApiMetrics {
        requests: (m.requests + 1) as u64,
        successes: (m.successes + 1) as u64,
        total_time_ms: (m.total_time_ms + ms) as u64,
        min_time_ms: if m.min_time_ms == 0 { ms } else if m.min_time_ms <= ms { m.min_time_ms } else { ms },
        max_time_ms: if m.max_time_ms >= ms { m.max_time_ms } else { ms },
        ..m
    }
}

/// Per-API counters after a failed request taking `ms` milliseconds.
pub open spec fn api_after_failure(m: ApiMetrics, ms: u64) -> ApiMetrics {
    ApiMetrics {
        requests: (m.requests + 1) as u64,
        failures: (m.failures + 1) as u64,
        total_time_ms: (m.total_time_ms + ms) as u64,
        ..m
    }
}

/// Overall and per-API request, timing, memory and cache counters. The
/// overall counters wrap around on overflow; the per-API ones must not overflow.
#[derive(Debug)]
pub struct PerformanceMetrics {
    pub total_requests: u64,
    pub successful_requests: u64,
    pub failed_requests: u64,
    pub total_request_time_ms: u64,
    pub min_request_time_ms: u64,
    pub max_request_time_ms: u64,
    pub peak_memory_usage: usize,
    pub current_memory_usage: usize,
    pub cache_hits: u64,
    pub cache_misses: u64,
    pub api_metrics: StrMap<ApiMetrics>,
}

impl PerformanceMetrics {
    /// Counters per API name.
    pub open spec fn apis(self) -> Map<Seq<char>, ApiMetrics> {
        self.api_metrics.map_view()
    }

    /// Internal consistency.
    pub open spec fn wf(self) -> bool {
        self.api_metrics.wf()
    }

    /// All counters zero and no API known.
    pub open spec fn is_cleared(self) -> bool {
        &&& self.total_requests == 0
        &&& self.successful_requests == 0
        &&& self.failed_requests == 0
        &&& self.total_request_time_ms == 0
        &&& self.min_request_time_ms == 0
        &&& self.max_request_time_ms == 0
        &&& self.peak_memory_usage == 0
        &&& self.current_memory_usage == 0
        &&& self.cache_hits == 0
        &&& self.cache_misses == 0
        &&& self.apis() == Map::<Seq<char>, ApiMetrics>::empty()
    }

    /// A collector with every counter at zero.
    pub fn new() -> (res: Self)
        ensures
            res.wf(),
            res.is_cleared(),
    {
        let res = PerformanceMetrics {
            total_requests: 0,
            successful_requests: 0,
            failed_requests: 0,
            total_request_time_ms: 0,
            min_request_time_ms: 0,
            max_request_time_ms: 0,
            peak_memory_usage: 0,
            current_memory_usage: 0,
            cache_hits: 0,
            cache_misses: 0,
            api_metrics: StrMap::new(),
        };
        assert(res.apis() =~= Map::<Seq<char>, ApiMetrics>::empty());
        res
    }

    fn api_entry(&mut self, api_name: &str) -> (res: usize)
        requires
            old(self).wf(),
        ensures
            final(self).wf(),
            res < final(self).api_metrics.key_seq().len(),
            final(self).api_metrics.key_seq()[res as int] == api_name@,
            final(self).api_metrics.val_seq()[res as int] == value_or(old(self).apis(), api_name@, fresh_api_metrics()),
            final(self).apis() == old(self).apis().insert(api_name@, value_or(old(self).apis(), api_name@, fresh_api_metrics())),
            final(self).total_requests == old(self).total_requests,
            final(self).successful_requests == old(self).successful_requests,
            final(self).failed_requests == old(self).failed_requests,
            final(self).total_request_time_ms == old(self).total_request_time_ms,
            final(self).min_request_time_ms == old(self).min_request_time_ms,
            final(self).max_request_time_ms == old(self).max_request_time_ms,
            final(self).peak_memory_usage == old(self).peak_memory_usage,
            final(self).current_memory_usage == old(self).current_memory_usage,
            final(self).cache_hits == old(self).cache_hits,
            final(self).cache_misses == old(self).cache_misses,
    {
        match self.api_metrics.find(api_name) {
            Some(i) => {
                proof { crate::strmap::lemma_index_of_unique(self.api_metrics.key_seq(), i as int); }
                assert(self.apis() =~= old(self).apis().insert(api_name@, value_or(old(self).apis(), api_name@, fresh_api_metrics())));
                i
            }
            None => {
                let fresh = ApiMetrics {
                    requests: 0,
                    successes: 0,
                    failures: 0,
                    total_time_ms: 0,
                    min_time_ms: 0,
                    max_time_ms: 0,
                    cache_hits: 0,
                    cache_misses: 0,
                };
                self.api_metrics.insert(api_name, fresh);
                proof {
                    crate::strmap::lemma_index_of_unique(self.api_metrics.key_seq(), (self.api_metrics.key_seq().len() - 1) as int);
                }
                self.api_metrics.len() - 1
            }
        }
    }

    /// Records a successful request: the overall counters grow (wrapping),
    /// the overall minimum and maximum time follow, and the API's counters
    /// record the request.
    pub fn record_request_success(&mut self, api_name: &str, duration: Duration)
        requires
            old(self).wf(),
            value_or(old(self).apis(), api_name@, fresh_api_metrics()).requests < u64::MAX,
            value_or(old(self).apis(), api_name@, fresh_api_metrics()).successes < u64::MAX,
            value_or(old(self).apis(), api_name@, fresh_api_metrics()).total_time_ms + millis_u64(duration) <= u64::MAX,
        ensures
            final(self).wf(),
            final(self).total_requests == (old(self).total_requests + 1) % 0x1_0000_0000_0000_0000,
            final(self).successful_requests == (old(self).successful_requests + 1) % 0x1_0000_0000_0000_0000,
            final(self).failed_requests == old(self).failed_requests,
            final(self).total_request_time_ms == (old(self).total_request_time_ms + millis_u64(duration)) % 0x1_0000_0000_0000_0000,
            final(self).min_request_time_ms == if old(self).min_request_time_ms == 0 || millis_u64(duration) < old(self).min_request_time_ms {
                millis_u64(duration) } else { old(self).min_request_time_ms },
            final(self).max_request_time_ms == if millis_u64(duration) > old(self).max_request_time_ms {
                millis_u64(duration) } else { old(self).max_request_time_ms },
            final(self).apis() == old(self).apis().insert(api_name@,
                api_after_success(value_or(old(self).apis(), api_name@, fresh_api_metrics()), millis_u64(duration))),
            final(self).cache_hits == old(self).cache_hits,
            final(self).cache_misses == old(self).cache_misses,
            final(self).peak_memory_usage == old(self).peak_memory_usage,
            final(self).current_memory_usage == old(self).current_memory_usage,
    {
        let ms = (duration.as_millis() % 0x1_0000_0000_0000_0000) as u64;
        self.total_requests = self.total_requests.wrapping_add(1);
        self.successful_requests = self.successful_requests.wrapping_add(1);
        self.total_request_time_ms = self.total_request_time_ms.wrapping_add(ms);
        self.update_min_time(ms);
        self.update_max_time(ms);
        let i = self.api_entry(api_name);
        let mut m = *self.api_metrics.value_at(i);
        m.requests = m.requests + 1;
        m.successes = m.successes + 1;
        m.total_time_ms = m.total_time_ms + ms;
        m.min_time_ms = if m.min_time_ms == 0 { ms } else if m.min_time_ms <= ms { m.min_time_ms } else { ms };
        m.max_time_ms = if m.max_time_ms >= ms { m.max_time_ms } else { ms };
        self.api_metrics.set_value(i, m);
    }

    /// Records a failed request: the overall request, failure and time
    /// counters grow (wrapping) and the API's counters record the failure.
    pub fn record_request_failure(&mut self, api_name: &str, duration: Duration)
        requires
            old(self).wf(),
            value_or(old(self).apis(), api_name@, fresh_api_metrics()).requests < u64::MAX,
            value_or(old(self).apis(), api_name@, fresh_api_metrics()).failures < u64::MAX,
            value_or(old(self).apis(), api_name@, fresh_api_metrics()).total_time_ms + millis_u64(duration) <= u64::MAX,
        ensures
            final(self).wf(),
            final(self).total_requests == (old(self).total_requests + 1) % 0x1_0000_0000_0000_0000,
            final(self).successful_requests == old(self).successful_requests,
            final(self).failed_requests == (old(self).failed_requests + 1) % 0x1_0000_0000_0000_0000,
            final(self).total_request_time_ms == (old(self).total_request_time_ms + millis_u64(duration)) % 0x1_0000_0000_0000_0000,
            final(self).min_request_time_ms == old(self).min_request_time_ms,
            final(self).max_request_time_ms == old(self).max_request_time_ms,
            final(self).apis() == old(self).apis().insert(api_name@,
                api_after_failure(value_or(old(self).apis(), api_name@, fresh_api_metrics()), millis_u64(duration))),
            final(self).cache_hits == old(self).cache_hits,
            final(self).cache_misses == old(self).cache_misses,
            final(self).peak_memory_usage == old(self).peak_memory_usage,
            final(self).current_memory_usage == old(self).current_memory_usage,
    {
        let ms = (duration.as_millis() % 0x1_0000_0000_0000_0000) as u64;
        self.total_requests = self.total_requests.wrapping_add(1);
        self.failed_requests = self.failed_requests.wrapping_add(1);
        self.total_request_time_ms = self.total_request_time_ms.wrapping_add(ms);
        let i = self.api_entry(api_name);
        let mut m = *self.api_metrics.value_at(i);
        m.requests = m.requests + 1;
        m.failures = m.failures + 1;
        m.total_time_ms = m.total_time_ms + ms;
        self.api_metrics.set_value(i, m);
    }

    /// Records a cache hit overall (wrapping) and for the API.
    pub fn record_cache_hit(&mut self, api_name: &str)
        requires
            old(self).wf(),
            value_or(old(self).apis(), api_name@, fresh_api_metrics()).cache_hits < u64::MAX,
        ensures
            final(self).wf(),
            final(self).cache_hits == (old(self).cache_hits + 1) % 0x1_0000_0000_0000_0000,
            final(self).cache_misses == old(self).cache_misses,
            final(self).apis() == old(self).apis().insert(api_name@, ApiMetrics {
                cache_hits: (value_or(old(self).apis(), api_name@, fresh_api_metrics()).cache_hits + 1) as u64,
                ..value_or(old(self).apis(), api_name@, fresh_api_metrics())
            }),
            final(self).total_requests == old(self).total_requests,
            final(self).successful_requests == old(self).successful_requests,
            final(self).failed_requests == old(self).failed_requests,
            final(self).total_request_time_ms == old(self).total_request_time_ms,
            final(self).min_request_time_ms == old(self).min_request_time_ms,
            final(self).max_request_time_ms == old(self).max_request_time_ms,
            final(self).peak_memory_usage == old(self).peak_memory_usage,
            final(self).current_memory_usage == old(self).current_memory_usage,
    {
        self.cache_hits = self.cache_hits.wrapping_add(1);
        let i = self.api_entry(api_name);
        let mut m = *self.api_metrics.value_at(i);
        m.cache_hits = m.cache_hits + 1;
        self.api_metrics.set_value(i, m);
    }

    /// Records a cache miss overall (wrapping) and for the API.
    pub fn record_cache_miss(&mut self, api_name: &str)
        requires
            old(self).wf(),
            value_or(old(self).apis(), api_name@, fresh_api_metrics()).cache_misses < u64::MAX,
        ensures
            final(self).wf(),
            final(self).cache_misses == (old(self).cache_misses + 1) % 0x1_0000_0000_0000_0000,
            final(self).cache_hits == old(self).cache_hits,
            final(self).apis() == old(self).apis().insert(api_name@, ApiMetrics {
                cache_misses: (value_or(old(self).apis(), api_name@, fresh_api_metrics()).cache_misses + 1) as u64,
                ..value_or(old(self).apis(), api_name@, fresh_api_metrics())
            }),
            final(self).total_requests == old(self).total_requests,
            final(self).successful_requests == old(self).successful_requests,
            final(self).failed_requests == old(self).failed_requests,
            final(self).total_request_time_ms == old(self).total_request_time_ms,
            final(self).min_request_time_ms == old(self).min_request_time_ms,
            final(self).max_request_time_ms == old(self).max_request_time_ms,
            final(self).peak_memory_usage == old(self).peak_memory_usage,
            final(self).current_memory_usage == old(self).current_memory_usage,
    {
        self.cache_misses = self.cache_misses.wrapping_add(1);
        let i = self.api_entry(api_name);
        let mut m = *self.api_metrics.value_at(i);
        m.cache_misses = m.cache_misses + 1;
        self.api_metrics.set_value(i, m);
    }

    /// Sets the current memory figure; the peak keeps the largest seen.
    pub fn update_memory_usage(&mut self, current: usize)
        ensures
            final(self).current_memory_usage == current,
            final(self).peak_memory_usage == if current > old(self).peak_memory_usage { current } else { old(self).peak_memory_usage },
            final(self).api_metrics == old(self).api_metrics,
            final(self).total_requests == old(self).total_requests,
            final(self).successful_requests == old(self).successful_requests,
            final(self).failed_requests == old(self).failed_requests,
            final(self).total_request_time_ms == old(self).total_request_time_ms,
            final(self).min_request_time_ms == old(self).min_request_time_ms,
            final(self).max_request_time_ms == old(self).max_request_time_ms,
            final(self).cache_hits == old(self).cache_hits,
            final(self).cache_misses == old(self).cache_misses,
    {
        self.current_memory_usage = current;
        let current_peak = self.peak_memory_usage;
        if current > current_peak {
            self.peak_memory_usage = current;
        }
    }

    /// Sets every counter back to zero and forgets all APIs.
    pub fn reset(&mut self)
        requires
            old(self).wf(),
        ensures
            final(self).wf(),
            final(self).is_cleared(),
    {
        self.total_requests = 0;
        self.successful_requests = 0;
        self.failed_requests = 0;
        self.total_request_time_ms = 0;
        self.min_request_time_ms = 0;
        self.max_request_time_ms = 0;
        self.cache_hits = 0;
        self.cache_misses = 0;
        self.peak_memory_usage = 0;
        self.current_memory_usage = 0;
        self.api_metrics.clear();
        assert(self.apis() =~= Map::<Seq<char>, ApiMetrics>::empty());
    }

    /// Lowers the minimum time when the new time is smaller, or when no
    /// minimum (zero) is recorded yet.
    pub fn update_min_time(&mut self, duration_ms: u64)
        ensures
            final(self).min_request_time_ms == if old(self).min_request_time_ms == 0 || duration_ms < old(self).min_request_time_ms {
                duration_ms } else { old(self).min_request_time_ms },
            final(self).api_metrics == old(self).api_metrics,
            final(self).max_request_time_ms == old(self).max_request_time_ms,
            final(self).total_requests == old(self).total_requests,
            final(self).successful_requests == old(self).successful_requests,
            final(self).failed_requests == old(self).failed_requests,
            final(self).total_request_time_ms == old(self).total_request_time_ms,
            final(self).cache_hits == old(self).cache_hits,
            final(self).cache_misses == old(self).cache_misses,
            final(self).peak_memory_usage == old(self).peak_memory_usage,
            final(self).current_memory_usage == old(self).current_memory_usage,
    {
        let current = self.min_request_time_ms;
        if current == 0 || duration_ms < current {
            self.min_request_time_ms = duration_ms;
        }
    }

    /// Raises the maximum time when the new time is larger.
    pub fn update_max_time(&mut self, duration_ms: u64)
        ensures
            final(self).max_request_time_ms == if duration_ms > old(self).max_request_time_ms {
                duration_ms } else { old(self).max_request_time_ms },
            final(self).api_metrics == old(self).api_metrics,
            final(self).min_request_time_ms == old(self).min_request_time_ms,
            final(self).total_requests == old(self).total_requests,
            final(self).successful_requests == old(self).successful_requests,
            final(self).failed_requests == old(self).failed_requests,
            final(self).total_request_time_ms == old(self).total_request_time_ms,
            final(self).cache_hits == old(self).cache_hits,
            final(self).cache_misses == old(self).cache_misses,
            final(self).peak_memory_usage == old(self).peak_memory_usage,
            final(self).current_memory_usage == old(self).current_memory_usage,
    {
        let current = self.max_request_time_ms;
        if duration_ms > current {
            self.max_request_time_ms = duration_ms;
        }
    }

    /// The counters of one API, if it was seen.
    pub fn get_api_metrics(&self, api_name: &str) -> (res: Option<ApiMetrics>)
        requires
            self.wf(),
        ensures
            res is Some <==> self.apis().dom().contains(api_name@),
            res matches Some(m) ==> m == self.apis()[api_name@],
    {
        match self.api_metrics.get(api_name) {
            Some(m) => Some(*m),
            None => None,
        }
    }

    /// Average request time in whole milliseconds, zero before any request.
    pub fn avg_response_time_ms(&self) -> (res: u64)
        ensures
            res == if self.total_requests > 0 { self.total_request_time_ms / self.total_requests } else { 0 },
    {
        if self.total_requests > 0 { self.total_request_time_ms / self.total_requests } else { 0 }
    }
}

} // verus!
