//! Performance bookkeeping: per-operation request statistics with latency
//! percentiles, cache hit/miss counters and connection pool gauges.

pub mod collector;
pub mod dashboard;
pub mod performance;

use vstd::prelude::*;
use crate::time::Duration;
use crate::strmap::StrMap;

pub use collector::{MetricsCollector, OperationStats};
use collector::{can_record, value_or, fresh_stats, model_add_success, model_add_failure};
pub use performance::{PerformanceMetrics, ApiMetrics};

verus! {

/// Metrics of one operation, as reported.
#[derive(Debug, Clone, Copy)]
pub struct OperationMetrics {
    pub total_requests: u64,
    pub successful_requests: u64,
    pub failed_requests: u64,
    pub total_duration: Duration,
    pub min_duration: Duration,
    pub max_duration: Duration,
    pub avg_duration: Duration,
    pub p50_duration: Duration,
    pub p95_duration: Duration,
    pub p99_duration: Duration,
}

impl OperationMetrics {
    /// No requests: counters zero, minimum at the longest span, the rest zero.
    pub fn default() -> (res: OperationMetrics)
        ensures
            res.total_requests == 0,
            res.successful_requests == 0,
            res.failed_requests == 0,
            res.total_duration@ == 0,
            res.min_duration@ == crate::time::max_nanos(),
            res.max_duration@ == 0,
            res.avg_duration@ == 0,
            res.p50_duration@ == 0,
            res.p95_duration@ == 0,
            res.p99_duration@ == 0,
    {
        OperationMetrics {
            total_requests: 0,
            successful_requests: 0,
            failed_requests: 0,
            total_duration: Duration::zero(),
            min_duration: Duration::max_value(),
            max_duration: Duration::zero(),
            avg_duration: Duration::zero(),
            p50_duration: Duration::zero(),
            p95_duration: Duration::zero(),
            p99_duration: Duration::zero(),
        }
    }
}

/// Cache counters of one API.
#[derive(Debug, Clone, Copy, PartialEq, Eq, Structural)]
pub struct CacheMetrics {
    pub hits: u64,
    pub misses: u64,
    pub evictions: u64,
    pub storage_size: u64,
    pub entry_count: u64,
}

impl CacheMetrics {
    /// All counters zero.
    pub fn default() -> (res: CacheMetrics)
        ensures
            res == (CacheMetrics { hits: 0, misses: 0, evictions: 0, storage_size: 0, entry_count: 0 }),
    {
        CacheMetrics { hits: 0, misses: 0, evictions: 0, storage_size: 0, entry_count: 0 }
    }
}

/// Connection pool gauges and counters of one pool.
#[derive(Debug, Clone, Copy, PartialEq, Eq, Structural)]
pub struct ConnectionPoolMetrics {
    pub active_connections: u32,
    pub idle_connections: u32,
    pub total_connections: u32,
    pub connection_acquires: u64,
    pub connection_timeouts: u64,
    pub connection_errors: u64,
}

impl ConnectionPoolMetrics {
    /// All gauges and counters zero.
    pub fn default() -> (res: ConnectionPoolMetrics)
        ensures
            res == (ConnectionPoolMetrics {
                active_connections: 0,
                idle_connections: 0,
                total_connections: 0,
                connection_acquires: 0,
                connection_timeouts: 0,
                connection_errors: 0,
            }),
    {
        ConnectionPoolMetrics {
            active_connections: 0,
            idle_connections: 0,
            total_connections: 0,
            connection_acquires: 0,
            connection_timeouts: 0,
            connection_errors: 0,
        }
    }
}

/// Aggregation windows for metrics.
#[derive(Debug, Clone, Copy, PartialEq, Eq, Structural)]
pub enum MetricsWindow {
    LastMinute,
    Last5Minutes,
    Last15Minutes,
    LastHour,
    Last24Hours,
}

/// Length of a window in seconds.
pub open spec fn window_secs(w: MetricsWindow) -> int {
    match w {
        MetricsWindow::LastMinute => 60,
        MetricsWindow::Last5Minutes => 300,
        MetricsWindow::Last15Minutes => 900,
        MetricsWindow::LastHour => 3600,
        MetricsWindow::Last24Hours => 86400,
    }
}

impl MetricsWindow {
    /// The length of the window.
    pub fn duration(&self) -> (res: Duration)
        ensures
            res@ == window_secs(*self) * crate::time::nanos_per_sec(),
    {
        match self {
            MetricsWindow::LastMinute => Duration::from_secs(60),
            MetricsWindow::Last5Minutes => Duration::from_secs(300),
            MetricsWindow::Last15Minutes => Duration::from_secs(900),
            MetricsWindow::LastHour => Duration::from_secs(3600),
            MetricsWindow::Last24Hours => Duration::from_secs(86400),
        }
    }
}

/// All metrics at one moment.
#[derive(Debug, Clone)]
pub struct MetricsSnapshot {
    /// The monotonic clock reading, in nanoseconds, when it was taken
    pub timestamp: u64,
    /// The report of each operation
    pub operations: StrMap<OperationMetrics>,
    /// The metrics of each API's cache
    pub cache: StrMap<CacheMetrics>,
    /// The metrics of each connection pool
    pub connection_pools: StrMap<ConnectionPoolMetrics>,
    /// Approximate memory held by the collector, in bytes
    pub memory_usage: u64,
    /// How long the collector has been running
    pub uptime: Duration,
}

/// Times one operation against a monotonic clock read in nanoseconds.
#[derive(Debug)]
pub struct OperationTimer {
    pub operation: String,
    pub start_time: u64,
}

/// Time from `start` to `now`; a reading that lies ahead counts as none.
pub open spec fn elapsed_nanos(now: u64, start: u64) -> int {
    if now >= start { now - start } else { 0 }
}

impl OperationTimer {
    /// Starts timing an operation at `now`.
    pub fn start(operation: String, now: u64) -> (res: OperationTimer)
        ensures
            res.operation == operation,
            res.start_time == now,
    {
        OperationTimer { operation, start_time: now }
    }

    /// Time elapsed since the start.
    pub fn elapsed(&self, now: u64) -> (res: Duration)
        ensures
            res@ == elapsed_nanos(now, self.start_time),
    {
        let nanos: u64 = if now >= self.start_time { now - self.start_time } else { 0 };
        Duration::from_nanos(nanos)
    }

    /// Ends the timing of a successful request and records it.
    pub fn finish_success(self, collector: &mut MetricsCollector, now: u64)
        requires
            old(collector).wf(),
            can_record(value_or(old(collector).ops(), self.operation@, fresh_stats()), elapsed_nanos(now, self.start_time)),
        ensures
            final(collector).wf(),
            final(collector).ops() == old(collector).ops().insert(self.operation@,
                model_add_success(value_or(old(collector).ops(), self.operation@, fresh_stats()), elapsed_nanos(now, self.start_time))),
            final(collector).caches() == old(collector).caches(),
            final(collector).pools() == old(collector).pools(),
    {
        let duration = self.elapsed(now);
        collector.record_request_success(self.operation.as_str(), duration);
    }

    /// Ends the timing of a failed request and records it.
    pub fn finish_failure(self, collector: &mut MetricsCollector, now: u64)
        requires
            old(collector).wf(),
            can_record(value_or(old(collector).ops(), self.operation@, fresh_stats()), elapsed_nanos(now, self.start_time)),
        ensures
            final(collector).wf(),
            final(collector).ops() == old(collector).ops().insert(self.operation@,
                model_add_failure(value_or(old(collector).ops(), self.operation@, fresh_stats()), elapsed_nanos(now, self.start_time))),
            final(collector).caches() == old(collector).caches(),
            final(collector).pools() == old(collector).pools(),
    {
        let duration = self.elapsed(now);
        collector.record_request_failure(self.operation.as_str(), duration);
    }
}

} // verus!
