use warp::api::nlic::{record_search_end, search_end_fits, NlicSearchEnd};
use warp::metrics::{MetricsCollector, MetricsWindow, OperationStats, PerformanceMetrics};
use warp::time::Duration;

#[test]
fn test_operation_stats_success() {
    let mut stats = OperationStats::default();
    stats.add_success(Duration::from_millis(100));
    stats.add_success(Duration::from_millis(200));

    assert_eq!(stats.total_requests, 2);
    assert_eq!(stats.successful_requests, 2);
    assert_eq!(stats.failed_requests, 0);
}

#[test]
fn test_operation_stats_failure() {
    let mut stats = OperationStats::default();
    stats.add_failure(Duration::from_millis(50));

    assert_eq!(stats.total_requests, 1);
    assert_eq!(stats.successful_requests, 0);
    assert_eq!(stats.failed_requests, 1);
}

#[test]
fn test_percentile_calculation() {
    let mut stats = OperationStats::default();
    for ms in [100, 200, 300, 400, 500, 600, 700, 800, 900, 1000] {
        stats.add_duration(Duration::from_millis(ms));
    }

    let (p50, p95, _p99) = stats.calculate_percentiles();

    assert!(p50 >= Duration::from_millis(400) && p50 <= Duration::from_millis(600));
    assert!(p95 >= Duration::from_millis(900) && p95 <= Duration::from_millis(1000));
}

#[test]
fn percentiles_of_ten_samples_are_exact() {
    let mut stats = OperationStats::default();
    for ms in [1000, 100, 900, 200, 800, 300, 700, 400, 600, 500] {
        stats.add_duration(Duration::from_millis(ms));
    }
    let (p50, p95, p99) = stats.calculate_percentiles();
    assert_eq!(p50, Duration::from_millis(500));
    assert_eq!(p95, Duration::from_millis(900));
    assert_eq!(p99, Duration::from_millis(900));
}

#[test]
fn percentiles_of_nothing_are_zero() {
    let stats = OperationStats::default();
    let (p50, p95, p99) = stats.calculate_percentiles();
    assert_eq!(p50, Duration::zero());
    assert_eq!(p95, Duration::zero());
    assert_eq!(p99, Duration::zero());
}

#[test]
fn operation_metrics_average_min_max() {
    let mut stats = OperationStats::default();
    stats.add_success(Duration::from_millis(100));
    stats.add_failure(Duration::from_millis(300));
    let m = stats.to_operation_metrics();
    assert_eq!(m.total_requests, 2);
    assert_eq!(m.avg_duration, Duration::from_millis(200));
    assert_eq!(m.min_duration, Duration::from_millis(100));
    assert_eq!(m.max_duration, Duration::from_millis(300));
    assert_eq!(m.total_duration, Duration::from_millis(400));
}

#[test]
fn collector_counts_requests_and_cache() {
    let mut c = MetricsCollector::new();
    c.record_request_success("test_op", Duration::from_millis(100));
    c.record_request_failure("test_op", Duration::from_millis(200));
    c.record_cache_hit("test_api");
    c.record_cache_hit("test_api");
    c.record_cache_miss("test_api");

    let op = c.get_operation_metrics("test_op").unwrap();
    assert_eq!(op.total_requests, 2);
    assert_eq!(op.successful_requests, 1);
    assert_eq!(op.failed_requests, 1);
    assert_eq!(op.total_requests, op.successful_requests + op.failed_requests);

    let cache = c.get_cache_metrics("test_api").unwrap();
    assert_eq!(cache.hits, 2);
    assert_eq!(cache.misses, 1);
    assert!(c.get_operation_metrics("other").is_none());

    c.reset();
    assert!(c.get_operation_metrics("test_op").is_none());
    assert!(c.get_cache_metrics("test_api").is_none());
}

#[test]
fn top_operations_by_request_count() {
    let mut c = MetricsCollector::new();
    c.record_request_success("a", Duration::from_millis(10));
    c.record_request_success("b", Duration::from_millis(10));
    c.record_request_success("b", Duration::from_millis(10));
    c.record_request_success("c", Duration::from_millis(500));
    let top = c.get_top_operations(2);
    assert_eq!(top.len(), 2);
    assert_eq!(top[0].0, "b");
    let slow = c.get_slowest_operations(1);
    assert_eq!(slow.len(), 1);
    assert_eq!(slow[0].0, "c");
}

#[test]
fn snapshot_holds_every_operation_and_cache() {
    let mut collector = MetricsCollector::new();
    collector.record_request_success("test_op", Duration::from_millis(100));
    collector.record_request_failure("test_op", Duration::from_millis(200));
    collector.record_request_success("other_op", Duration::from_millis(50));
    collector.record_cache_hit("test_api");
    collector.record_cache_miss("test_api");
    collector.update_connection_pool("pool", 2, 3, 5);

    let snapshot = collector.get_snapshot(77, Duration::from_secs(9));
    assert_eq!(snapshot.timestamp, 77);
    assert_eq!(snapshot.uptime, Duration::from_secs(9));
    assert_eq!(snapshot.memory_usage, collector.get_memory_usage());
    assert_eq!(snapshot.memory_usage, 2 * 1024 + 3 * 16);

    assert_eq!(snapshot.operations.len(), 2);
    assert_eq!(snapshot.operations.key_at(0), "test_op");
    assert_eq!(snapshot.operations.key_at(1), "other_op");
    let op = snapshot.operations.get("test_op").unwrap();
    assert_eq!(op.total_requests, 2);
    assert_eq!(op.successful_requests, 1);
    assert_eq!(op.failed_requests, 1);

    let cache = snapshot.cache.get("test_api").unwrap();
    assert_eq!(cache.hits, 1);
    assert_eq!(cache.misses, 1);
    assert!(snapshot.cache.get("nope").is_none());
    assert_eq!(snapshot.connection_pools.get("pool").unwrap().total_connections, 5);

    let windowed = collector.get_windowed_metrics(MetricsWindow::LastHour, 78, Duration::from_secs(10));
    assert_eq!(windowed.timestamp, 78);
    assert_eq!(windowed.operations.len(), 2);
}

#[test]
fn nlic_search_ends_are_timed_as_the_client_does() {
    let mut c = MetricsCollector::new();
    assert!(search_end_fits(&c, NlicSearchEnd::NoApiKey, Duration::from_millis(1)));
    record_search_end(&mut c, NlicSearchEnd::NoApiKey, Duration::from_millis(1));
    let m = c.get_operation_metrics("nlic_search").unwrap();
    assert_eq!((m.total_requests, m.successful_requests, m.failed_requests), (1, 0, 1));
    assert!(c.get_cache_metrics("nlic").is_none());

    record_search_end(&mut c, NlicSearchEnd::CacheHit, Duration::from_millis(2));
    record_search_end(&mut c, NlicSearchEnd::Fetched, Duration::from_millis(3));
    record_search_end(&mut c, NlicSearchEnd::Rejected, Duration::from_millis(4));
    record_search_end(&mut c, NlicSearchEnd::FetchFailed, Duration::from_millis(5));
    record_search_end(&mut c, NlicSearchEnd::CacheFailed, Duration::from_millis(6));
    let m = c.get_operation_metrics("nlic_search").unwrap();
    assert_eq!((m.total_requests, m.successful_requests, m.failed_requests), (4, 2, 2));
    assert_eq!(m.max_duration, Duration::from_millis(4));
    let cache = c.get_cache_metrics("nlic").unwrap();
    assert_eq!((cache.hits, cache.misses), (1, 3));
}

#[test]
fn test_metrics_recording() {
    let mut metrics = PerformanceMetrics::new();

    metrics.record_request_success("test_api", Duration::from_millis(100));
    metrics.record_request_failure("test_api", Duration::from_millis(200));
    metrics.record_cache_hit("test_api");
    metrics.record_cache_miss("test_api");

    assert_eq!(metrics.total_requests, 2);
    assert_eq!(metrics.successful_requests, 1);
    assert_eq!(metrics.failed_requests, 1);
    let success_rate = metrics.successful_requests as f64 / metrics.total_requests as f64 * 100.0;
    let cache_hit_rate = metrics.cache_hits as f64 / (metrics.cache_hits + metrics.cache_misses) as f64 * 100.0;
    assert_eq!(success_rate, 50.0);
    assert_eq!(cache_hit_rate, 50.0);
    assert_eq!(metrics.avg_response_time_ms(), 150);
    assert_eq!(metrics.min_request_time_ms, 100);
    assert_eq!(metrics.max_request_time_ms, 100);
    metrics.update_memory_usage(10);
    metrics.update_memory_usage(4);
    assert_eq!((metrics.current_memory_usage, metrics.peak_memory_usage), (4, 10));
    assert_eq!(metrics.total_requests, 2);
    assert_eq!(metrics.cache_misses, 1);
}
