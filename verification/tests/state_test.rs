use warp::api::client::{ClientConfig, LegalClient, page_offset};
use warp::api::nlic::NlicClient;
use warp::api::pool::{PoolError, PoolStats};
use warp::api::streaming::{PageStep, SearchResultStream, StreamConfig};
use warp::api::types::{LawDetail, LawHistory, SearchItem, SearchResponse, UnifiedSearchRequest};
use warp::api::ApiType;
use warp::cache::tiered::{should_cache_in_l1, L1CacheConfig, TierLookup, TieredCacheConfig, TieredCacheStats};
use warp::cache::{select_lru_victims, CacheConfig as StoreConfig};
use warp::cli::commands::{history_time_range, matches_api_filter, parse_percentiles};
use warp::cli::parse::parse_u64;
use warp::cli::shell_detect::{detect_from_environment, detect_from_path, get_completion_shell, is_affirmative, CompletionShell, DetectedShell};
use warp::cli::OutputFormat;
use warp::config::CacheConfig;
use warp::error::WarpError;
use warp::metrics::dashboard::{format_bytes, format_duration};
use warp::metrics::{MetricsCollector, OperationTimer};
use warp::output::formatter::{escape_html, truncate_string};
use warp::output::{format_law_detail, format_law_history, format_search_response};
use warp::strmap::StrMap;
use warp::text::dec_string;
use warp::time::Duration;

fn item(title: &str) -> SearchItem {
    SearchItem {
        id: "1".to_string(),
        title: title.to_string(),
        law_no: None,
        law_type: None,
        department: None,
        enforcement_date: None,
        revision_date: None,
        summary: None,
        source: "test".to_string(),
        metadata: StrMap::new(),
    }
}

fn page(items: Vec<SearchItem>, total: u32) -> SearchResponse {
    SearchResponse { total_count: total, page_no: 1, page_size: 2, items, source: "test".to_string(), timestamp: 0 }
}

#[test]
fn stream_pages_until_the_total_is_fetched() {
    let client = LegalClient::Nlic(NlicClient::new(ClientConfig::default()));
    let request = UnifiedSearchRequest { query: "민법".to_string(), ..Default::default() };
    let config = StreamConfig { page_size: 2, ..StreamConfig::default() };
    let mut stream = SearchResultStream::new(client, request, config);
    assert_eq!(stream.base_request.page_size, 2);
    let first = stream.next_request().unwrap();
    assert_eq!(first.page_no, 1);
    assert_eq!(first.page_size, 2);
    assert_eq!(first.query, "민법");
    assert!(matches!(stream.record_page(Ok(page(vec![item("a"), item("b")], 3))), PageStep::Page(_)));
    let s = stream.get_stats();
    assert_eq!((s.current_page, s.items_fetched, s.total_count, s.finished), (2, 2, Some(3), false));
    assert!(stream.should_pause());
    assert_eq!(stream.next_request().unwrap().page_no, 2);
    assert!(matches!(stream.record_page(Ok(page(vec![item("c")], 3))), PageStep::Page(_)));
    assert!(stream.get_stats().finished);
    assert!(stream.next_request().is_none());
}

#[test]
fn stream_ends_on_empty_page_or_error_or_limit() {
    let client = LegalClient::Nlic(NlicClient::new(ClientConfig::default()));
    let mut s1 = SearchResultStream::new(client.clone(), UnifiedSearchRequest::default(), StreamConfig::default());
    assert!(matches!(s1.record_page(Ok(page(vec![], 0))), PageStep::End));
    assert!(s1.get_stats().finished);
    let mut s2 = SearchResultStream::new(client.clone(), UnifiedSearchRequest::default(), StreamConfig::default());
    assert!(matches!(s2.record_page(Err(WarpError::RateLimit)), PageStep::Failed(WarpError::RateLimit)));
    assert!(s2.next_request().is_none());
    let limited = StreamConfig { max_items: 1, page_size: 2, ..StreamConfig::default() };
    let mut s3 = SearchResultStream::new(client, UnifiedSearchRequest::default(), limited);
    match s3.record_page(Ok(page(vec![item("a"), item("b")], 10))) {
        PageStep::Page(p) => {
            assert_eq!(p.items.len(), 1);
            assert_eq!(p.items[0].title, "a");
            assert_eq!(p.total_count, 10);
        }
        _ => panic!("expected a page"),
    }
    assert!(s3.get_stats().finished);
    assert_eq!(s3.get_stats().items_fetched, 1);
    assert!(s3.next_request().is_none());
}

#[test]
fn stream_limit_cuts_the_last_page() {
    let client = LegalClient::Nlic(NlicClient::new(ClientConfig::default()));
    let limited = StreamConfig { max_items: 60, page_size: 50, ..StreamConfig::default() };
    let mut s = SearchResultStream::new(client, UnifiedSearchRequest::default(), limited);
    let fifty = |prefix: &str| (0..50).map(|i| item(&format!("{}{}", prefix, i))).collect::<Vec<_>>();
    let mut handed = 0;
    while let Some(r) = s.next_request() {
        let items = if r.page_no == 1 { fifty("a") } else { fifty("b") };
        match s.record_page(Ok(page(items, 250))) {
            PageStep::Page(p) => handed += p.items.len(),
            _ => break,
        }
    }
    assert_eq!(handed, 60);
    assert_eq!(s.get_stats().items_fetched, 60);
    assert_eq!(s.get_stats().current_page, 3);
}

#[test]
fn pool_counters_report_errors_apart_from_timeouts() {
    let mut s = PoolStats::default();
    s.record_attempt();
    s.record_success();
    s.record_attempt();
    s.record_failure(PoolError::AcquisitionTimeout);
    s.record_attempt();
    let m = s.metrics(4);
    assert_eq!(m.active_connections, 1);
    assert_eq!(m.idle_connections, 4);
    assert_eq!(m.total_connections, 5);
    assert_eq!(m.connection_acquires, 3);
    assert_eq!(m.connection_timeouts, 1);
    assert_eq!(m.connection_errors, 1);
    s.record_release();
    s.record_release();
    assert_eq!(s.active_connections, 0);
    assert_eq!(PoolError::AcquisitionTimeout.to_string(), "Connection acquisition timed out");
    assert_eq!(PoolError::PoolClosed.to_string(), "Connection pool is closed");
}

#[test]
fn test_cache_config_conversion() {
    let config_cache = CacheConfig {
        enabled: true,
        ttl_seconds: 3600,
        max_size_mb: 50,
        cache_dir: Some("/tmp/test".to_string()),
    };

    let cache_config = config_cache.to_cache_config();

    assert_eq!(cache_config.max_size, 50 * 1024 * 1024); // 50MB in bytes
    assert_eq!(cache_config.default_ttl.as_secs(), 3600);
    assert_eq!(cache_config.db_path, "/tmp/test/cache.db");
}

#[test]
fn store_eviction_and_expiry() {
    let c = StoreConfig { max_size: 1000, default_ttl: Duration::from_secs(10), db_path: "x".to_string() };
    assert_eq!(c.space_to_free(400, 500), 0);
    assert_eq!(c.space_to_free(900, 300), 200);
    let e = c.entry_for("k", vec![1, 2, 3], ApiType::Nlic, None, 1_000);
    assert_eq!(e.size, 3);
    assert_eq!(e.expires_at, 11_000);
    assert!(e.is_valid_at(11_000));
    assert!(e.is_expired_at(11_001));
    let e2 = c.entry_for("k", vec![], ApiType::Prec, Some(Duration::from_millis(5)), 0);
    assert_eq!(e2.expires_at, 5);
    let default = StoreConfig::default();
    assert_eq!(default.max_size, 100 * 1024 * 1024);
    assert!(default.db_path.ends_with("warp/cache.db"));
}

#[test]
fn lru_victims_are_the_oldest_that_free_enough() {
    let entries = vec![("a".to_string(), 100u64), ("b".to_string(), 50), ("c".to_string(), 300)];
    assert_eq!(select_lru_victims(&entries, 120), vec!["a".to_string(), "b".to_string()]);
    assert_eq!(select_lru_victims(&entries, 100), vec!["a".to_string()]);
    assert_eq!(select_lru_victims(&entries, 0), vec!["a".to_string()]);
    assert_eq!(select_lru_victims(&entries, 10_000).len(), 3);
}

#[test]
fn tiered_cache_decisions_and_counters() {
    let l1 = L1CacheConfig::default();
    assert_eq!(l1.max_entries, 1000);
    assert!(l1.should_compress(2000));
    assert!(!l1.should_compress(1024));
    assert!(should_cache_in_l1(100 * 1024));
    assert!(!should_cache_in_l1(100 * 1024 + 1));
    let t = TieredCacheConfig::default();
    assert!(!t.enable_l3);
    assert!(t.l3_dir.ends_with("warp/l3_cache"));
    let mut s = TieredCacheStats::default();
    s.record_lookup(TierLookup::L1Hit, false);
    s.record_lookup(TierLookup::L2Hit, false);
    s.record_lookup(TierLookup::Miss, true);
    s.record_eviction();
    assert_eq!((s.l1_hits, s.l1_misses, s.l2_hits, s.l2_misses, s.l3_misses), (1, 2, 1, 1, 1));
    assert_eq!((s.promotions, s.evictions), (1, 1));
    assert_eq!(s.total_hits(), 2);
    assert_eq!(s.total_requests(), 6);
}

#[test]
fn operation_timer_records_elapsed_time() {
    let mut collector = MetricsCollector::new();
    let timer = OperationTimer::start("test_operation".to_string(), 1_000);
    assert_eq!(timer.elapsed(11_000_000), Duration::from_nanos(10_999_000));
    timer.finish_success(&mut collector, 11_000_000);
    let m = collector.get_operation_metrics("test_operation").unwrap();
    assert_eq!(m.total_requests, 1);
    assert_eq!(m.successful_requests, 1);
    let timer2 = OperationTimer::start("test_operation".to_string(), 5);
    timer2.finish_failure(&mut collector, 5);
    assert_eq!(collector.get_operation_metrics("test_operation").unwrap().failed_requests, 1);
}

#[test]
fn shells_are_recognised_by_program_path() {
    assert!(matches!(detect_from_path("/bin/bash"), Some(DetectedShell::Supported(CompletionShell::Bash))));
    assert!(matches!(detect_from_path("/bin/sh"), Some(DetectedShell::Supported(CompletionShell::Bash))));
    assert!(matches!(detect_from_path("/usr/bin/zsh"), Some(DetectedShell::Supported(CompletionShell::Zsh))));
    assert!(matches!(detect_from_path("pwsh.exe"), Some(DetectedShell::Supported(CompletionShell::PowerShell))));
    assert!(matches!(detect_from_path("/opt/fish.exe.exe"), Some(DetectedShell::Supported(CompletionShell::Fish))));
    assert!(matches!(detect_from_path("cmd.exe"), Some(DetectedShell::WindowsCmd)));
    match detect_from_path("/bin/tcsh") {
        Some(DetectedShell::Unknown(n)) => assert_eq!(n, "tcsh"),
        _ => panic!("expected an unknown shell"),
    }
    assert!(detect_from_path("/").is_none());
    assert_eq!(DetectedShell::WindowsCmd.display_name(), "Windows Command Prompt (CMD)");
    assert_eq!(DetectedShell::Unknown("tcsh".to_string()).display_name(), "tcsh");
    assert_eq!(get_completion_shell(&DetectedShell::WindowsCmd), Some(CompletionShell::PowerShell));
    assert_eq!(get_completion_shell(&DetectedShell::Unknown("x".to_string())), None);
    assert!(matches!(detect_from_environment(false, true, true, false), Some(DetectedShell::Supported(CompletionShell::Zsh))));
    assert!(detect_from_environment(false, false, false, false).is_none());
    assert!(is_affirmative(" Yes\n"));
    assert!(is_affirmative("y"));
    assert!(!is_affirmative("no"));
}

#[test]
fn metrics_command_helpers() {
    assert_eq!(parse_percentiles("50, 90,abc,99,300"), vec![50, 90, 99]);
    assert_eq!(parse_percentiles(""), Vec::<u8>::new());
    assert_eq!(history_time_range(Some(6), Some(2)), "최근 6시간");
    assert_eq!(history_time_range(None, Some(2)), "최근 2일");
    assert_eq!(history_time_range(None, None), "최근 24시간");
    assert!(matches_api_filter("search_NLIC", &Some("nlic".to_string())));
    assert!(!matches_api_filter("search_prec", &Some("nlic".to_string())));
    assert!(matches_api_filter("anything", &None));
}

#[test]
fn test_format_duration() {
    assert_eq!(format_duration(Duration::from_secs(30)), "30s");
    assert_eq!(format_duration(Duration::from_secs(90)), "1m 30s");
    assert_eq!(format_duration(Duration::from_secs(3661)), "1h 1m 1s");
}

#[test]
fn test_format_bytes() {
    assert_eq!(format_bytes(512), "512 B");
    assert_eq!(format_bytes(1024), "1.0 KB");
    assert_eq!(format_bytes(1536), "1.5 KB");
    assert_eq!(format_bytes(1048576), "1.0 MB");
}

#[test]
fn format_bytes_larger_units() {
    assert_eq!(format_bytes(3 * 1024 * 1024 * 1024), "3.0 GB");
    assert_eq!(format_bytes(5 * 1024 * 1024 * 1024 * 1024 * 1024), "5120.0 TB");
    assert_eq!(format_bytes(1023), "1023 B");
}

#[test]
fn renderers_by_format() {
    let r = page(vec![item("민법")], 1);
    assert!(format_search_response(&r, OutputFormat::Table).is_none());
    assert!(format_search_response(&r, OutputFormat::Json).is_none());
    let md = format_search_response(&r, OutputFormat::Markdown).unwrap().unwrap();
    assert!(md.starts_with("# 검색 결과"));
    let html = format_search_response(&r, OutputFormat::HtmlSimple).unwrap().unwrap();
    assert!(html.contains("민법"));
    let detail = LawDetail {
        law_id: "1".to_string(),
        law_name: "민법".to_string(),
        law_no: None,
        law_type: None,
        department: None,
        enforcement_date: None,
        revision_date: None,
        content: String::new(),
        articles: vec![],
        attachments: vec![],
        related_laws: vec![],
        metadata: StrMap::new(),
    };
    assert!(format_law_detail(&detail, OutputFormat::Markdown).unwrap().unwrap().starts_with("# 민법"));
    assert!(format_law_detail(&detail, OutputFormat::Json).is_none());
    let history = LawHistory { law_id: "1".to_string(), law_name: "민법".to_string(), total_count: 0, entries: vec![] };
    assert!(format_law_history(&history, OutputFormat::Csv).unwrap().is_ok());
    assert!(format_law_history(&history, OutputFormat::Table).is_none());
}

#[test]
fn law_pages_tile_the_results() {
    assert_eq!(page_offset(1, 20), 1);
    assert_eq!(page_offset(2, 20), 21);
    assert_eq!(page_offset(3, 20), page_offset(2, 20) + 20);
}

#[test]
fn law_escaping_and_truncation() {
    let e = escape_html("<a href=\"x\">'b' & c</a>");
    assert!(!e.contains('<') && !e.contains('>') && !e.contains('"') && !e.contains('\''));
    assert_eq!(escape_html("plain text"), "plain text");
    let t = truncate_string("대한민국 헌법 제1조 제1항", 8);
    assert_eq!(t.chars().count(), 8);
    assert!(t.ends_with("..."));
    assert_eq!(truncate_string("짧은", 8), "짧은");
}

#[test]
fn law_decimal_text_reads_back() {
    for n in [0u64, 7, 10, 12345, u64::MAX] {
        assert_eq!(parse_u64(&dec_string(n)), Some(n));
    }
}
