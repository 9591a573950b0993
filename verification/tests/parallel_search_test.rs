use warp::api::ApiType;
use warp::cli::OutputFormat;
use warp::api::types::{SearchItem, SearchResponse};
use warp::cli::parallel_search::{create_enhanced_search_params, dedup_and_limit, enable_optimizations};
use warp::strmap::StrMap;

fn entry(id: &str, title: &str, law_no: Option<&str>) -> SearchItem {
    SearchItem {
        id: id.to_string(),
        title: title.to_string(),
        law_no: law_no.map(|s| s.to_string()),
        law_type: None,
        department: None,
        enforcement_date: None,
        revision_date: None,
        summary: None,
        source: "X".to_string(),
        metadata: StrMap::new(),
    }
}

fn page(items: Vec<SearchItem>) -> SearchResponse {
    SearchResponse { total_count: 99, page_no: 3, page_size: 50, items, source: "MERGED".to_string(), timestamp: 7 }
}

#[test]
fn test_enhanced_search_params_creation() {
    let params = create_enhanced_search_params("test query".to_string(), 1, 10, None, None, OutputFormat::Table);

    assert_eq!(params.query, "test query");
    assert_eq!(params.page, 1);
    assert_eq!(params.size, 10);
    assert!(params.parallel_config.enable_parallel_apis);
}

#[test]
fn test_optimization_enabling() {
    let base_params = create_enhanced_search_params("test".to_string(), 1, 10, None, None, OutputFormat::Table);

    let optimized = enable_optimizations(base_params, true, true, Some(10));

    assert!(optimized.parallel_config.enable_batching);
    assert!(optimized.parallel_config.enable_tiered_cache);
    assert_eq!(optimized.parallel_config.max_concurrent_requests, 10);
}

#[test]
fn optimizations_can_be_switched_off_and_keep_the_limit() {
    let base = create_enhanced_search_params("q".to_string(), 2, 20, Some("t".to_string()), None, OutputFormat::Json);
    assert_eq!(base.parallel_config.apis_to_search, vec![ApiType::Nlic, ApiType::Elis, ApiType::Prec]);
    let off = enable_optimizations(base, false, false, None);
    assert!(!off.parallel_config.enable_batching);
    assert!(!off.parallel_config.enable_tiered_cache);
    assert_eq!(off.parallel_config.max_concurrent_requests, 5);
    assert_eq!(off.law_type, Some("t".to_string()));
}

#[test]
fn neighbouring_duplicates_are_dropped_and_counted() {
    let mut r = page(vec![
        entry("1", "민법", Some("1")),
        entry("2", "민법", Some("1")),
        entry("3", "민법", Some("2")),
        entry("4", "민법", None),
        entry("5", "민법", None),
        entry("6", "민법", Some("1")),
    ]);
    dedup_and_limit(&mut r, 10);
    let ids: Vec<&str> = r.items.iter().map(|i| i.id.as_str()).collect();
    assert_eq!(ids, vec!["1", "3", "4", "6"]);
    assert_eq!(r.total_count, 4);
    assert_eq!(r.page_no, 3);
    assert_eq!(r.page_size, 50);
    assert_eq!(r.source, "MERGED");
    assert_eq!(r.timestamp, 7);
}

#[test]
fn the_page_keeps_at_most_size_results_but_counts_all() {
    let mut r = page(vec![entry("a", "x", None), entry("b", "y", None), entry("c", "z", None)]);
    dedup_and_limit(&mut r, 2);
    let ids: Vec<&str> = r.items.iter().map(|i| i.id.as_str()).collect();
    assert_eq!(ids, vec!["a", "b"]);
    assert_eq!(r.total_count, 3);
    let mut empty = page(vec![]);
    dedup_and_limit(&mut empty, 5);
    assert!(empty.items.is_empty());
    assert_eq!(empty.total_count, 0);
}
