use warp::api::ApiType;
use warp::api::client::{ApiClientFactory, ClientConfig, LegalClient};
use warp::api::parallel::{ParallelConfig, ParallelExecutor, ParallelSearchResult, RetryStep};
use warp::api::types::{SearchItem, SearchResponse};
use warp::cli::search::{merge_responses, parse_apis};
use warp::error::WarpError;
use warp::strmap::StrMap;
use warp::time::Duration;

fn item(id: &str) -> SearchItem {
    SearchItem {
        id: id.to_string(),
        title: format!("t{}", id),
        law_no: None,
        law_type: None,
        department: None,
        enforcement_date: None,
        revision_date: None,
        summary: None,
        source: "X".to_string(),
        metadata: StrMap::new(),
    }
}

fn resp(total: u32, page: u32, size: u32, ids: &[&str]) -> SearchResponse {
    SearchResponse {
        total_count: total,
        page_no: page,
        page_size: size,
        items: ids.iter().map(|i| item(i)).collect(),
        source: "X".to_string(),
        timestamp: 0,
    }
}

#[test]
fn unified_merge_marks_sources() {
    let merged = merge_responses(vec![
        (ApiType::Nlic, resp(3, 1, 10, &["a", "b"])),
        (ApiType::Prec, resp(4, 2, 10, &["c"])),
    ]);
    assert_eq!(merged.total_count, 7);
    assert_eq!(merged.page_no, 1);
    assert_eq!(merged.page_size, 3);
    assert_eq!(merged.source, "통합검색");
    let ids: Vec<&str> = merged.items.iter().map(|i| i.id.as_str()).collect();
    assert_eq!(ids, vec!["a", "b", "c"]);
    assert_eq!(merged.items[0].source, "국가법령정보센터");
    assert_eq!(merged.items[2].source, "판례");
}

#[test]
fn parallel_merge_saturates_and_keeps_last_paging() {
    let r = ParallelSearchResult {
        successes: vec![
            (ApiType::Nlic, resp(u32::MAX - 1, 1, 10, &["a"])),
            (ApiType::Elis, resp(5, 3, 20, &["b", "c"])),
        ],
        failures: vec![(ApiType::Prec, WarpError::RateLimit)],
        execution_time: Duration::from_millis(5),
    };
    let m = r.merge_responses().unwrap();
    assert_eq!(m.total_count, u32::MAX);
    assert_eq!(m.page_no, 3);
    assert_eq!(m.page_size, 20);
    assert_eq!(m.items.len(), 3);
    assert_eq!(m.source, "Unified (2)");
    let s = r.get_summary();
    assert_eq!(s.total_apis, 3);
    assert_eq!(s.successful_apis, 2);
    assert_eq!(s.failed_apis, 1);
    assert_eq!(s.total_items, 3);
    let empty = ParallelSearchResult { successes: vec![], failures: vec![], execution_time: Duration::zero() };
    assert!(empty.merge_responses().is_none());
}

#[test]
fn collecting_parallel_answers() {
    let ex = ParallelExecutor::default();
    let results = vec![
        (ApiType::Nlic, Ok(resp(1, 1, 10, &["a"]))),
        (ApiType::Elis, Err(WarpError::RateLimit)),
        (ApiType::Prec, Ok(resp(2, 1, 10, &[]))),
    ];
    let r = ex.collect_results(results, Duration::from_millis(3)).unwrap();
    assert_eq!(r.successes.len(), 2);
    assert_eq!(r.successes[1].0, ApiType::Prec);
    assert_eq!(r.failures.len(), 1);

    let fail_fast = ParallelExecutor::new(ParallelConfig { fail_fast: true, ..ParallelConfig::default() });
    let results = vec![(ApiType::Nlic, Err(WarpError::Timeout(1))), (ApiType::Elis, Err(WarpError::RateLimit))];
    assert!(matches!(fail_fast.collect_results(results, Duration::zero()), Err(WarpError::Timeout(1))));
    assert!(matches!(ex.check_clients(0), Err(WarpError::InvalidInput(_))));
    assert!(matches!(ex.timeout_error(), WarpError::Timeout(30000)));
    assert_eq!(ex.retry_delay(1), Some(Duration::from_millis(200)));
    assert_eq!(ex.retry_delay(2), None);
}

#[test]
fn api_lists() {
    assert_eq!(parse_apis("nlic, PREC,all,bogus,interpretation"), vec![ApiType::Nlic, ApiType::Prec, ApiType::Expc]);
    assert!(parse_apis("").is_empty());
}

#[test]
fn client_factory() {
    let c = ApiClientFactory::create(ApiType::Elis, ClientConfig::default()).unwrap();
    assert!(matches!(c, LegalClient::Elis(_)));
    assert_eq!(c.api_type(), ApiType::Elis);
    assert!(matches!(ApiClientFactory::create(ApiType::All, ClientConfig::default()), Err(WarpError::Other(_))));
}

#[test]
fn retried_operation_waits_then_gives_up_with_the_last_error() {
    let ex = ParallelExecutor::new(ParallelConfig::default());
    assert!(matches!(ex.retry_step(0, Ok::<u32, WarpError>(7)), RetryStep::Done(7)));
    assert!(matches!(ex.retry_step(0, Err::<u32, WarpError>(WarpError::RateLimit)), RetryStep::Wait(d) if d == Duration::from_millis(100)));
    assert!(matches!(ex.retry_step(1, Err::<u32, WarpError>(WarpError::RateLimit)), RetryStep::Wait(d) if d == Duration::from_millis(200)));
    assert!(matches!(ex.retry_step(2, Err::<u32, WarpError>(WarpError::NoApiKey)), RetryStep::Fail(WarpError::NoApiKey)));
    assert!(matches!(ex.retry_step(2, Ok::<u32, WarpError>(1)), RetryStep::Done(1)));
}
