use warp::api::batcher::{group_similar_requests, BatchConfig, BatcherFactory, RequestBatcher, RequestKey, Submission};
use warp::api::client::{ClientConfig, LegalClient};
use warp::api::nlic::NlicClient;
use warp::api::types::{SearchResponse, UnifiedSearchRequest};
use warp::error::WarpError;
use warp::time::Duration;

fn client() -> LegalClient {
    LegalClient::Nlic(NlicClient::new(ClientConfig::default()))
}

fn request(query: &str) -> UnifiedSearchRequest {
    UnifiedSearchRequest { query: query.to_string(), page_no: 1, page_size: 10, ..Default::default() }
}

fn response(total: u32) -> SearchResponse {
    SearchResponse { total_count: total, page_no: 1, page_size: 10, items: vec![], source: "MockBatchAPI".to_string(), timestamp: 0 }
}

const SEC: u64 = 1_000_000_000;

#[test]
fn batch_config_defaults() {
    let c = BatchConfig::default();
    assert_eq!(c.max_batch_size, 10);
    assert_eq!(c.max_batch_delay, Duration::from_millis(100));
    assert!(c.enable_deduplication);
    assert_eq!(c.deduplication_ttl, Duration::from_secs(60));
    assert!(c.enable_predictive_batching);
}

#[test]
fn factory_configurations() {
    let high = BatcherFactory::create_high_throughput_batcher(client());
    assert_eq!(high.config.max_batch_size, 20);
    assert_eq!(high.config.max_batch_delay, Duration::from_millis(50));
    assert_eq!(high.config.deduplication_ttl, Duration::from_secs(300));
    let low = BatcherFactory::create_low_latency_batcher(client());
    assert_eq!(low.config.max_batch_size, 5);
    assert_eq!(low.config.max_batch_delay, Duration::from_millis(25));
    assert!(!low.config.enable_predictive_batching);
    let dflt = BatcherFactory::create_batcher(client(), None);
    assert_eq!(dflt.config.max_batch_size, 10);
    let custom = BatchConfig { max_batch_size: 3, ..BatchConfig::default() };
    let b = BatcherFactory::create_batcher(client(), Some(custom));
    assert_eq!(b.config.max_batch_size, 3);
}

#[test]
fn metrics_label_names_the_api() {
    let b = RequestBatcher::new(client(), BatchConfig::default());
    assert_eq!(b.metrics_label(), "batcher_nlic");
}

#[test]
fn queue_reports_full_batch_and_batches_are_fifo() {
    let config = BatchConfig { max_batch_size: 3, ..BatchConfig::default() };
    let mut b = RequestBatcher::new(client(), config);
    assert!(!b.enqueue(1, request("a"), 0));
    assert!(!b.enqueue(2, request("b"), 0));
    assert!(b.enqueue(3, request("c"), 0));
    assert!(b.enqueue(4, request("d"), 0));
    let batch = b.take_batch();
    let tickets: Vec<u64> = batch.iter().map(|p| p.ticket).collect();
    assert_eq!(tickets, vec![1, 2, 3]);
    assert_eq!(b.get_stats().pending_requests, 1);
    let rest = b.take_batch();
    assert_eq!(rest.len(), 1);
    assert_eq!(rest[0].ticket, 4);
    assert!(b.take_batch().is_empty());
}

#[test]
fn identical_requests_are_grouped_in_order_of_arrival() {
    let mut b = RequestBatcher::new(client(), BatchConfig::default());
    b.enqueue(1, request("x"), 0);
    b.enqueue(2, request("y"), 0);
    b.enqueue(3, request("x"), 0);
    b.enqueue(4, request("z"), 0);
    b.enqueue(5, request("y"), 0);
    let groups = group_similar_requests(b.take_batch());
    let tickets: Vec<Vec<u64>> = groups.iter().map(|g| g.iter().map(|p| p.ticket).collect()).collect();
    assert_eq!(tickets, vec![vec![1, 3], vec![2, 5], vec![4]]);
}

#[test]
fn a_successful_search_answers_identical_requests_while_fresh() {
    let mut b = RequestBatcher::new(client(), BatchConfig::default());
    let req = request("test");
    let key = RequestKey::from_request(&req);
    assert!(matches!(b.check_submission(&key, 0), Submission::Enqueue));
    b.enqueue(7, req, 0);
    let group = group_similar_requests(b.take_batch()).remove(0);
    b.begin_group(&group[0].key);
    assert!(matches!(b.check_submission(&key, 0), Submission::AwaitInFlight));
    let replies = b.finish_group(&group, Ok(response(10)), SEC);
    assert_eq!(replies.len(), 1);
    assert_eq!(replies[0].0, 7);
    assert_eq!(replies[0].1.as_ref().unwrap().total_count, 10);
    let stats = b.get_stats();
    assert!(stats.deduplication_enabled);
    assert_eq!(stats.cached_responses, 1);
    assert_eq!(stats.in_flight_requests, 0);
    match b.check_submission(&key, 30 * SEC) {
        Submission::Answered(r) => assert_eq!(r.source, "MockBatchAPI"),
        _ => panic!("expected a cached answer"),
    }
    // Sixty seconds after the answer was kept it is no longer served.
    assert!(matches!(b.check_submission(&key, 61 * SEC), Submission::Enqueue));
    assert!(b.cached_response(&key, 61 * SEC).is_none());
}

#[test]
fn a_failed_search_fails_every_request_of_its_group() {
    let mut b = RequestBatcher::new(client(), BatchConfig::default());
    b.enqueue(1, request("q"), 0);
    b.enqueue(2, request("q"), 0);
    let group = group_similar_requests(b.take_batch()).remove(0);
    b.begin_group(&group[0].key);
    let replies = b.finish_group(&group, Err(WarpError::Timeout(30)), SEC);
    assert_eq!(replies.len(), 2);
    for (i, (ticket, reply)) in replies.iter().enumerate() {
        assert_eq!(*ticket, (i + 1) as u64);
        match reply {
            Err(WarpError::Other(m)) => {
                assert!(m.starts_with("Batch request failed: "));
                assert!(m.ends_with(&WarpError::Timeout(30).to_string()));
            }
            _ => panic!("expected a failure"),
        }
    }
    assert_eq!(b.get_stats().cached_responses, 0);
}

#[test]
fn cleanup_drops_only_stale_answers() {
    let mut b = RequestBatcher::new(client(), BatchConfig::default());
    b.store_response(RequestKey::from_request(&request("old")), response(1), 0);
    b.store_response(RequestKey::from_request(&request("new")), response(2), 50 * SEC);
    let removed = b.cleanup_cache(70 * SEC);
    assert_eq!(removed, 1);
    assert_eq!(b.get_stats().cached_responses, 1);
    assert!(b.cached_response(&RequestKey::from_request(&request("new")), 70 * SEC).is_some());
    assert!(b.cached_response(&RequestKey::from_request(&request("old")), 70 * SEC).is_none());
}

#[test]
fn storing_twice_keeps_one_answer_per_request() {
    let mut b = RequestBatcher::new(client(), BatchConfig::default());
    let key = RequestKey::from_request(&request("same"));
    b.store_response(key.duplicate(), response(1), 0);
    b.store_response(key.duplicate(), response(2), SEC);
    assert_eq!(b.get_stats().cached_responses, 1);
    assert_eq!(b.cached_response(&key, SEC).unwrap().total_count, 2);
}

#[test]
fn keys_tell_requests_apart() {
    let a = RequestKey::from_request(&request("a"));
    let a2 = RequestKey::from_request(&request("a"));
    let mut other = request("a");
    other.page_no = 2;
    let b = RequestKey::from_request(&other);
    assert!(a.same_as(&a2));
    assert!(!a.same_as(&b));
}
