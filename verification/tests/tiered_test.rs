use warp::api::ApiType;
use warp::cache::tiered::{L1CacheConfig, L1Tier};
use warp::time::Duration;

fn tier(max_entries: usize) -> L1Tier {
    L1Tier::new(L1CacheConfig {
        max_entries,
        ttl: Duration::from_secs(300),
        enable_compression: true,
        compression_threshold: 100,
    })
}

#[test]
fn l1_gives_back_what_was_put() {
    let mut t = tier(10);
    let data = b"test_data".to_vec();
    assert!(!t.put_in_l1("test_key", data.clone(), ApiType::Nlic, None, 1_000));
    assert_eq!(t.get_from_l1("test_key", 1_000), Some(data.clone()));
    assert_eq!(t.get_from_l1("test_key", 1_000 + 300_000), Some(data));
    assert_eq!(t.get_from_l1("other", 1_000), None);
    assert_eq!(t.l1_len(), 1);
}

#[test]
fn l1_compressed_entry_round_trips() {
    let mut t = tier(10);
    let data = vec![b'A'; 200];
    t.put_in_l1("compression_test", data.clone(), ApiType::Nlic, None, 0);
    assert_eq!(t.get_from_l1("compression_test", 5), Some(data));
    let noisy: Vec<u8> = (0..5000u32).map(|i| (i * 7919 % 251) as u8).collect();
    t.put_in_l1("noisy", noisy.clone(), ApiType::Elis, Some(Duration::from_millis(10)), 0);
    assert_eq!(t.get_from_l1("noisy", 10), Some(noisy));
}

#[test]
fn l1_expired_entry_is_dropped() {
    let mut t = tier(10);
    t.put_in_l1("expiration_test", b"expiration_data".to_vec(), ApiType::Nlic, Some(Duration::from_millis(100)), 0);
    assert_eq!(t.get_from_l1("expiration_test", 100), Some(b"expiration_data".to_vec()));
    assert_eq!(t.get_from_l1("expiration_test", 101), None);
    assert_eq!(t.l1_len(), 0);
}

#[test]
fn l1_replacement_and_least_recent_eviction() {
    let mut t = tier(2);
    assert!(!t.put_in_l1("a", vec![1], ApiType::Nlic, None, 0));
    assert!(!t.put_in_l1("b", vec![2], ApiType::Nlic, None, 0));
    assert!(t.put_in_l1("b", vec![3], ApiType::Nlic, None, 0));
    assert_eq!(t.get_from_l1("a", 0), Some(vec![1]));
    assert!(!t.put_in_l1("c", vec![4], ApiType::Nlic, None, 0));
    assert_eq!(t.l1_len(), 2);
    assert_eq!(t.get_from_l1("b", 0), None);
    assert_eq!(t.get_from_l1("a", 0), Some(vec![1]));
    assert_eq!(t.get_from_l1("c", 0), Some(vec![4]));
}

#[test]
fn l1_remove_clear_and_cleanup() {
    let mut t = tier(10);
    t.put_in_l1("short", vec![1], ApiType::Nlic, Some(Duration::from_millis(10)), 0);
    t.put_in_l1("long", vec![2], ApiType::Nlic, Some(Duration::from_millis(1000)), 0);
    t.put_in_l1("gone", vec![3], ApiType::Nlic, None, 0);
    assert!(t.remove_from_l1("gone"));
    assert!(!t.remove_from_l1("gone"));
    assert_eq!(t.cleanup_expired_l1(11), 1);
    assert_eq!(t.l1_len(), 1);
    assert_eq!(t.get_from_l1("long", 11), Some(vec![2]));
    t.clear_l1();
    assert_eq!(t.l1_len(), 0);
}
