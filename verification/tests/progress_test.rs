use warp::progress::messages;
use warp::progress::ApiStage;

#[test]
fn test_progress_messages() {
    assert_eq!(messages::searching_api("국가법령정보센터"), "국가법령정보센터 검색 중...");
    assert_eq!(messages::search_complete("NLIC", 10), "NLIC: 10개 결과");
    assert_eq!(messages::multi_api_progress(2, 5), "API 검색 진행 중 (2/5)");
    assert_eq!(messages::search_complete_with_time("NLIC", 5, 1500), "NLIC: 5개 결과 (1500ms)");
    assert_eq!(messages::retry_message("검색", 2, 3), "검색 재시도 (2/3)");
    assert_eq!(messages::bytes_transferred(512), "512B");
    assert_eq!(messages::bytes_transferred(2048), "2.0KB");
    assert_eq!(messages::bytes_transferred(2097152), "2.0MB");
}

#[test]
fn bytes_transferred_matches_float_rendering() {
    for b in [0u64, 1023, 1024, 1280, 1536, 10_000, 1_048_575, 1_048_576, 1_572_864, 123_456_789,
              9_007_199_254_740_993, u64::MAX] {
        let expected = if b < 1024 {
            format!("{}B", b)
        } else if b < 1024 * 1024 {
            format!("{:.1}KB", b as f64 / 1024.0)
        } else {
            format!("{:.1}MB", b as f64 / (1024.0 * 1024.0))
        };
        assert_eq!(messages::bytes_transferred(b), expected, "bytes {}", b);
    }
}

#[test]
fn stage_and_cache_messages() {
    assert_eq!(messages::stage_message("NLIC", ApiStage::Parsing), "NLIC 파싱");
    assert_eq!(messages::cache_operation("저장", 3, 7), "캐시 저장 (3/7)");
    assert_eq!(ApiStage::Caching.position(), 3);
    assert_eq!(messages::CONNECTING, "서버 연결 중...");
}
