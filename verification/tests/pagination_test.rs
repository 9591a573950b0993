use warp::api::types::UnifiedSearchRequest;
use warp::api::client::page_offset;

#[test]
fn test_pagination_offset_calculation() {
    let test_cases = vec![
        (1, 10, 1),
        (2, 10, 11),
        (3, 10, 21),
        (1, 5, 1),
        (2, 5, 6),
        (3, 5, 11),
        (1, 20, 1),
        (2, 20, 21),
    ];

    for (page_no, page_size, expected_offset) in test_cases {
        let offset = ((page_no - 1) * page_size) + 1;
        assert_eq!(
            offset, expected_offset,
            "Failed for page {} with size {}: expected offset {}, got {}",
            page_no, page_size, expected_offset, offset
        );
        assert_eq!(page_offset(page_no, page_size), expected_offset);
    }
}

#[test]
fn test_unified_search_request_pagination() {
    let request = UnifiedSearchRequest {
        query: "test".to_string(),
        page_no: 2,
        page_size: 10,
        ..Default::default()
    };

    assert_eq!(request.page_no, 2);
    assert_eq!(request.page_size, 10);
}
