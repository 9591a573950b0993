use warp::error::{IoErrorKind, IoFailure, NetworkFailure, WarpError};

#[test]
fn test_no_api_key_error() {
    let error = WarpError::NoApiKey;
    let msg = error.to_string();
    assert!(msg.contains("🔑"));
    assert!(msg.contains("API 키가 설정되지 않았습니다"));
    let hint = error.hint();
    assert!(hint.is_some());
    let hint_text = hint.unwrap();
    assert!(hint_text.contains("https://open.law.go.kr"));
    assert!(hint_text.contains("warp config set law.nlic.key"));
}

#[test]
fn test_network_error_message() {
    let error = WarpError::Other("네트워크 연결 실패".to_string());
    let msg = error.to_string();
    assert!(msg.contains("⚠️"));
}

#[test]
fn test_api_error_with_hint() {
    let error = WarpError::ApiError {
        code: "404".to_string(),
        message: "Not found".to_string(),
        hint: Some("자료를 찾을 수 없습니다".to_string()),
    };
    let msg = error.to_string();
    assert!(msg.contains("⚠️"));
    assert!(msg.contains("API 오류"));
    assert!(msg.contains("404"));
    assert!(msg.contains("Not found"));
    let hint = error.hint();
    assert!(hint.is_some());
    assert_eq!(hint.unwrap(), "자료를 찾을 수 없습니다");
}

#[test]
fn test_rate_limit_error() {
    let error = WarpError::RateLimit;
    let msg = error.to_string();
    assert!(msg.contains("⏳"));
    assert!(msg.contains("요청 한도 초과"));
    let hint_text = error.hint().unwrap();
    assert!(hint_text.contains("잠시 후"));
    assert!(hint_text.contains("다시 시도"));
}

#[test]
fn test_parse_error() {
    let error = WarpError::Parse("Invalid XML response".to_string());
    let msg = error.to_string();
    assert!(msg.contains("🔍"));
    assert!(msg.contains("응답 파싱 오류"));
    assert!(msg.contains("Invalid XML response"));
    let hint_text = error.hint().unwrap();
    assert!(hint_text.contains("API 응답 형식"));
    assert!(hint_text.contains("--verbose"));
}

#[test]
fn test_invalid_input_error() {
    let error = WarpError::InvalidInput("페이지 번호는 1 이상이어야 합니다".to_string());
    let msg = error.to_string();
    assert!(msg.contains("❌"));
    assert!(msg.contains("잘못된 입력"));
    assert!(msg.contains("페이지 번호"));
    let hint_text = error.hint().unwrap();
    assert!(hint_text.contains("입력한 값을 다시 확인"));
    assert!(hint_text.contains("warp --help"));
}

#[test]
fn test_server_error() {
    let error = WarpError::ServerError("503 Service Unavailable".to_string());
    let msg = error.to_string();
    assert!(msg.contains("🚨"));
    assert!(msg.contains("서버 오류"));
    assert!(msg.contains("503"));
    let hint_text = error.hint().unwrap();
    assert!(hint_text.contains("서버에 일시적인 문제"));
    assert!(hint_text.contains("law.go.kr"));
}

#[test]
fn test_io_error_permission_denied() {
    let error = WarpError::Io(IoFailure { kind: IoErrorKind::PermissionDenied, message: "Permission denied".to_string() });
    let msg = error.to_string();
    assert!(msg.contains("💾"));
    assert!(msg.contains("파일 시스템 오류"));
    let hint_text = error.hint().unwrap();
    assert!(hint_text.contains("권한이 없습니다"));
    assert!(hint_text.contains("sudo"));
}

#[test]
fn test_io_error_not_found() {
    let error = WarpError::Io(IoFailure { kind: IoErrorKind::NotFound, message: "File not found".to_string() });
    let hint_text = error.hint().unwrap();
    assert!(hint_text.contains("찾을 수 없습니다"));
    assert!(hint_text.contains("경로를 다시 확인"));
}

#[test]
fn test_config_error() {
    let error = WarpError::Config("Invalid configuration format".to_string());
    let msg = error.to_string();
    assert!(msg.contains("⚙️"));
    assert!(msg.contains("설정 오류"));
    assert!(msg.contains("Invalid configuration format"));
}

#[test]
fn test_authentication_failed() {
    let error = WarpError::AuthenticationFailed("Invalid API key".to_string());
    let msg = error.to_string();
    assert!(msg.contains("🔐"));
    assert!(msg.contains("인증 실패"));
    assert!(msg.contains("Invalid API key"));
    let hint_text = error.hint().unwrap();
    assert!(hint_text.contains("API 키가 올바른지"));
    assert!(hint_text.contains("warp config get"));
}

#[test]
fn test_is_retryable() {
    assert!(WarpError::Timeout(30).is_retryable());
    assert!(WarpError::ServerError("503".to_string()).is_retryable());
    assert!(WarpError::RateLimit.is_retryable());

    assert!(!WarpError::NoApiKey.is_retryable());
    assert!(!WarpError::InvalidInput("bad input".to_string()).is_retryable());
    assert!(!WarpError::AuthenticationFailed("bad key".to_string()).is_retryable());
    assert!(!WarpError::Parse("bad format".to_string()).is_retryable());
}

#[test]
fn test_not_found_error() {
    let error = WarpError::NotFound("법령 ID 12345".to_string());
    let msg = error.to_string();
    assert!(msg.contains("🔎"));
    assert!(msg.contains("찾을 수 없음"));
    assert!(msg.contains("법령 ID 12345"));
    let hint_text = error.hint().unwrap();
    assert!(hint_text.contains("법령 ID 12345"));
    assert!(hint_text.contains("항목을 찾을 수 없습니다"));
    assert!(hint_text.contains("다른 검색어"));
}

#[test]
fn test_csv_error() {
    let error = WarpError::Csv("Invalid CSV format".to_string());
    let msg = error.to_string();
    assert!(msg.contains("📊"));
    assert!(msg.contains("CSV 처리 오류"));
}

#[test]
fn test_serialization_error() {
    let error = WarpError::Serialization("key must be a string".to_string());
    let msg = error.to_string();
    assert!(msg.contains("📄"));
    assert!(msg.contains("데이터 변환 오류"));
}

#[test]
fn test_other_error() {
    let error = WarpError::Other("예상치 못한 오류가 발생했습니다".to_string());
    let msg = error.to_string();
    assert!(msg.contains("⚠️"));
    assert!(msg.contains("예상치 못한 오류"));
}

#[test]
fn test_timeout_error_message() {
    let error = WarpError::Timeout(30);
    let msg = error.to_string();
    assert!(msg.contains("⏱️"));
    assert!(msg.contains("시간 초과"));
    assert!(msg.contains("30초"));
}

#[test]
fn network_hints_follow_the_failure() {
    let timeout = WarpError::Network(NetworkFailure { is_timeout: true, is_connect: false, message: String::new() });
    assert!(timeout.hint().unwrap().contains("네트워크 연결이 느립니다"));
    let connect = WarpError::Network(NetworkFailure { is_timeout: false, is_connect: true, message: String::new() });
    assert!(connect.hint().unwrap().contains("방화벽"));
    assert!(connect.is_retryable());
    assert_eq!(connect.to_string(), "🌐 네트워크 오류가 발생했습니다");
}

#[test]
fn parse_errors_without_format_names_have_no_hint() {
    assert!(WarpError::Parse("bad".to_string()).hint().is_none());
    assert!(WarpError::Parse("bad JSON".to_string()).hint().is_some());
    assert!(WarpError::Config("x".to_string()).hint().is_none());
    assert_eq!(WarpError::api_error("C", "M", None).to_string(), "⚠️ API 오류 (C): M");
}
