use warp::api::ApiType;
use warp::api::admrul::{AdmrulClient, AdmrulDetailContent, AdmrulDetailInfo, AdmrulDetailResponse, AdmrulSearchData,
    AdmrulSearchResponse};
use warp::api::client::{AttemptOutcome, AttemptVerdict, Backoff, ClientConfig, RetryAction, RetryLoop};
use warp::api::elis::{ElisArticle, ElisBasicInfo, ElisClient, ElisDetailContent, ElisDetailResponse, ElisLaw,
    ElisSearchResponse};
use warp::api::expc::{ExpcClient, ExpcDetailContent, ExpcDetailInfo, ExpcDetailResponse};
use warp::api::nlic::{NlicArticle, NlicClient, NlicDetailContent, NlicHistoryEntry, NlicHistoryResponse, NlicLaw,
    NlicSearchData, NlicSearchResponse};
use warp::api::prec::{PrecCase, PrecClient, PrecDetailContent, PrecDetailInfo, PrecDetailResponse, PrecSearchResponse};
use warp::api::types::UnifiedSearchRequest;
use warp::error::{NetworkFailure, WarpError};
use warp::time::Duration;

fn config(key: &str) -> ClientConfig {
    ClientConfig { api_key: key.to_string(), ..Default::default() }
}

fn pairs(v: Vec<(String, String)>) -> Vec<(String, String)> {
    v
}

fn law(id: &str) -> NlicLaw {
    NlicLaw {
        law_id: id.to_string(),
        law_name: format!("법 {}", id),
        law_no: Some("001".to_string()),
        law_type: None,
        department: Some("법무부".to_string()),
        enforcement_date: None,
        revision_date: None,
        law_summary: None,
        law_detail_link: Some("/d".to_string()),
        law_full_link: None,
    }
}

#[test]
fn client_config_defaults() {
    let c = ClientConfig::default();
    assert_eq!(c.timeout, 30);
    assert_eq!(c.max_retries, 3);
    assert_eq!(c.retry_base_delay, 100);
    assert!(c.api_key.is_empty());
    assert!(c.user_agent.starts_with("warp/"));
}

#[test]
fn nlic_search_params_use_the_offset() {
    let client = NlicClient::new(config("KEY"));
    let req = UnifiedSearchRequest {
        query: "민법".to_string(),
        page_no: 3,
        page_size: 10,
        law_type: Some("A".to_string()),
        date_from: Some("20200101".to_string()),
        ..Default::default()
    };
    let p = pairs(client.search_params(&req));
    let expected: Vec<(String, String)> = vec![
        ("OC", "KEY"), ("target", "law"), ("type", "JSON"), ("query", "민법"), ("page", "21"), ("display", "10"),
        ("MST", "A"), ("efYd", "20200101"),
    ].into_iter().map(|(a, b)| (a.to_string(), b.to_string())).collect();
    assert_eq!(p, expected);
    let url = client.search_url(&req).unwrap();
    assert!(url.starts_with("https://www.law.go.kr/DRF/lawSearch.do?OC=KEY&target=law"));
    assert!(url.contains("page=21"));
}

#[test]
fn search_without_key_is_refused() {
    let client = NlicClient::new(config(""));
    assert!(!client.is_configured());
    let req = UnifiedSearchRequest::default();
    assert!(matches!(client.search_url(&req), Err(WarpError::NoApiKey)));
    assert!(matches!(client.detail_url("1"), Err(WarpError::NoApiKey)));
    assert!(matches!(ElisClient::new(config("")).search_url(&req), Err(WarpError::NoApiKey)));
}

#[test]
fn admrul_sends_the_page_number() {
    let client = AdmrulClient::new(config("K"));
    let req = UnifiedSearchRequest { page_no: 3, page_size: 10, department: Some("국토부".to_string()), ..Default::default() };
    let p = client.search_params(&req);
    assert_eq!(p[4], ("page".to_string(), "3".to_string()));
    assert_eq!(p[6], ("org".to_string(), "국토부".to_string()));
}

#[test]
fn prec_extras_become_parameters() {
    let client = PrecClient::new(config("K"));
    let mut req = UnifiedSearchRequest::default();
    req.extras.insert("court", "대법원".to_string());
    req.date_to = Some("20241231".to_string());
    let p = client.search_params(&req);
    assert_eq!(p[6], ("court".to_string(), "대법원".to_string()));
    assert_eq!(p[7], ("toDate".to_string(), "20241231".to_string()));
    assert_eq!(p.len(), 8);
}

#[test]
fn search_answers_are_checked() {
    let client = NlicClient::new(config("K"));
    match client.check_search_response(false, "<html>") {
        Err(WarpError::ApiError { code, hint, .. }) => {
            assert_eq!(code, "INVALID_RESPONSE");
            assert_eq!(hint.unwrap(), "Please check your API key with 'warp config get law.nlic.key' and ensure it's valid.");
        }
        other => panic!("unexpected {:?}", other),
    }
    assert!(client.check_search_response(true, "{}").is_err());
    match client.check_search_response(false, "  \n ") {
        Err(WarpError::ApiError { code, .. }) => assert_eq!(code, "EMPTY_RESPONSE"),
        other => panic!("unexpected {:?}", other),
    }
    assert!(client.check_search_response(false, "{\"a\":1}").is_ok());
    assert!(ElisClient::new(config("K")).check_search_response("  ").is_ok());
}

#[test]
fn parse_failures_quote_error_reports() {
    let client = NlicClient::new(config("K"));
    match client.search_parse_failure("some error text", "expected value") {
        WarpError::ApiError { code, message, .. } => {
            assert_eq!(code, "API_ERROR");
            assert_eq!(message, "API returned an error: some error text");
        }
        other => panic!("unexpected {:?}", other),
    }
    let long = "x".repeat(150);
    match client.search_parse_failure(&long, "eof") {
        WarpError::Parse(m) => assert_eq!(m, format!("Failed to parse API response as JSON: eof. Response starts with: {}", "x".repeat(100))),
        other => panic!("unexpected {:?}", other),
    }
    match PrecClient::new(config("K")).search_parse_failure("abc", "eof") {
        WarpError::Parse(m) => assert_eq!(m, "Failed to parse precedent API response: eof"),
        other => panic!("unexpected {:?}", other),
    }
    let big_error = format!("Error{}", "y".repeat(300));
    match ExpcClient::new(config("K")).search_parse_failure(&big_error, "eof") {
        WarpError::ApiError { message, .. } => assert_eq!(message.chars().count(), "API returned an error: ".len() + 200),
        other => panic!("unexpected {:?}", other),
    }
}

#[test]
fn nlic_nested_answer_becomes_items() {
    let client = NlicClient::new(config("K"));
    let raw = NlicSearchResponse {
        law_search: Some(NlicSearchData {
            total_count: Some("2".to_string()),
            page_no: Some("1".to_string()),
            page_size: Some("abc".to_string()),
            laws: vec![law("1"), law("2")],
        }),
        total_count: Some(99),
        page_no: None,
        page_size: None,
        laws: None,
    };
    let r = client.parse_search_response(raw, 4);
    assert_eq!(r.total_count, 2);
    assert_eq!(r.page_no, 4);
    assert_eq!(r.page_size, 50);
    assert_eq!(r.source, "NLIC");
    assert_eq!(r.items.len(), 2);
    assert_eq!(r.items[1].id, "2");
    assert_eq!(r.items[0].metadata.get("detail_link"), Some(&"/d".to_string()));
    assert_eq!(r.items[0].metadata.get("full_link"), None);
}

#[test]
fn nlic_flat_answer_uses_top_level_numbers() {
    let client = NlicClient::new(config("K"));
    let raw = NlicSearchResponse { law_search: None, total_count: Some(7), page_no: None, page_size: Some(5), laws: None };
    let r = client.parse_search_response(raw, 1);
    assert_eq!(r.total_count, 7);
    assert_eq!(r.page_size, 5);
    assert!(r.items.is_empty());
}

#[test]
fn elis_answer_keeps_region_as_metadata() {
    let client = ElisClient::new(config("K"));
    let raw = ElisSearchResponse {
        law_search: None,
        total_count: None,
        page_no: None,
        page_size: None,
        laws: Some(vec![ElisLaw {
            law_id: "E1".to_string(),
            law_name: "조례".to_string(),
            region: Some("서울".to_string()),
            law_type: None,
            department: None,
            enforcement_date: None,
            revision_date: None,
            law_no: None,
            law_summary: None,
        }]),
    };
    let r = client.parse_search_response(raw, 2);
    assert_eq!(r.total_count, 0);
    assert_eq!(r.page_size, 50);
    assert_eq!(r.items[0].source, "ELIS");
    assert_eq!(r.items[0].metadata.get("region"), Some(&"서울".to_string()));
}

#[test]
fn prec_answer_maps_court_fields() {
    let client = PrecClient::new(config("K"));
    let raw = PrecSearchResponse {
        prec_search: None,
        total_count: Some(1),
        page_no: None,
        page_size: None,
        cases: Some(vec![PrecCase {
            case_id: "P1".to_string(),
            case_name: "사건".to_string(),
            case_number: Some("2020다1".to_string()),
            judgment_date: Some("20200101".to_string()),
            court_name: Some("대법원".to_string()),
            case_type: Some("민사".to_string()),
            case_summary: None,
            judgment_summary: None,
            reference_laws: None,
            reference_cases: None,
        }]),
    };
    let r = client.parse_search_response(raw, 1);
    let it = &r.items[0];
    assert_eq!(it.department, Some("대법원".to_string()));
    assert_eq!(it.enforcement_date, Some("20200101".to_string()));
    assert_eq!(it.metadata.get("court"), Some(&"대법원".to_string()));
    assert_eq!(it.metadata.get("judgment_date"), Some(&"20200101".to_string()));
    assert_eq!(it.metadata.len(), 3);
}

#[test]
fn admrul_answer_keeps_its_paging() {
    let client = AdmrulClient::new(config("K"));
    let raw = AdmrulSearchResponse {
        admrul_search: Some(AdmrulSearchData {
            total_count: Some("12".to_string()),
            page_no: Some("3".to_string()),
            page_size: None,
            rules: vec![],
        }),
        total_count: None,
        page_no: None,
        page_size: None,
        rules: None,
    };
    let r = client.parse_search_response(raw);
    assert_eq!(r.total_count, 12);
    assert_eq!(r.page_no, 3);
    assert_eq!(r.page_size, 50);
    assert_eq!(r.source, "ADMRUL");
}

#[test]
fn details_combine_their_sections() {
    let prec = PrecDetailResponse {
        prec: PrecDetailContent {
            case_info: PrecDetailInfo {
                case_id: "1".to_string(),
                case_name: "n".to_string(),
                case_number: None,
                judgment_date: None,
                court_name: None,
                case_type: None,
                case_holding: Some("H".to_string()),
                judgment_summary: None,
                reference_laws: Some("민법 제1조".to_string()),
                reference_cases: None,
                case_content: Some("C".to_string()),
            },
        },
    };
    let d = prec.into_law_detail();
    assert_eq!(d.content, "【판시사항】\nH\n\n【판례내용】\nC");
    assert_eq!(d.metadata.get("reference_laws"), Some(&"민법 제1조".to_string()));

    let expc = ExpcDetailResponse {
        expc: ExpcDetailContent {
            interpretation_info: ExpcDetailInfo {
                interpretation_id: "1".to_string(),
                interpretation_name: "n".to_string(),
                interpretation_no: None,
                case_type: None,
                department: None,
                response_date: None,
                question_content: Some("Q".to_string()),
                answer_content: Some("A".to_string()),
                reason: Some("R".to_string()),
            },
        },
    };
    assert_eq!(expc.into_law_detail().content, "【질의내용】\nQ\n\n【회답내용】\nA\n\n【이유】\nR");

    let adm = AdmrulDetailResponse {
        admrul: AdmrulDetailContent {
            rule_info: AdmrulDetailInfo {
                rule_id: "1".to_string(),
                rule_name: "n".to_string(),
                rule_no: None,
                rule_type: None,
                department: None,
                enforcement_date: None,
                revision_date: Some("20200101".to_string()),
                rule_content: None,
                revision_reason: Some("개정".to_string()),
            },
        },
    };
    let d = adm.into_law_detail();
    assert_eq!(d.content, "\n\n【개정이유】\n개정");
    assert_eq!(d.revision_date, Some("20200101".to_string()));

    let elis = ElisDetailResponse {
        law: ElisDetailContent {
            basic_info: ElisBasicInfo { law_id: "E".to_string(), law_name: "조례".to_string(), region: None },
            articles: vec![
                ElisArticle { number: "1".to_string(), title: None, content: "가".to_string() },
                ElisArticle { number: "2".to_string(), title: Some("t".to_string()), content: "나".to_string() },
            ],
        },
    };
    let d = elis.into_law_detail();
    assert_eq!(d.content, "1: 가\n\n2: 나");
    assert_eq!(d.articles.len(), 2);
    assert_eq!(d.articles[1].title, Some("t".to_string()));
}

#[test]
fn nlic_detail_and_history() {
    let content = NlicDetailContent {
        law_id: "L".to_string(),
        law_name: "법".to_string(),
        law_no: None,
        law_type: None,
        department: None,
        enforcement_date: None,
        revision_date: None,
        articles: vec![NlicArticle {
            article_key: "k".to_string(),
            article_number: "제1조".to_string(),
            article_title: Some("목적".to_string()),
            article_content: "내용".to_string(),
        }],
    };
    let d = content.into_law_detail();
    assert_eq!(d.articles[0].number, "제1조");
    assert!(d.content.is_empty());

    let h = NlicHistoryResponse {
        history: vec![
            NlicHistoryEntry {
                law_id: "L".to_string(),
                law_name: "법".to_string(),
                revision_type: "일부개정".to_string(),
                announcement_date: "20200101".to_string(),
                enforcement_date: None,
                reason: None,
            },
            NlicHistoryEntry {
                law_id: "L".to_string(),
                law_name: "법".to_string(),
                revision_type: "전부개정".to_string(),
                announcement_date: "20210101".to_string(),
                enforcement_date: Some("20210601".to_string()),
                reason: Some("r".to_string()),
            },
        ],
    };
    let h = h.into_law_history();
    assert_eq!(h.total_count, 2);
    assert_eq!(h.entries[0].revision_no, 1);
    assert_eq!(h.entries[1].revision_no, 2);
    assert_eq!(h.entries[1].revision_date, "20210101");
    assert!(h.law_id.is_empty());
    let empty = ElisClient::new(config("K")).get_history("X");
    assert_eq!(empty.law_id, "X");
    assert_eq!(empty.total_count, 0);
}

#[test]
fn cache_keys_of_details() {
    let c = NlicClient::new(config("K"));
    assert_eq!(c.detail_cache_key("123"), "nlic:detail:123");
    assert_eq!(c.history_cache_key("9"), "nlic:history:9");
    assert_eq!(PrecClient::new(config("K")).detail_cache_key("7"), "prec:detail:7");
}

#[test]
fn doubling_retry_schedule() {
    let mut r = RetryLoop::new(Backoff::Doubling, 3, 100);
    match r.next_action() {
        RetryAction::Send { wait } => assert_eq!(wait, Duration::zero()),
        other => panic!("unexpected {:?}", other),
    }
    assert!(matches!(r.record(AttemptOutcome::Response { code: 503, status_text: "503 Service Unavailable".to_string() }), AttemptVerdict::Retry));
    match r.next_action() {
        RetryAction::Send { wait } => assert_eq!(wait, Duration::from_millis(100)),
        other => panic!("unexpected {:?}", other),
    }
    assert!(matches!(r.record(AttemptOutcome::Response { code: 429, status_text: "429 Too Many Requests".to_string() }), AttemptVerdict::Retry));
    match r.next_action() {
        RetryAction::Send { wait } => assert_eq!(wait, Duration::from_millis(200)),
        other => panic!("unexpected {:?}", other),
    }
    assert!(matches!(r.record(AttemptOutcome::Transport(NetworkFailure { is_timeout: true, is_connect: false, message: "t".to_string() })), AttemptVerdict::Retry));
    match r.next_action() {
        RetryAction::GiveUp(WarpError::Network(f)) => assert!(f.is_timeout),
        other => panic!("unexpected {:?}", other),
    }
}

#[test]
fn power_of_two_retry_schedule_and_fatal_answers() {
    let mut r = RetryLoop::new(Backoff::PowersOfTwoSeconds, 3, 100);
    assert!(matches!(r.next_action(), RetryAction::Send { .. }));
    match r.record(AttemptOutcome::Response { code: 500, status_text: "500 Internal Server Error".to_string() }) {
        AttemptVerdict::Retry => {}
        other => panic!("unexpected {:?}", other),
    }
    match r.next_action() {
        RetryAction::Send { wait } => assert_eq!(wait, Duration::from_secs(2)),
        other => panic!("unexpected {:?}", other),
    }
    match r.record(AttemptOutcome::Response { code: 429, status_text: "429 Too Many Requests".to_string() }) {
        AttemptVerdict::Failed(WarpError::ApiError { code, message, hint }) => {
            assert_eq!(code, "429 Too Many Requests");
            assert_eq!(message, "API request failed with status 429 Too Many Requests");
            assert!(hint.is_none());
        }
        other => panic!("unexpected {:?}", other),
    }
    let mut ok = RetryLoop::new(Backoff::PowersOfTwoSeconds, 2, 0);
    ok.next_action();
    assert!(matches!(ok.record(AttemptOutcome::Response { code: 200, status_text: "200 OK".to_string() }), AttemptVerdict::Success));
}

#[test]
fn giving_up_with_nothing_sent() {
    let mut r = RetryLoop::new(Backoff::Doubling, 0, 100);
    match r.next_action() {
        RetryAction::GiveUp(WarpError::Other(m)) => assert_eq!(m, "Request failed after all retries"),
        other => panic!("unexpected {:?}", other),
    }
    let mut s = RetryLoop::new(Backoff::PowersOfTwoSeconds, 2, 0);
    s.next_action();
    s.record(AttemptOutcome::Response { code: 502, status_text: "502 Bad Gateway".to_string() });
    s.next_action();
    s.record(AttemptOutcome::Response { code: 502, status_text: "502 Bad Gateway".to_string() });
    match s.next_action() {
        RetryAction::GiveUp(WarpError::ServerError(m)) => assert_eq!(m, "Server error: 502 Bad Gateway"),
        other => panic!("unexpected {:?}", other),
    }
    assert_eq!(ApiType::Nlic.as_str(), "nlic");
}
