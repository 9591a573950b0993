use warp::cli::parse::{parse_duration, parse_duration_checked, parse_time_window, mask_value, parse_source, parse_u32, parse_u64};
use warp::api::ApiType;
use warp::metrics::MetricsWindow;
use warp::time::Duration;

#[test]
fn test_parse_time_window() {
    assert!(matches!(parse_time_window("1m").unwrap(), MetricsWindow::LastMinute));
    assert!(matches!(parse_time_window("5m").unwrap(), MetricsWindow::Last5Minutes));
    assert!(matches!(parse_time_window("1h").unwrap(), MetricsWindow::LastHour));
    assert!(matches!(parse_time_window("24h").unwrap(), MetricsWindow::Last24Hours));
    assert!(parse_time_window("invalid").is_err());
}

#[test]
fn test_parse_duration() {
    assert_eq!(parse_duration("5s").unwrap(), Duration::from_secs(5));
    assert_eq!(parse_duration("2m").unwrap(), Duration::from_secs(120));
    assert_eq!(parse_duration("1h").unwrap(), Duration::from_secs(3600));
    assert!(parse_duration("invalid").is_err());
}

#[test]
fn time_window_ignores_case_and_knows_fifteen_minutes() {
    assert!(matches!(parse_time_window("15M").unwrap(), MetricsWindow::Last15Minutes));
    assert!(matches!(parse_time_window("DAY").unwrap(), MetricsWindow::Last24Hours));
}

#[test]
fn numbers_parse_like_std() {
    assert_eq!(parse_u64("+42"), Some(42));
    assert_eq!(parse_u64("18446744073709551615"), Some(u64::MAX));
    assert_eq!(parse_u64("18446744073709551616"), None);
    assert_eq!(parse_u64(""), None);
    assert_eq!(parse_u64("-1"), None);
    assert_eq!(parse_u32("4294967295"), Some(u32::MAX));
    assert_eq!(parse_u32("4294967296"), None);
}

#[test]
fn mask_value_cuts_long_secrets() {
    assert_eq!(mask_value("short"), "short");
    assert_eq!(mask_value("abcdefghijklmnop"), "abcdefghij...(16 characters)");
}

#[test]
fn parse_source_lists() {
    assert_eq!(parse_source("all").len(), 5);
    assert_eq!(parse_source(""), vec![ApiType::Nlic, ApiType::Elis, ApiType::Prec, ApiType::Admrul, ApiType::Expc]);
    assert_eq!(parse_source("LAW"), vec![ApiType::Nlic]);
    assert_eq!(parse_source("prec, bogus ,elis"), vec![ApiType::Prec, ApiType::Elis]);
}

#[test]
fn checked_duration_refuses_only_what_would_overflow() {
    assert_eq!(parse_duration_checked(" 2M ").unwrap().unwrap(), Duration::from_secs(120));
    assert!(matches!(parse_duration_checked("5x"), Some(Err(_))));
    assert!(parse_duration_checked("18446744073709551615h").is_none());
    assert_eq!(parse_duration_checked("18446744073709551615s").unwrap().unwrap(), Duration::from_secs(u64::MAX));
}
