use warp::api::ApiType;
use warp::cli::search::create_optimized_client_config;
use warp::config::{CacheConfig, Config};
use warp::error::WarpError;

#[test]
fn test_cache_config_defaults() {
    let config = CacheConfig::default();
    assert!(config.enabled);
    assert_eq!(config.ttl_seconds, 86400);
    assert_eq!(config.max_size_mb, 100);
    assert!(config.cache_dir.is_some());
}

#[test]
fn test_config_get_set_cache_values() {
    let mut config = Config::default();

    config.set("cache.enabled", "false").unwrap();
    config.set("cache.ttl_seconds", "7200").unwrap();
    config.set("cache.max_size_mb", "250").unwrap();

    assert!(!config.cache.enabled);
    assert_eq!(config.cache.ttl_seconds, 7200);
    assert_eq!(config.cache.max_size_mb, 250);

    assert_eq!(config.get("cache.enabled"), Some("false".to_string()));
    assert_eq!(config.get("cache.ttl_seconds"), Some("7200".to_string()));
    assert_eq!(config.get("cache.max_size_mb"), Some("250".to_string()));
}

#[test]
fn set_refuses_unknown_keys_and_bad_values() {
    let mut config = Config::default();
    match config.set("nope", "1") {
        Err(WarpError::Config(m)) => assert_eq!(m, "Unknown configuration key: nope"),
        other => panic!("unexpected {:?}", other),
    }
    match config.set("cache.enabled", "yes") {
        Err(WarpError::Config(m)) => assert_eq!(m, "Invalid boolean value: yes"),
        other => panic!("unexpected {:?}", other),
    }
    match config.set("cache.ttl_seconds", "-5") {
        Err(WarpError::Config(m)) => assert_eq!(m, "Invalid TTL seconds value: -5"),
        other => panic!("unexpected {:?}", other),
    }
    assert!(config.cache.enabled);
    assert_eq!(config.get("unknown"), None);
}

#[test]
fn api_keys_fall_back_to_the_shared_key() {
    let mut config = Config::default();
    assert_eq!(config.get_nlic_api_key(), None);
    config.set("law.key", "shared").unwrap();
    config.set("law.prec.key", "prec-only").unwrap();
    assert_eq!(config.get_nlic_api_key(), Some("shared".to_string()));
    assert_eq!(config.get_prec_api_key(), Some("prec-only".to_string()));
    assert_eq!(config.get_api_key("PREC"), Some("prec-only".to_string()));
    assert_eq!(config.get_api_key("law.prec.key"), Some("shared".to_string()));
    assert_eq!(config.get("law.prec.key"), Some("prec-only".to_string()));
}

#[test]
fn parallel_client_settings_use_the_shared_key() {
    let mut config = Config::default();
    match create_optimized_client_config(ApiType::Elis, &config) {
        Err(WarpError::InvalidInput(m)) => assert_eq!(m, "API key for 자치법규정보시스템 not found"),
        other => panic!("unexpected {:?}", other),
    }
    config.set("law.elis.key", "e").unwrap();
    assert!(create_optimized_client_config(ApiType::Elis, &config).is_err());
    config.set("law.key", "s").unwrap();
    let c = create_optimized_client_config(ApiType::Elis, &config).unwrap();
    assert_eq!(c.api_key, "s");
    assert_eq!(c.max_retries, 3);
    assert!(c.user_agent.starts_with("warp-parallel/"));
}

#[test]
fn max_size_in_bytes() {
    let c = CacheConfig { enabled: true, ttl_seconds: 3600, max_size_mb: 50, cache_dir: None };
    assert_eq!(c.get_max_size_bytes(), 50 * 1024 * 1024);
}

#[test]
fn trim_strips_unicode_white_space_like_std() {
    for s in ["  a b  ", "\u{3000}법\u{a0}", "\t\n\r x\u{2028}", "    ", "", "\u{200b}z\u{200b}", "\u{85}y\u{2009}"] {
        assert_eq!(warp::text::trim(s), s.trim());
    }
    assert_eq!(warp::text::trim("\u{3000} a b\t\n"), "a b");
}
