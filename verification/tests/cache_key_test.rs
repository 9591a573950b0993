use warp::api::ApiType;
use warp::cache::key::CacheKeyGenerator;
use warp::strmap::StrMap;

fn params(pairs: &[(&str, &str)]) -> StrMap<String> {
    let mut m = StrMap::new();
    for (k, v) in pairs {
        m.insert(k, v.to_string());
    }
    m
}

#[test]
fn test_generate_key_consistency() {
    let p = params(&[("query", "test"), ("page", "1")]);
    let key1 = CacheKeyGenerator::generate_key(ApiType::Nlic, "/api/search", &p, None);
    let key2 = CacheKeyGenerator::generate_key(ApiType::Nlic, "/api/search", &p, None);
    assert_eq!(key1, key2, "Keys should be consistent");
}

#[test]
fn test_generate_key_different_params() {
    let p1 = params(&[("query", "test1")]);
    let p2 = params(&[("query", "test2")]);
    let key1 = CacheKeyGenerator::generate_key(ApiType::Nlic, "/api/search", &p1, None);
    let key2 = CacheKeyGenerator::generate_key(ApiType::Nlic, "/api/search", &p2, None);
    assert_ne!(key1, key2, "Keys should be different for different params");
}

#[test]
fn test_parameter_order_independence() {
    let p1 = params(&[("a", "1"), ("b", "2")]);
    let p2 = params(&[("b", "2"), ("a", "1")]);
    let key1 = CacheKeyGenerator::generate_key(ApiType::Nlic, "/api/search", &p1, None);
    let key2 = CacheKeyGenerator::generate_key(ApiType::Nlic, "/api/search", &p2, None);
    assert_eq!(key1, key2, "Keys should be same regardless of parameter order");
}

#[test]
fn test_key_validation() {
    let valid_key = "nlic:a1b2c3d4e5f67890abcdef1234567890abcdef1234567890abcdef1234567890";
    let invalid_key1 = "invalid_format";
    let invalid_key2 = "nlic:short_hash";
    let invalid_key3 = "unknown_api:a1b2c3d4e5f67890abcdef1234567890abcdef1234567890abcdef1234567890";

    assert!(CacheKeyGenerator::is_valid_key(valid_key));
    assert!(!CacheKeyGenerator::is_valid_key(invalid_key1));
    assert!(!CacheKeyGenerator::is_valid_key(invalid_key2));
    assert!(!CacheKeyGenerator::is_valid_key(invalid_key3));
}

#[test]
fn test_extract_api_type() {
    let key = "nlic:a1b2c3d4e5f67890abcdef1234567890abcdef1234567890abcdef1234567890";
    assert_eq!(CacheKeyGenerator::extract_api_type(key), Some(ApiType::Nlic));
    assert_eq!(CacheKeyGenerator::extract_api_type("invalid_format"), None);
}

#[test]
fn test_nlic_key_generation() {
    let key1 = CacheKeyGenerator::nlic_key("/api/search", Some("테스트"), Some("law"), Some(1), Some(10));
    let key2 = CacheKeyGenerator::nlic_key("/api/search", Some("테스트"), Some("law"), Some(1), Some(10));
    assert_eq!(key1, key2);
    assert!(key1.starts_with("nlic:"));
}

#[test]
fn test_unified_search_key() {
    let apis = vec![ApiType::Nlic, ApiType::Elis, ApiType::Prec];
    let key1 = CacheKeyGenerator::unified_search_key("test", &apis, Some(1), Some(10));
    let apis2 = vec![ApiType::Elis, ApiType::Nlic, ApiType::Prec];
    let key2 = CacheKeyGenerator::unified_search_key("test", &apis2, Some(1), Some(10));
    assert_eq!(key1, key2);
    assert!(key1.starts_with("all:"));
}

#[test]
fn key_is_api_colon_sha256_hex() {
    let p = params(&[("q", "x")]);
    let key = CacheKeyGenerator::generate_key(ApiType::Elis, "/e", &p, Some("v1"));
    assert!(key.starts_with("elis:"));
    assert_eq!(key.len(), "elis:".len() + 64);
    assert!(CacheKeyGenerator::is_valid_key(&key));
    assert_eq!(CacheKeyGenerator::extract_api_type(&key), Some(ApiType::Elis));
}

#[test]
fn simple_key_is_digest_of_api_and_query() {
    // sha256("nlic|abc")
    let key = CacheKeyGenerator::generate_simple_key(ApiType::Nlic, "abc");
    assert!(key.starts_with("nlic:"));
    assert_eq!(key.len(), 69);
    assert_ne!(key, CacheKeyGenerator::generate_simple_key(ApiType::Nlic, "abd"));
}

#[test]
fn version_changes_the_key() {
    let p = params(&[("q", "x")]);
    let a = CacheKeyGenerator::generate_key(ApiType::Nlic, "/e", &p, None);
    let b = CacheKeyGenerator::generate_key(ApiType::Nlic, "/e", &p, Some("2"));
    assert_ne!(a, b);
}

#[test]
fn uppercase_hex_digest_is_a_key_and_api_names_ignore_case() {
    let key = "NLIC:A1B2C3D4E5F67890ABCDEF1234567890ABCDEF1234567890ABCDEF1234567890";
    assert!(CacheKeyGenerator::is_valid_key(key));
    assert!(!CacheKeyGenerator::is_valid_key("nlic:g1b2c3d4e5f67890abcdef1234567890abcdef1234567890abcdef1234567890"));
}

#[test]
fn law_generated_keys_are_valid_and_name_their_api() {
    let p = params(&[("query", "민법"), ("page", "1")]);
    for api in [ApiType::Nlic, ApiType::Elis, ApiType::Prec, ApiType::Admrul, ApiType::Expc, ApiType::All] {
        let key = CacheKeyGenerator::generate_key(api, "/search", &p, Some("v2"));
        assert!(CacheKeyGenerator::is_valid_key(&key));
        assert_eq!(CacheKeyGenerator::extract_api_type(&key), Some(api));
        assert_eq!(key.len(), api.as_str().len() + 1 + 64);
    }
}
