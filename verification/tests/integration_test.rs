use warp::api::ApiType;
use warp::api::types::UnifiedSearchRequest;
use warp::config::Config;

#[test]
fn test_api_type_from_str() {
    assert_eq!(ApiType::from_str("nlic"), Some(ApiType::Nlic));
    assert_eq!(ApiType::from_str("law"), Some(ApiType::Nlic));
    assert_eq!(ApiType::from_str("elis"), Some(ApiType::Elis));
    assert_eq!(ApiType::from_str("ordinance"), Some(ApiType::Elis));
    assert_eq!(ApiType::from_str("invalid"), None);
}

#[test]
fn test_api_type_display_name() {
    assert_eq!(ApiType::Nlic.display_name(), "국가법령정보센터");
    assert_eq!(ApiType::Elis.display_name(), "자치법규정보시스템");
    assert_eq!(ApiType::Prec.display_name(), "판례");
}

#[test]
fn test_unified_search_request_default() {
    let request = UnifiedSearchRequest::default();
    assert_eq!(request.page_no, 1);
    assert_eq!(request.page_size, 50);
    assert!(request.query.is_empty());
}

#[test]
fn api_type_names_round_trip() {
    for t in [ApiType::Nlic, ApiType::Elis, ApiType::Prec, ApiType::Admrul, ApiType::Expc, ApiType::All] {
        assert_eq!(ApiType::from_str(t.as_str()), Some(t));
    }
    assert_eq!(ApiType::from_str("PRECEDENT"), Some(ApiType::Prec));
    assert_eq!(ApiType::from_str("Unified"), Some(ApiType::All));
}

#[test]
fn test_config_path() {
    let path = Config::config_path();
    assert!(path.is_ok());
    let path = path.unwrap();
    assert!(path.contains(".pyhub/warp"));
}

#[test]
fn config_files_sit_in_the_config_directory() {
    let dir = Config::config_path().unwrap();
    let file = Config::config_file_path().unwrap();
    let legacy = Config::legacy_config_file_path().unwrap();
    assert!(dir.ends_with(".pyhub/warp"));
    assert_eq!(file, format!("{}/config.toml", dir));
    assert_eq!(legacy, format!("{}/config.yaml", dir));
    assert_eq!(Config::get_config_path().unwrap(), file);
}

#[test]
fn api_type_parse_gives_the_error_text() {
    assert_eq!("PRECEDENT".parse::<ApiType>(), Ok(ApiType::Prec));
    assert_eq!("unified".parse::<ApiType>(), Ok(ApiType::All));
    assert_eq!("bogus".parse::<ApiType>(), Err("Unknown API type: bogus".to_string()));
    assert_eq!(warp::api::parse_api_type("Law"), Ok(ApiType::Nlic));
}
