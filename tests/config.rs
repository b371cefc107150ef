use video_relay::config::{parse_usize, AppConfig, GrpcConfig, LogLevel};

#[test]
fn test_default_grpc_url() {
    assert_eq!(GrpcConfig::server_url(None), "http://127.0.0.1:50051");
}

#[test]
fn test_default_chunk_size() {
    assert_eq!(GrpcConfig::video_chunk_size(None), 512 * 1024);
}

#[test]
fn configured_url_is_used() {
    let url = GrpcConfig::server_url(Some("http://backend-server:50051".to_string()));
    assert_eq!(url, "http://backend-server:50051");
}

#[test]
fn configured_chunk_size_is_used() {
    assert_eq!(GrpcConfig::video_chunk_size(Some("1024".to_string())), 1024);
    assert_eq!(GrpcConfig::video_chunk_size(Some("+7".to_string())), 7);
}

#[test]
fn bad_chunk_size_falls_back_to_default() {
    assert_eq!(GrpcConfig::video_chunk_size(Some("abc".to_string())), 524288);
    assert_eq!(GrpcConfig::video_chunk_size(Some("".to_string())), 524288);
    assert_eq!(GrpcConfig::video_chunk_size(Some("0".to_string())), 524288);
    assert_eq!(GrpcConfig::video_chunk_size(Some("-5".to_string())), 524288);
    assert_eq!(
        GrpcConfig::video_chunk_size(Some("99999999999999999999999".to_string())),
        524288
    );
}

#[test]
fn parse_usize_cases() {
    assert_eq!(parse_usize("0"), Some(0));
    assert_eq!(parse_usize("42"), Some(42));
    assert_eq!(parse_usize("+42"), Some(42));
    assert_eq!(parse_usize("+"), None);
    assert_eq!(parse_usize(""), None);
    assert_eq!(parse_usize("4 2"), None);
    assert_eq!(parse_usize("18446744073709551615"), Some(usize::MAX));
    assert_eq!(parse_usize("18446744073709551616"), None);
}

#[test]
fn log_level_names_in_any_case() {
    assert_eq!(AppConfig::log_level(Some("TRACE".to_string()), false), LogLevel::Trace);
    assert_eq!(AppConfig::log_level(Some("Warn".to_string()), true), LogLevel::Warn);
    assert_eq!(AppConfig::log_level(Some("off".to_string()), true), LogLevel::Off);
    assert_eq!(AppConfig::log_level(Some("error".to_string()), true), LogLevel::Error);
    assert_eq!(AppConfig::log_level(Some("Info".to_string()), true), LogLevel::Info);
    assert_eq!(AppConfig::log_level(Some("DEBUG".to_string()), false), LogLevel::Debug);
}

#[test]
fn log_level_defaults_by_build() {
    assert_eq!(AppConfig::log_level(None, true), LogLevel::Debug);
    assert_eq!(AppConfig::log_level(None, false), LogLevel::Info);
    assert_eq!(AppConfig::log_level(Some("loud".to_string()), false), LogLevel::Info);
}

#[test]
fn dev_mode_flag() {
    assert!(AppConfig::is_dev(Some("1".to_string()), false));
    assert!(AppConfig::is_dev(Some("TRUE".to_string()), false));
    assert!(!AppConfig::is_dev(Some("yes".to_string()), true));
    assert!(AppConfig::is_dev(None, true));
    assert!(!AppConfig::is_dev(None, false));
}
