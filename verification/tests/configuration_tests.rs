use hive_status::configuration::{AppConfig, EnvInput, LogLevel};
use hive_status::text::{eq_ignore_ascii, parse_u16, parse_u64};

fn no_env() -> EnvInput {
    EnvInput {
        host: None,
        port: None,
        log_level: None,
        refresh_interval_ms: None,
        gatus_url: None,
        page_title: None,
    }
}

#[test]
fn app_config_new_uses_defaults_when_no_env_vars() {
    let config = AppConfig::new(no_env());

    assert_eq!(config.host, "0.0.0.0");
    assert_eq!(config.port, 3000);
    assert_eq!(config.gatus_url, "https://status.twin.sh");
    assert_eq!(config.page_title, "HiveStatus");
    assert_eq!(config.refresh_interval_ms, 60000);
    assert_eq!(config.log_level, LogLevel::Info);
}

#[test]
fn app_config_new_reads_env_vars() {
    let env = EnvInput {
        host: Some("127.0.0.1".to_string()),
        port: Some("8080".to_string()),
        log_level: Some("debug".to_string()),
        refresh_interval_ms: Some("10000".to_string()),
        gatus_url: Some("http://test.gatus.com".to_string()),
        page_title: Some("Custom Title".to_string()),
    };

    let config = AppConfig::new(env);

    assert_eq!(config.host, "127.0.0.1");
    assert_eq!(config.port, 8080);
    assert_eq!(config.gatus_url, "http://test.gatus.com");
    assert_eq!(config.page_title, "Custom Title");
    assert_eq!(config.refresh_interval_ms, 10000);
    assert_eq!(config.log_level, LogLevel::Debug);
}

#[test]
fn app_config_new_handles_invalid_numeric_env_vars() {
    let mut env = no_env();
    env.port = Some("invalid".to_string());
    env.refresh_interval_ms = Some("not_a_number".to_string());
    env.log_level = Some("invalid_level".to_string());

    let config = AppConfig::new(env);

    assert_eq!(config.port, 3000);
    assert_eq!(config.refresh_interval_ms, 60000);
    assert_eq!(config.log_level, LogLevel::Info);
}

#[test]
fn each_variable_resolves_independently() {
    let mut env = no_env();
    env.host = Some("10.0.0.1".to_string());
    let config = AppConfig::new(env);
    assert_eq!(config.host, "10.0.0.1");
    assert_eq!(config.port, 3000);

    let mut env = no_env();
    env.port = Some("65535".to_string());
    let config = AppConfig::new(env);
    assert_eq!(config.port, 65535);
    assert_eq!(config.host, "0.0.0.0");

    let mut env = no_env();
    env.refresh_interval_ms = Some("18446744073709551615".to_string());
    let config = AppConfig::new(env);
    assert_eq!(config.refresh_interval_ms, u64::MAX);

    let mut env = no_env();
    env.gatus_url = Some("http://localhost:9999".to_string());
    let config = AppConfig::new(env);
    assert_eq!(config.gatus_url, "http://localhost:9999");

    let mut env = no_env();
    env.page_title = Some("Board".to_string());
    let config = AppConfig::new(env);
    assert_eq!(config.page_title, "Board");

    let mut env = no_env();
    env.log_level = Some("trace".to_string());
    let config = AppConfig::new(env);
    assert_eq!(config.log_level, LogLevel::Trace);
}

#[test]
fn empty_values_fall_back_to_defaults_for_typed_fields() {
    let mut env = no_env();
    env.port = Some(String::new());
    env.refresh_interval_ms = Some(String::new());
    env.log_level = Some(String::new());
    let config = AppConfig::new(env);
    assert_eq!(config.port, 3000);
    assert_eq!(config.refresh_interval_ms, 60000);
    assert_eq!(config.log_level, LogLevel::Info);
}

#[test]
fn out_of_range_port_falls_back() {
    let mut env = no_env();
    env.port = Some("65536".to_string());
    let config = AppConfig::new(env);
    assert_eq!(config.port, 3000);
}

#[test]
fn log_level_accepts_names_of_any_case_and_digits() {
    let cases: Vec<(&str, LogLevel)> = vec![
        ("ERROR", LogLevel::Error),
        ("Warn", LogLevel::Warn),
        ("iNfO", LogLevel::Info),
        ("debug", LogLevel::Debug),
        ("TRACE", LogLevel::Trace),
        ("1", LogLevel::Error),
        ("2", LogLevel::Warn),
        ("3", LogLevel::Info),
        ("4", LogLevel::Debug),
        ("5", LogLevel::Trace),
    ];
    for (text, expected) in cases {
        let mut env = no_env();
        env.log_level = Some(text.to_string());
        let config = AppConfig::new(env);
        assert_eq!(config.log_level, expected, "for input {:?}", text);
    }

    let mut env = no_env();
    env.log_level = Some("0".to_string());
    assert_eq!(AppConfig::new(env).log_level, LogLevel::Info);

    let mut env = no_env();
    env.log_level = Some("6".to_string());
    assert_eq!(AppConfig::new(env).log_level, LogLevel::Info);
}

#[test]
fn parse_u16_matches_rust_parse() {
    assert_eq!(parse_u16("0"), Some(0));
    assert_eq!(parse_u16("+42"), Some(42));
    assert_eq!(parse_u16("65535"), Some(65535));
    assert_eq!(parse_u16("65536"), None);
    assert_eq!(parse_u16(""), None);
    assert_eq!(parse_u16("+"), None);
    assert_eq!(parse_u16("-1"), None);
    assert_eq!(parse_u16("12a"), None);
    assert_eq!(parse_u16(" 12"), None);
    assert_eq!(parse_u16("007"), Some(7));
}

#[test]
fn parse_u64_matches_rust_parse() {
    assert_eq!(parse_u64("18446744073709551615"), Some(u64::MAX));
    assert_eq!(parse_u64("18446744073709551616"), None);
    assert_eq!(parse_u64("99999999999999999999999999"), None);
    assert_eq!(parse_u64("+60000"), Some(60000));
    assert_eq!(parse_u64("6e4"), None);
}

#[test]
fn case_insensitive_comparison_is_ascii_only() {
    assert!(eq_ignore_ascii("InFo", "iNfO"));
    assert!(eq_ignore_ascii("", ""));
    assert!(!eq_ignore_ascii("info", "info "));
    assert!(!eq_ignore_ascii("warn", "wart"));
}
