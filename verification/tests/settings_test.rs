use url_monitor::settings::{
    default_url_entries, parse_bool, parse_env_settings, parse_unsigned, split_comma_fields,
    url_configs_from_entries, urls_from_config_text, ConfigError, EnvValues, RawUrlEntry,
};

fn env() -> EnvValues {
    EnvValues {
        check_interval_secs: None,
        feishu_webhook_url: Some("https://hook".to_string()),
        feishu_bot_secret: None,
        feishu_user_ids: None,
        failure_threshold: None,
        recovery_notification: None,
        parallel_checks: None,
        max_parallel_checks: None,
    }
}

fn entry(url: Option<&str>) -> RawUrlEntry {
    RawUrlEntry {
        url: url.map(|u| u.to_string()),
        expected_status: None,
        expected_keyword: None,
        timeout_secs: None,
        method: None,
        headers: Vec::new(),
        request_body: None,
        custom_alert_message: None,
    }
}

#[test]
fn unsigned_parsing() {
    assert_eq!(parse_unsigned("30", u64::MAX), Some(30));
    assert_eq!(parse_unsigned("+7", u64::MAX), Some(7));
    assert_eq!(parse_unsigned("007", u64::MAX), Some(7));
    assert_eq!(parse_unsigned("", u64::MAX), None);
    assert_eq!(parse_unsigned("+", u64::MAX), None);
    assert_eq!(parse_unsigned("-1", u64::MAX), None);
    assert_eq!(parse_unsigned(" 1", u64::MAX), None);
    assert_eq!(parse_unsigned("18446744073709551615", u64::MAX), Some(u64::MAX));
    assert_eq!(parse_unsigned("18446744073709551616", u64::MAX), None);
    assert_eq!(parse_unsigned("4294967296", u32::MAX as u64), None);
    assert_eq!(parse_unsigned("4294967295", u32::MAX as u64), Some(4294967295));
    assert_eq!(parse_unsigned("99999999999999999999x", u64::MAX), None);
}

#[test]
fn bool_parsing() {
    assert_eq!(parse_bool("true"), Some(true));
    assert_eq!(parse_bool("false"), Some(false));
    assert_eq!(parse_bool("True"), None);
    assert_eq!(parse_bool("1"), None);
}

#[test]
fn comma_fields() {
    assert_eq!(split_comma_fields("ou_a,ou_b"), vec!["ou_a", "ou_b"]);
    assert_eq!(split_comma_fields(",,a,,b,"), vec!["a", "b"]);
    assert!(split_comma_fields("").is_empty());
    assert_eq!(split_comma_fields(" a "), vec![" a "]);
}

#[test]
fn env_defaults() {
    let s = parse_env_settings(&env()).ok().expect("valid settings");
    assert_eq!(s.check_interval_secs, 30);
    assert_eq!(s.feishu_webhook_url, "https://hook");
    assert_eq!(s.feishu_secret, None);
    assert!(s.feishu_user_ids.is_empty());
    assert_eq!(s.failure_threshold, 1);
    assert!(s.recovery_notification);
    assert!(s.parallel_checks);
    assert_eq!(s.max_parallel_checks, 5);
}

#[test]
fn env_values_and_fallbacks() {
    let mut e = env();
    e.check_interval_secs = Some("60".to_string());
    e.feishu_bot_secret = Some("sec".to_string());
    e.feishu_user_ids = Some("ou_1,ou_2".to_string());
    e.failure_threshold = Some("three".to_string());
    e.recovery_notification = Some("false".to_string());
    e.parallel_checks = Some("no".to_string());
    e.max_parallel_checks = Some("8".to_string());
    let s = parse_env_settings(&e).ok().expect("valid settings");
    assert_eq!(s.check_interval_secs, 60);
    assert_eq!(s.feishu_secret, Some("sec".to_string()));
    assert_eq!(s.feishu_user_ids, vec!["ou_1", "ou_2"]);
    assert_eq!(s.failure_threshold, 1);
    assert!(!s.recovery_notification);
    assert!(s.parallel_checks);
    assert_eq!(s.max_parallel_checks, 8);
}

#[test]
fn env_errors() {
    let mut e = env();
    e.check_interval_secs = Some("soon".to_string());
    e.feishu_webhook_url = None;
    assert_eq!(parse_env_settings(&e).err(), Some(ConfigError::InvalidCheckInterval));
    let mut e = env();
    e.feishu_webhook_url = None;
    assert_eq!(parse_env_settings(&e).err(), Some(ConfigError::MissingWebhookUrl));
    assert_eq!(ConfigError::MissingWebhookUrl.message(), "请设置 FEISHU_WEBHOOK_URL 环境变量");
    assert_eq!(ConfigError::InvalidCheckInterval.message(), "无效的检查间隔");
}

#[test]
fn url_entries_to_configs() {
    let mut e = entry(Some("https://a"));
    e.expected_status = Some(65536 + 200);
    e.headers = vec![
        ("A".to_string(), Some("1".to_string())),
        ("B".to_string(), None),
        ("C".to_string(), Some("3".to_string())),
        ("A".to_string(), Some("4".to_string())),
    ];
    e.custom_alert_message = Some("{url}".to_string());
    let configs = url_configs_from_entries(&Some(vec![e])).ok().expect("valid");
    assert_eq!(configs.len(), 1);
    let c = &configs[0];
    assert_eq!(c.url, "https://a");
    assert_eq!(c.expected_status, Some(200));
    assert_eq!(c.timeout_secs, 10);
    assert_eq!(c.method, "GET");
    assert_eq!(c.headers, vec![("A".to_string(), "4".to_string()), ("C".to_string(), "3".to_string())]);
    assert_eq!(c.custom_alert_message, Some("{url}".to_string()));
}

#[test]
fn url_entry_errors() {
    assert_eq!(url_configs_from_entries(&None).err(), Some(ConfigError::MissingUrlsArray));
    assert_eq!(url_configs_from_entries(&Some(vec![])).err(), Some(ConfigError::NoUrls));
    assert_eq!(
        url_configs_from_entries(&Some(vec![entry(Some("a")), entry(None)])).err(),
        Some(ConfigError::MissingUrl)
    );
    assert_eq!(ConfigError::NoUrls.message(), "至少需要配置一个 URL");
}

#[test]
fn default_entries() {
    let entries = default_url_entries();
    assert_eq!(entries.len(), 2);
    assert_eq!(entries[0].url.as_deref(), Some("https://www.google.com"));
    assert_eq!(entries[1].expected_keyword.as_deref(), Some("GitHub"));
    let configs = url_configs_from_entries(&Some(entries)).ok().expect("valid");
    assert_eq!(configs[1].url, "https://www.github.com");
    assert_eq!(configs[1].expected_status, Some(200));
}

#[test]
fn config_text_parsing() {
    let text = r#"{"urls": [{"url": "https://a", "expected_status": 201, "timeout_secs": 5,
        "method": "POST", "headers": {"X": "1", "Y": 2}, "request_body": "b",
        "expected_keyword": "ok", "custom_alert_message": null}]}"#;
    let configs = urls_from_config_text(text).ok().expect("valid");
    assert_eq!(configs.len(), 1);
    let c = &configs[0];
    assert_eq!(c.url, "https://a");
    assert_eq!(c.expected_status, Some(201));
    assert_eq!(c.timeout_secs, 5);
    assert_eq!(c.method, "POST");
    assert_eq!(c.headers, vec![("X".to_string(), "1".to_string())]);
    assert_eq!(c.request_body, Some("b".to_string()));
    assert_eq!(c.expected_keyword, Some("ok".to_string()));
    assert_eq!(c.custom_alert_message, None);
    let defaults = urls_from_config_text(r#"{"urls": [{"url": "u", "timeout_secs": "x"}]}"#)
        .ok()
        .expect("valid");
    assert_eq!(defaults[0].timeout_secs, 10);
    assert_eq!(defaults[0].method, "GET");
    assert_eq!(urls_from_config_text("{}").err(), Some(ConfigError::MissingUrlsArray));
    assert_eq!(urls_from_config_text(r#"{"urls": []}"#).err(), Some(ConfigError::NoUrls));
    assert_eq!(urls_from_config_text(r#"{"urls": [{"method": "GET"}]}"#).err(), Some(ConfigError::MissingUrl));
    match urls_from_config_text("not json") {
        Err(e) => assert!(e.message().starts_with("解析 config.json 失败: ")),
        Ok(_) => panic!("not JSON"),
    }
}
