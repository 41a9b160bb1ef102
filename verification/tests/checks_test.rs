use url_monitor::checks::{
    check_result_line, check_result_line_at, judge_body, judge_send_failure, judge_status,
    request_method, HttpMethod, SendFailure, StatusVerdict,
};
use url_monitor::feishu_client::{CheckResult, UrlMonitorConfig};
use url_monitor::text::{contains, replace};

fn config(method: &str, expected_status: Option<u16>, keyword: Option<&str>) -> UrlMonitorConfig {
    UrlMonitorConfig {
        url: "https://x".to_string(),
        expected_status,
        expected_keyword: keyword.map(|k| k.to_string()),
        timeout_secs: 7,
        method: method.to_string(),
        headers: Vec::new(),
        request_body: None,
        custom_alert_message: None,
    }
}

fn failure(f: impl Fn(&mut SendFailure)) -> SendFailure {
    let mut s = SendFailure {
        is_connect: false,
        is_timeout: false,
        is_request: false,
        is_redirect: false,
        is_body: false,
        is_decode: false,
        detail: "d".to_string(),
    };
    f(&mut s);
    s
}

#[test]
fn methods() {
    assert_eq!(request_method(&config("get", None, None)).ok(), Some(HttpMethod::Get));
    assert_eq!(request_method(&config("Post", None, None)).ok(), Some(HttpMethod::Post));
    assert_eq!(request_method(&config("HEAD", None, None)).ok(), Some(HttpMethod::Head));
    assert_eq!(request_method(&config("patch", None, None)).ok(), Some(HttpMethod::Patch));
    let err = request_method(&config("fetch", None, None)).err().expect("unsupported");
    assert!(!err.success);
    assert_eq!(err.error_message, Some("不支持的 HTTP 方法: fetch".to_string()));
    assert_eq!(err.response_time_ms, 0);
    let err = request_method(&config("foo", None, None)).err().expect("unsupported");
    assert_eq!(err.url, "https://x".to_string());
    assert_eq!(err.status_code, None);
    assert_eq!(err.error_message, Some("不支持的 HTTP 方法: foo".to_string()));
}

#[test]
fn cloned_config_is_equal_field_by_field() {
    let mut c = config("POST", Some(201), Some("ok"));
    c.headers = vec![("A".to_string(), "1".to_string()), ("B".to_string(), "2".to_string())];
    c.request_body = Some("{}".to_string());
    c.custom_alert_message = Some("down".to_string());
    let d = c.clone();
    assert_eq!(d.url, c.url);
    assert_eq!(d.expected_status, Some(201));
    assert_eq!(d.expected_keyword, Some("ok".to_string()));
    assert_eq!(d.timeout_secs, 7);
    assert_eq!(d.method, "POST".to_string());
    assert_eq!(d.headers, c.headers);
    assert_eq!(d.request_body, Some("{}".to_string()));
    assert_eq!(d.custom_alert_message, Some("down".to_string()));
}

#[test]
fn statuses() {
    match judge_status(&config("GET", None, None), 204, 9) {
        StatusVerdict::Done(r) => {
            assert!(r.success);
            assert_eq!(r.status_code, Some(204));
        }
        StatusVerdict::ReadBody => panic!("no keyword"),
    }
    match judge_status(&config("GET", None, None), 301, 9) {
        StatusVerdict::Done(r) => {
            assert!(!r.success);
            assert_eq!(r.error_message, Some("意外的状态码: 301 (期望: 2xx)".to_string()));
        }
        StatusVerdict::ReadBody => panic!("rejected"),
    }
    match judge_status(&config("GET", Some(201), None), 200, 9) {
        StatusVerdict::Done(r) => {
            assert_eq!(r.error_message, Some("意外的状态码: 200 (期望: 201)".to_string()));
        }
        StatusVerdict::ReadBody => panic!("rejected"),
    }
    assert!(matches!(judge_status(&config("GET", Some(404), Some("k")), 404, 1), StatusVerdict::ReadBody));
}

#[test]
fn bodies() {
    let c = config("GET", None, Some("GitHub"));
    assert!(judge_body(&c, 200, &Ok("<title>GitHub</title>".to_string()), 5).success);
    let miss = judge_body(&c, 200, &Ok("nothing".to_string()), 5);
    assert_eq!(miss.error_message, Some("响应中未找到关键词: 'GitHub'".to_string()));
    let broken = judge_body(&c, 200, &Err("eof".to_string()), 5);
    assert_eq!(broken.error_message, Some("读取响应体失败: eof".to_string()));
    assert_eq!(broken.status_code, Some(200));
}

#[test]
fn send_failures() {
    let c = config("GET", None, None);
    let r = judge_send_failure(&c, &failure(|f| { f.is_connect = true; f.is_timeout = true; }), 4);
    assert_eq!(r.error_message, Some("连接失败: d".to_string()));
    let r = judge_send_failure(&c, &failure(|f| f.is_timeout = true), 4);
    assert_eq!(r.error_message, Some("请求超时 (超过7秒)".to_string()));
    let r = judge_send_failure(&c, &failure(|f| f.is_decode = true), 4);
    assert_eq!(r.error_message, Some("解码错误: d".to_string()));
    let r = judge_send_failure(&c, &failure(|_| {}), 4);
    assert_eq!(r.error_message, Some("网络错误: d".to_string()));
    assert_eq!(r.status_code, None);
    assert_eq!(r.response_time_ms, 4);
}

#[test]
fn log_lines() {
    let ok = CheckResult {
        url: "https://x".to_string(),
        status_code: Some(200),
        error_message: None,
        response_time_ms: 15,
        success: true,
    };
    assert_eq!(check_result_line_at(&ok, "T"), "[T] ✅ https://x - 状态码: Some(200) (15ms)");
    let bad = CheckResult {
        url: "https://x".to_string(),
        status_code: None,
        error_message: None,
        response_time_ms: 0,
        success: false,
    };
    assert_eq!(check_result_line_at(&bad, "T"), "[T] ❌ https://x - 失败: 未知错误 (0ms)");
    assert!(check_result_line(&ok).ends_with("] ✅ https://x - 状态码: Some(200) (15ms)"));
}

#[test]
fn text_helpers() {
    assert_eq!(replace("aaa", "aa", "b"), "ba");
    assert_eq!(replace("x{url}y{url}", "{url}", "U"), "xUyU");
    assert_eq!(replace("abc", "zz", "q"), "abc");
    assert!(contains("hello", "ll"));
    assert!(contains("hello", ""));
    assert!(!contains("he", "hello"));
    assert!(contains("中文字符", "字"));
}
