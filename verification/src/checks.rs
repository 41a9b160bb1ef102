//! The decisions of one URL check: which request to make, and what the response, the
//! reply body or the transport error mean for the result.
use vstd::prelude::*;
use crate::clock::{clock_now, is_date_time_text};
use crate::feishu_client::{opt_text_view, status_is_success, CheckResult, UrlMonitorConfig};
use crate::text::{contains, decimal, decimal_text, occurs_in, owned, push_decimal, same_text};

verus! {

/// A check result, as a value.
pub ghost struct CheckView {
    pub url: Seq<char>,
    pub status_code: Option<u16>,
    pub error_message: Option<Seq<char>>,
    pub response_time_ms: u64,
    pub success: bool,
}

impl View for CheckResult {
    type V = CheckView;

    open spec fn view(&self) -> CheckView {
        CheckView {
            url: self.url@,
            status_code: self.status_code,
            error_message: opt_text_view(self.error_message),
            response_time_ms: self.response_time_ms,
            success: self.success,
        }
    }
}

/// The HTTP methods a URL can be checked with.
#[derive(Clone, Copy, Debug, PartialEq, Eq, Structural)]
pub enum HttpMethod {
    Get,
    Post,
    Put,
    Delete,
    Patch,
    Head,
}

/// The Unicode upper-case form of a text (as `str::to_uppercase` computes it).
pub uninterp spec fn upper_case(s: Seq<char>) -> Seq<char>;

/// Whether every character is ASCII.
pub open spec fn all_ascii(s: Seq<char>) -> bool {
    forall|i: int| 0 <= i < s.len() ==> (#[trigger] s[i] as int) < 128
}

/// The text with its ASCII lower-case letters made upper-case.
pub open spec fn ascii_upper(s: Seq<char>) -> Seq<char> {
    s.map_values(|c: char| if 'a' <= c <= 'z' { ((c as int) - 32) as char } else { c })
}

/// Calls `str::to_uppercase`. Claims that the result is `upper_case(s)`, a function of
/// the text alone (std maps each character by the Unicode case tables), and that an ASCII
/// text has its letters `a`–`z` made `A`–`Z` and its other characters kept.
#[verifier::external_body]
fn to_upper_case(s: &str) -> (res: String)
    ensures
        res@ == upper_case(s@),
        all_ascii(s@) ==> res@ == ascii_upper(s@),
{
    s.to_uppercase()
}

/// The method an upper-case method name stands for.
pub open spec fn method_named(name: Seq<char>) -> Option<HttpMethod> {
    if name == "GET"@ {
        Some(HttpMethod::Get)
    } else if name == "POST"@ {
        Some(HttpMethod::Post)
    } else if name == "PUT"@ {
        Some(HttpMethod::Put)
    } else if name == "DELETE"@ {
        Some(HttpMethod::Delete)
    } else if name == "PATCH"@ {
        Some(HttpMethod::Patch)
    } else if name == "HEAD"@ {
        Some(HttpMethod::Head)
    } else {
        None
    }
}

/// A failed result for `config`'s URL.
pub open spec fn failure_view(config: UrlMonitorConfig, status_code: Option<u16>, error: Seq<char>, response_time_ms: u64) -> CheckView {
    CheckView { url: config.url@, status_code, error_message: Some(error), response_time_ms, success: false }
}

/// A successful result for `config`'s URL.
pub open spec fn success_view(config: UrlMonitorConfig, status_code: u16, response_time_ms: u64) -> CheckView {
    CheckView { url: config.url@, status_code: Some(status_code), error_message: None, response_time_ms, success: true }
}

fn failure(config: &UrlMonitorConfig, status_code: Option<u16>, error: String, response_time_ms: u64) -> (res: CheckResult)
    ensures
        res@ == failure_view(*config, status_code, error@, response_time_ms),
{
    CheckResult { url: config.url.clone(), success: false, status_code, error_message: Some(error), response_time_ms }
}

fn success(config: &UrlMonitorConfig, status_code: u16, response_time_ms: u64) -> (res: CheckResult)
    ensures
        res@ == success_view(*config, status_code, response_time_ms),
{
    CheckResult { url: config.url.clone(), success: true, status_code: Some(status_code), error_message: None, response_time_ms }
}

/// The request method for `config`, or, for a method that is not supported, the failed
/// result that reports it (taking no time).
pub fn request_method(config: &UrlMonitorConfig) -> (res: Result<HttpMethod, CheckResult>)
    ensures
        match method_named(upper_case(config.method@)) {
            Some(m) => res == Ok::<HttpMethod, CheckResult>(m),
            None => res matches Err(r) && r@ == failure_view(
                *config,
                None,
                "不支持的 HTTP 方法: "@ + config.method@,
                0,
            ),
        },
        all_ascii(config.method@) ==> match method_named(ascii_upper(config.method@)) {
            Some(m) => res == Ok::<HttpMethod, CheckResult>(m),
            None => res matches Err(r) && r@ == failure_view(
                *config,
                None,
                "不支持的 HTTP 方法: "@ + config.method@,
                0,
            ),
        },
{
    let upper = to_upper_case(config.method.as_str());
    let name = upper.as_str();
    if same_text(name, "GET") {
        Ok(HttpMethod::Get)
    } else if same_text(name, "POST") {
        Ok(HttpMethod::Post)
    } else if same_text(name, "PUT") {
        Ok(HttpMethod::Put)
    } else if same_text(name, "DELETE") {
        Ok(HttpMethod::Delete)
    } else if same_text(name, "PATCH") {
        Ok(HttpMethod::Patch)
    } else if same_text(name, "HEAD") {
        Ok(HttpMethod::Head)
    } else {
        let mut error = owned("不支持的 HTTP 方法: ");
        error.append(config.method.as_str());
        Err(failure(config, None, error, 0))
    }
}

/// What a response status leads to: a finished result, or reading the body to look
/// for the expected keyword.
pub enum StatusVerdict {
    Done(CheckResult),
    ReadBody,
}

/// Whether the status is the expected one (any 2xx when none is configured).
pub open spec fn status_accepted(expected: Option<u16>, status: u16) -> bool {
    match expected {
        Some(e) => status == e,
        None => status_is_success(status),
    }
}

/// The error of an unexpected status.
pub open spec fn unexpected_status_error(expected: Option<u16>, status: u16) -> Seq<char> {
    "意外的状态码: "@ + decimal(status as nat) + " (期望: "@ + match expected {
        Some(e) => decimal(e as nat),
        None => "2xx"@,
    } + ")"@
}

/// Judges the response status of a check that took `response_time_ms`.
pub fn judge_status(config: &UrlMonitorConfig, status: u16, response_time_ms: u64) -> (res: StatusVerdict)
    ensures
        !status_accepted(config.expected_status, status) ==> (res matches StatusVerdict::Done(r)
            && r@ == failure_view(
            *config,
            Some(status),
            unexpected_status_error(config.expected_status, status),
            response_time_ms,
        )),
        status_accepted(config.expected_status, status) && config.expected_keyword is Some ==> res
            is ReadBody,
        status_accepted(config.expected_status, status) && config.expected_keyword is None ==> (res
            matches StatusVerdict::Done(r) && r@ == success_view(*config, status, response_time_ms)),
{
    let accepted = match config.expected_status {
        Some(e) => status == e,
        None => 200 <= status && status <= 299,
    };
    if !accepted {
        let mut error = owned("意外的状态码: ");
        push_decimal(&mut error, status as u64);
        error.append(" (期望: ");
        match config.expected_status {
            Some(e) => push_decimal(&mut error, e as u64),
            None => error.append("2xx"),
        }
        error.append(")");
        return StatusVerdict::Done(failure(config, Some(status), error, response_time_ms));
    }
    match config.expected_keyword {
        Some(_) => StatusVerdict::ReadBody,
        None => StatusVerdict::Done(success(config, status, response_time_ms)),
    }
}

/// The result once the body of an accepted response was read (or failed to be read,
/// with the given error text): a success when the expected keyword occurs in it.
pub open spec fn body_result(config: UrlMonitorConfig, status: u16, body: Result<Seq<char>, Seq<char>>, response_time_ms: u64) -> CheckView {
    match config.expected_keyword {
        None => success_view(config, status, response_time_ms),
        Some(k) => match body {
            Ok(b) => if occurs_in(b, k@) {
                success_view(config, status, response_time_ms)
            } else {
                failure_view(config, Some(status), "响应中未找到关键词: '"@ + k@ + "'"@, response_time_ms)
            },
            Err(e) => failure_view(config, Some(status), "读取响应体失败: "@ + e, response_time_ms),
        },
    }
}

pub open spec fn body_view(body: Result<String, String>) -> Result<Seq<char>, Seq<char>> {
    match body {
        Ok(b) => Ok(b@),
        Err(e) => Err(e@),
    }
}

/// Judges the body of an accepted response.
pub fn judge_body(config: &UrlMonitorConfig, status: u16, body: &Result<String, String>, response_time_ms: u64) -> (res: CheckResult)
    ensures
        res@ == body_result(*config, status, body_view(*body), response_time_ms),
{
    match &config.expected_keyword {
        None => success(config, status, response_time_ms),
        Some(keyword) => match body {
            Ok(text) => {
                if contains(text.as_str(), keyword.as_str()) {
                    success(config, status, response_time_ms)
                } else {
                    let mut error = owned("响应中未找到关键词: '");
                    error.append(keyword.as_str());
                    error.append("'");
                    failure(config, Some(status), error, response_time_ms)
                }
            },
            Err(e) => {
                let mut error = owned("读取响应体失败: ");
                error.append(e.as_str());
                failure(config, Some(status), error, response_time_ms)
            },
        },
    }
}

/// What a request that got no response reports about itself: the kinds of failure it
/// belongs to, and its own description.
pub struct SendFailure {
    pub is_connect: bool,
    pub is_timeout: bool,
    pub is_request: bool,
    pub is_redirect: bool,
    pub is_body: bool,
    pub is_decode: bool,
    pub detail: String,
}

/// The error of a request that got no response: the first kind that applies, in the
/// order connect, timeout, request, redirect, body, decode.
pub open spec fn send_failure_error(f: SendFailure, timeout_secs: u64) -> Seq<char> {
    if f.is_connect {
        "连接失败: "@ + f.detail@
    } else if f.is_timeout {
        "请求超时 (超过"@ + decimal(timeout_secs as nat) + "秒)"@
    } else if f.is_request {
        "请求错误: "@ + f.detail@
    } else if f.is_redirect {
        "重定向错误: "@ + f.detail@
    } else if f.is_body {
        "响应体读取错误: "@ + f.detail@
    } else if f.is_decode {
        "解码错误: "@ + f.detail@
    } else {
        "网络错误: "@ + f.detail@
    }
}

/// Judges a request that got no response.
pub fn judge_send_failure(config: &UrlMonitorConfig, f: &SendFailure, response_time_ms: u64) -> (res: CheckResult)
    ensures
        res@ == failure_view(*config, None, send_failure_error(*f, config.timeout_secs), response_time_ms),
{
    let error = if f.is_connect {
        let mut e = owned("连接失败: ");
        e.append(f.detail.as_str());
        e
    } else if f.is_timeout {
        let mut e = owned("请求超时 (超过");
        push_decimal(&mut e, config.timeout_secs);
        e.append("秒)");
        e
    } else if f.is_request {
        let mut e = owned("请求错误: ");
        e.append(f.detail.as_str());
        e
    } else if f.is_redirect {
        let mut e = owned("重定向错误: ");
        e.append(f.detail.as_str());
        e
    } else if f.is_body {
        let mut e = owned("响应体读取错误: ");
        e.append(f.detail.as_str());
        e
    } else if f.is_decode {
        let mut e = owned("解码错误: ");
        e.append(f.detail.as_str());
        e
    } else {
        let mut e = owned("网络错误: ");
        e.append(f.detail.as_str());
        e
    };
    failure(config, None, error, response_time_ms)
}

/// The debug form of an optional status code: `Some(code)` or `None`.
pub open spec fn status_debug(status: Option<u16>) -> Seq<char> {
    match status {
        Some(c) => "Some("@ + decimal(c as nat) + ")"@,
        None => "None"@,
    }
}

/// The log line of a check result at the given time.
pub open spec fn result_line(r: CheckView, time: Seq<char>) -> Seq<char> {
    if r.success {
        "["@ + time + "] ✅ "@ + r.url + " - 状态码: "@ + status_debug(r.status_code) + " ("@
            + decimal(r.response_time_ms as nat) + "ms)"@
    } else {
        "["@ + time + "] ❌ "@ + r.url + " - 失败: "@ + match r.error_message {
            Some(e) => e,
            None => "未知错误"@,
        } + " ("@ + decimal(r.response_time_ms as nat) + "ms)"@
    }
}

/// The log line of a check result at the given time.
pub fn check_result_line_at(r: &CheckResult, time: &str) -> (line: String)
    ensures
        line@ == result_line(r@, time@),
{
    let mut line = owned("[");
    line.append(time);
    if r.success {
        line.append("] ✅ ");
        line.append(r.url.as_str());
        line.append(" - 状态码: ");
        match r.status_code {
            Some(c) => {
                line.append("Some(");
                push_decimal(&mut line, c as u64);
                line.append(")");
            },
            None => line.append("None"),
        }
    } else {
        line.append("] ❌ ");
        line.append(r.url.as_str());
        line.append(" - 失败: ");
        match &r.error_message {
            Some(e) => line.append(e.as_str()),
            None => line.append("未知错误"),
        }
    }
    line.append(" (");
    push_decimal(&mut line, r.response_time_ms);
    line.append("ms)");
    line
}

/// The log line of a check result, at the current local time.
pub fn check_result_line(r: &CheckResult) -> (line: String)
    ensures
        exists|time: Seq<char>| is_date_time_text(time) && line@ == #[trigger] result_line(r@, time),
{
    let now = clock_now();
    check_result_line_at(r, now.text.as_str())
}

} // verus!
