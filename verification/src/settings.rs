//! The monitor's settings: environment values with their defaults, and the list of
//! monitored URLs read from the configuration document.
use vstd::prelude::*;
use serde_json::Value;
use crate::feishu_client::{headers_view, opt_text_view, texts_view, UrlConfigView, UrlMonitorConfig};
use crate::monitor::MonitorConfig;
use crate::text::{chars_of, decimal, digit_char, owned};

verus! {

/// Whether every character is an ASCII decimal digit.
pub open spec fn all_digits(s: Seq<char>) -> bool {
    forall|i: int| 0 <= i < s.len() ==> '0' <= #[trigger] s[i] <= '9'
}

/// The number a string of decimal digits denotes.
pub open spec fn digits_value(s: Seq<char>) -> nat
    decreases s.len(),
{
    if s.len() == 0 {
        0
    } else {
        digits_value(s.drop_last()) * 10 + (s.last() as nat - 48) as nat
    }
}

/// The unsigned number a text denotes, as unsigned integers are parsed from text: an
/// optional `+`, then at least one decimal digit, nothing else.
pub open spec fn unsigned_value(s: Seq<char>) -> Option<nat> {
    let digits = if s.len() > 0 && s[0] == '+' {
        s.skip(1)
    } else {
        s
    };
    if digits.len() > 0 && all_digits(digits) {
        Some(digits_value(digits))
    } else {
        None
    }
}

/// The decimal rendering of a number is made of digits, starts with a digit, and
/// denotes that number.
pub proof fn lemma_decimal_digits(n: nat)
    ensures
        decimal(n).len() > 0,
        all_digits(decimal(n)),
        '0' <= decimal(n)[0] <= '9',
        digits_value(decimal(n)) == n,
        unsigned_value(decimal(n)) == Some(n),
    decreases n,
{
    if n >= 10 {
        lemma_decimal_digits(n / 10);
        let s = decimal(n / 10);
        let d = decimal(n);
        assert(d == s.push(digit_char((n % 10) as nat)));
        assert(d.drop_last() =~= s);
        assert(d[0] == s[0]);
        assert forall|i: int| 0 <= i < d.len() implies '0' <= #[trigger] d[i] <= '9' by {
            if i < s.len() {
                assert(d[i] == s[i]);
            }
        }
        assert((n / 10) * 10 + n % 10 == n);
    } else {
        assert(decimal(n).drop_last() =~= Seq::<char>::empty());
        assert(digits_value(decimal(n).drop_last()) == 0);
    }
}

/// The value of a text parsed as an unsigned integer of at most `max`.
pub open spec fn parsed_unsigned(s: Seq<char>, max: nat) -> Option<nat> {
    match unsigned_value(s) {
        Some(v) => if v <= max {
            Some(v)
        } else {
            None
        },
        None => None,
    }
}

proof fn lemma_digits_value_prefix(s: Seq<char>, k: int)
    requires
        all_digits(s),
        0 <= k <= s.len(),
    ensures
        digits_value(s.take(k)) <= digits_value(s),
    decreases s.len(),
{
    if k < s.len() {
        let t = s.drop_last();
        assert(all_digits(t)) by {
            assert forall|i: int| 0 <= i < t.len() implies '0' <= #[trigger] t[i] <= '9' by {
                assert(t[i] == s[i]);
            }
        }
        assert(t.take(k) =~= s.take(k));
        lemma_digits_value_prefix(t, k);
        assert('0' <= s[s.len() - 1]);
    } else {
        assert(s.take(k) =~= s);
    }
}

/// Parses `s` as an unsigned integer of at most `max`.
pub fn parse_unsigned(s: &str, max: u64) -> (res: Option<u64>)
    ensures
        match parsed_unsigned(s@, max as nat) {
            Some(v) => res == Some(v as u64),
            None => res is None,
        },
{
    let chars = chars_of(s);
    let n = chars.len();
    let start: usize = if n > 0 && chars[0] == '+' {
        1
    } else {
        0
    };
    let ghost digits = if s@.len() > 0 && s@[0] == '+' {
        s@.skip(1)
    } else {
        s@
    };
    assert(digits =~= chars@.skip(start as int));
    if start >= n {
        return None;
    }
    let mut value: u128 = 0;
    let mut i: usize = start;
    while i < n
        invariant
            n == chars@.len(),
            start <= i <= n,
            chars@ == s@,
            digits == (if s@.len() > 0 && s@[0] == '+' {
                s@.skip(1)
            } else {
                s@
            }),
            digits =~= chars@.skip(start as int),
            digits.len() > 0,
            all_digits(chars@.subrange(start as int, i as int)),
            value == digits_value(chars@.subrange(start as int, i as int)),
            value <= max,
        decreases n - i,
    {
        let c = chars[i];
        if !('0' <= c && c <= '9') {
            assert(digits[i - start] == c);
            return None;
        }
        let d: u128 = (c as u32 - 48) as u128;
        let ghost next = chars@.subrange(start as int, i + 1);
        assert(next.drop_last() =~= chars@.subrange(start as int, i as int));
        assert(next.last() == c);
        assert(digits_value(next) == digits_value(next.drop_last()) * 10 + d);
        value = value * 10 + d;
        assert(all_digits(next));
        if value > max as u128 {
            proof {
                assert(digits.take((i + 1 - start) as int) =~= chars@.subrange(start as int, i + 1));
                if all_digits(digits) {
                    lemma_digits_value_prefix(digits, (i + 1 - start) as int);
                }
            }
            return None;
        }
        i = i + 1;
    }
    assert(chars@.subrange(start as int, n as int) =~= digits);
    Some(value as u64)
}


/// The boolean a text denotes: exactly `true` or `false`.
pub open spec fn bool_value(s: Seq<char>) -> Option<bool> {
    if s == "true"@ {
        Some(true)
    } else if s == "false"@ {
        Some(false)
    } else {
        None
    }
}

/// Parses `s` as a boolean.
pub fn parse_bool(s: &str) -> (res: Option<bool>)
    ensures
        res == bool_value(s@),
{
    if crate::text::same_text(s, "true") {
        Some(true)
    } else if crate::text::same_text(s, "false") {
        Some(false)
    } else {
        None
    }
}

/// The non-empty pieces of `s` between commas, after the pending piece `current`.
pub open spec fn comma_fields_from(s: Seq<char>, current: Seq<char>) -> Seq<Seq<char>>
    decreases s.len(),
{
    if s.len() == 0 {
        if current.len() == 0 {
            Seq::empty()
        } else {
            seq![current]
        }
    } else if s[0] == ',' {
        (if current.len() == 0 {
            Seq::empty()
        } else {
            seq![current]
        }) + comma_fields_from(s.skip(1), Seq::empty())
    } else {
        comma_fields_from(s.skip(1), current.push(s[0]))
    }
}

/// The non-empty pieces of `s` between commas, in order.
pub open spec fn comma_fields(s: Seq<char>) -> Seq<Seq<char>> {
    comma_fields_from(s, Seq::empty())
}

/// The non-empty pieces of `s` between commas, in order.
pub fn split_comma_fields(s: &str) -> (res: Vec<String>)
    ensures
        texts_view(res@) == comma_fields(s@),
{
    let chars = chars_of(s);
    let n = chars.len();
    let mut res: Vec<String> = Vec::new();
    let mut current: Vec<char> = Vec::new();
    let mut i: usize = 0;
    assert(chars@.skip(0) =~= chars@);
    while i < n
        invariant
            n == chars@.len(),
            chars@ == s@,
            i <= n,
            texts_view(res@) + comma_fields_from(chars@.skip(i as int), current@) == comma_fields(s@),
        decreases n - i,
    {
        let ghost rest = chars@.skip(i as int);
        assert(rest.skip(1) =~= chars@.skip(i + 1));
        assert(rest[0] == chars@[i as int]);
        if chars[i] == ',' {
            if current.len() > 0 {
                let piece = crate::text::string_of(&current);
                let ghost before = res@;
                res.push(piece);
                assert(texts_view(res@) =~= texts_view(before) + seq![current@]);
            } else {
                assert(texts_view(res@) + Seq::<Seq<char>>::empty() =~= texts_view(res@));
            }
            current = Vec::new();
            assert(current@ =~= Seq::<char>::empty());
        } else {
            current.push(chars[i]);
        }
        i = i + 1;
    }
    assert(chars@.skip(n as int) =~= Seq::<char>::empty());
    if current.len() > 0 {
        let piece = crate::text::string_of(&current);
        let ghost before = res@;
        res.push(piece);
        assert(texts_view(res@) =~= texts_view(before) + seq![current@]);
    } else {
        assert(texts_view(res@) + Seq::<Seq<char>>::empty() =~= texts_view(res@));
    }
    res
}


/// The monitor's environment variables, each absent when unset (or not valid Unicode).
pub struct EnvValues {
    /// `CHECK_INTERVAL_SECS`
    pub check_interval_secs: Option<String>,
    /// `FEISHU_WEBHOOK_URL`
    pub feishu_webhook_url: Option<String>,
    /// `FEISHU_BOT_SECRET`
    pub feishu_bot_secret: Option<String>,
    /// `FEISHU_USER_IDS`
    pub feishu_user_ids: Option<String>,
    /// `FAILURE_THRESHOLD`
    pub failure_threshold: Option<String>,
    /// `RECOVERY_NOTIFICATION`
    pub recovery_notification: Option<String>,
    /// `PARALLEL_CHECKS`
    pub parallel_checks: Option<String>,
    /// `MAX_PARALLEL_CHECKS`
    pub max_parallel_checks: Option<String>,
}

/// The settings read from the environment.
pub struct EnvSettings {
    pub check_interval_secs: u64,
    pub feishu_webhook_url: String,
    pub feishu_secret: Option<String>,
    pub feishu_user_ids: Vec<String>,
    pub failure_threshold: u32,
    pub recovery_notification: bool,
    pub parallel_checks: bool,
    pub max_parallel_checks: usize,
}

/// Why the settings cannot be used.
#[derive(Debug, PartialEq, Eq)]
pub enum ConfigError {
    /// The configuration document is not JSON; the parser's description.
    Unparsable(String),
    InvalidCheckInterval,
    MissingWebhookUrl,
    MissingUrlsArray,
    MissingUrl,
    NoUrls,
}

pub open spec fn config_error_text(e: ConfigError) -> Seq<char> {
    match e {
        ConfigError::Unparsable(detail) => "解析 config.json 失败: "@ + detail@,
        ConfigError::InvalidCheckInterval => "无效的检查间隔"@,
        ConfigError::MissingWebhookUrl => "请设置 FEISHU_WEBHOOK_URL 环境变量"@,
        ConfigError::MissingUrlsArray => "config.json 中缺少 urls 数组"@,
        ConfigError::MissingUrl => "URL 配置缺少 url 字段"@,
        ConfigError::NoUrls => "至少需要配置一个 URL"@,
    }
}

impl ConfigError {
    /// The message shown for this error.
    pub fn message(&self) -> (res: String)
        ensures
            res@ == config_error_text(*self),
    {
        match self {
            ConfigError::Unparsable(detail) => {
                let mut m = owned("解析 config.json 失败: ");
                m.append(detail.as_str());
                m
            },
            ConfigError::InvalidCheckInterval => owned("无效的检查间隔"),
            ConfigError::MissingWebhookUrl => owned("请设置 FEISHU_WEBHOOK_URL 环境变量"),
            ConfigError::MissingUrlsArray => owned("config.json 中缺少 urls 数组"),
            ConfigError::MissingUrl => owned("URL 配置缺少 url 字段"),
            ConfigError::NoUrls => owned("至少需要配置一个 URL"),
        }
    }
}

/// A variable's text, or `default` when it is absent.
pub open spec fn text_or(v: Option<String>, default: Seq<char>) -> Seq<char> {
    match v {
        Some(s) => s@,
        None => default,
    }
}

/// A variable parsed as an unsigned integer of at most `max`, or `fallback` when it is
/// absent or does not parse.
pub open spec fn unsigned_or(v: Option<String>, default: Seq<char>, max: nat, fallback: nat) -> nat {
    match parsed_unsigned(text_or(v, default), max) {
        Some(n) => n,
        None => fallback,
    }
}

/// A variable parsed as a boolean, or `true` when it is absent or does not parse.
pub open spec fn flag_or_true(v: Option<String>) -> bool {
    match bool_value(text_or(v, "true"@)) {
        Some(b) => b,
        None => true,
    }
}

fn text_or_default(v: &Option<String>, default: &str) -> (res: String)
    ensures
        res@ == text_or(*v, default@),
{
    match v {
        Some(s) => s.clone(),
        None => owned(default),
    }
}

/// Reads the settings from the environment values: the check interval (default 30
/// seconds; an error when it does not parse), the webhook URL (required), the secret,
/// the users to mention (comma-separated, empty pieces dropped), the failure threshold
/// (default 1), whether to send recovery notices (default true), whether to check in
/// parallel (default true) and how many checks at most (default 5); an unparsable
/// optional value falls back to its default.
pub fn parse_env_settings(env: &EnvValues) -> (res: Result<EnvSettings, ConfigError>)
    ensures
        parsed_unsigned(text_or(env.check_interval_secs, "30"@), u64::MAX as nat) is None ==> res
            == Err::<EnvSettings, ConfigError>(ConfigError::InvalidCheckInterval),
        parsed_unsigned(text_or(env.check_interval_secs, "30"@), u64::MAX as nat) is Some
            && env.feishu_webhook_url is None ==> res == Err::<EnvSettings, ConfigError>(
            ConfigError::MissingWebhookUrl,
        ),
        parsed_unsigned(text_or(env.check_interval_secs, "30"@), u64::MAX as nat) is Some
            && env.feishu_webhook_url is Some ==> res is Ok,
        res matches Ok(s) ==> {
            &&& Some(s.check_interval_secs as nat) == parsed_unsigned(
                text_or(env.check_interval_secs, "30"@),
                u64::MAX as nat,
            )
            &&& env.feishu_webhook_url matches Some(w) && s.feishu_webhook_url@ == w@
            &&& s.feishu_secret == env.feishu_bot_secret
            &&& texts_view(s.feishu_user_ids@) == comma_fields(text_or(env.feishu_user_ids, ""@))
            &&& s.failure_threshold == unsigned_or(env.failure_threshold, "1"@, u32::MAX as nat, 1)
            &&& s.recovery_notification == flag_or_true(env.recovery_notification)
            &&& s.parallel_checks == flag_or_true(env.parallel_checks)
            &&& s.max_parallel_checks == unsigned_or(
                env.max_parallel_checks,
                "5"@,
                usize::MAX as nat,
                5,
            )
        },
{
    let interval_text = text_or_default(&env.check_interval_secs, "30");
    let check_interval_secs = match parse_unsigned(interval_text.as_str(), u64::MAX) {
        Some(v) => v,
        None => {
            return Err(ConfigError::InvalidCheckInterval);
        },
    };
    let feishu_webhook_url = match &env.feishu_webhook_url {
        Some(w) => w.clone(),
        None => {
            return Err(ConfigError::MissingWebhookUrl);
        },
    };
    let feishu_secret = crate::text::clone_opt_text(&env.feishu_bot_secret);
    let ids_text = text_or_default(&env.feishu_user_ids, "");
    let feishu_user_ids = split_comma_fields(ids_text.as_str());
    let threshold_text = text_or_default(&env.failure_threshold, "1");
    let failure_threshold: u32 = match parse_unsigned(threshold_text.as_str(), u32::MAX as u64) {
        Some(v) => v as u32,
        None => 1,
    };
    let recovery_text = text_or_default(&env.recovery_notification, "true");
    let recovery_notification = match parse_bool(recovery_text.as_str()) {
        Some(b) => b,
        None => true,
    };
    let parallel_text = text_or_default(&env.parallel_checks, "true");
    let parallel_checks = match parse_bool(parallel_text.as_str()) {
        Some(b) => b,
        None => true,
    };
    let max_text = text_or_default(&env.max_parallel_checks, "5");
    let max_parallel_checks: usize = match parse_unsigned(max_text.as_str(), usize::MAX as u64) {
        Some(v) => v as usize,
        None => 5,
    };
    Ok(
        EnvSettings {
            check_interval_secs,
            feishu_webhook_url,
            feishu_secret,
            feishu_user_ids,
            failure_threshold,
            recovery_notification,
            parallel_checks,
            max_parallel_checks,
        },
    )
}

/// The monitor's settings from those of the environment and the monitored URLs.
pub fn monitor_config(env: EnvSettings, urls: Vec<UrlMonitorConfig>) -> (res: MonitorConfig)
    ensures
        res.check_interval_secs == env.check_interval_secs,
        res.urls == urls,
        res.feishu_webhook_url == env.feishu_webhook_url,
        res.feishu_secret == env.feishu_secret,
        res.feishu_user_ids == env.feishu_user_ids,
        res.failure_threshold == env.failure_threshold,
        res.recovery_notification == env.recovery_notification,
        res.parallel_checks == env.parallel_checks,
        res.max_parallel_checks == env.max_parallel_checks,
{
    MonitorConfig {
        check_interval_secs: env.check_interval_secs,
        urls,
        feishu_webhook_url: env.feishu_webhook_url,
        feishu_secret: env.feishu_secret,
        feishu_user_ids: env.feishu_user_ids,
        failure_threshold: env.failure_threshold,
        recovery_notification: env.recovery_notification,
        parallel_checks: env.parallel_checks,
        max_parallel_checks: env.max_parallel_checks,
    }
}


/// The defaults of the optional settings: absent variables give a 30 second interval,
/// threshold 1, recovery notices and parallel checks on, at most 5 parallel checks and
/// nobody mentioned.
pub proof fn law_default_settings()
    ensures
        parsed_unsigned("30"@, u64::MAX as nat) == Some(30nat),
        unsigned_or(None, "1"@, u32::MAX as nat, 1) == 1,
        unsigned_or(None, "5"@, usize::MAX as nat, 5) == 5,
        flag_or_true(None),
        comma_fields(text_or(None, ""@)) == Seq::<Seq<char>>::empty(),
{
    reveal_strlit("30");
    reveal_strlit("1");
    reveal_strlit("5");
    reveal_strlit("true");
    reveal_strlit("");
    let thirty = "30"@;
    assert(thirty.len() == 2 && thirty[0] == '3' && thirty[1] == '0');
    assert(all_digits(thirty));
    let three = thirty.drop_last();
    assert(three.len() == 1 && three.last() == '3');
    assert(three.drop_last() =~= Seq::<char>::empty());
    assert(digits_value(three.drop_last()) == 0);
    assert(digits_value(three) == 3);
    assert(digits_value(thirty) == 30);
    let one = "1"@;
    assert(one.len() == 1 && one[0] == '1');
    assert(all_digits(one));
    assert(one.drop_last() =~= Seq::<char>::empty());
    assert(digits_value(one.drop_last()) == 0);
    assert(digits_value(one) == 1);
    let five = "5"@;
    assert(five.len() == 1 && five[0] == '5');
    assert(all_digits(five));
    assert(five.drop_last() =~= Seq::<char>::empty());
    assert(digits_value(five.drop_last()) == 0);
    assert(digits_value(five) == 5);
}


/// One entry of the `urls` array of the configuration document, as read: each field
/// present only when it has the expected JSON type (a string, or an unsigned integer),
/// and the headers with their value when it is a string.
pub struct RawUrlEntry {
    pub url: Option<String>,
    pub expected_status: Option<u64>,
    pub expected_keyword: Option<String>,
    pub timeout_secs: Option<u64>,
    pub method: Option<String>,
    pub headers: Vec<(String, Option<String>)>,
    pub request_body: Option<String>,
    pub custom_alert_message: Option<String>,
}

/// An entry of the `urls` array, as a value.
pub ghost struct RawEntryView {
    pub url: Option<Seq<char>>,
    pub expected_status: Option<u64>,
    pub expected_keyword: Option<Seq<char>>,
    pub timeout_secs: Option<u64>,
    pub method: Option<Seq<char>>,
    pub headers: Seq<(Seq<char>, Option<Seq<char>>)>,
    pub request_body: Option<Seq<char>>,
    pub custom_alert_message: Option<Seq<char>>,
}

pub open spec fn raw_headers_view(hs: Seq<(String, Option<String>)>) -> Seq<(Seq<char>, Option<Seq<char>>)> {
    hs.map_values(|h: (String, Option<String>)| (h.0@, opt_text_view(h.1)))
}

impl View for RawUrlEntry {
    type V = RawEntryView;

    open spec fn view(&self) -> RawEntryView {
        RawEntryView {
            url: opt_text_view(self.url),
            expected_status: self.expected_status,
            expected_keyword: opt_text_view(self.expected_keyword),
            timeout_secs: self.timeout_secs,
            method: opt_text_view(self.method),
            headers: raw_headers_view(self.headers@),
            request_body: opt_text_view(self.request_body),
            custom_alert_message: opt_text_view(self.custom_alert_message),
        }
    }
}

/// The index of the first header named `name`, searching from index `k` on.
pub open spec fn header_index(list: Seq<(Seq<char>, Seq<char>)>, name: Seq<char>, k: int) -> Option<int>
    decreases list.len() - k,
{
    if k < 0 || k >= list.len() {
        None
    } else if list[k].0 == name {
        Some(k)
    } else {
        header_index(list, name, k + 1)
    }
}

/// The headers with `name` set to `value`: replaced where it already is, appended
/// otherwise.
pub open spec fn set_header(list: Seq<(Seq<char>, Seq<char>)>, name: Seq<char>, value: Seq<char>) -> Seq<(Seq<char>, Seq<char>)> {
    match header_index(list, name, 0) {
        Some(j) => list.update(j, (name, value)),
        None => list.push((name, value)),
    }
}

/// The headers of an entry: its string-valued headers set in order, so that a name
/// given twice keeps its first place and its last value.
pub open spec fn merged_headers(hs: Seq<(Seq<char>, Option<Seq<char>>)>) -> Seq<(Seq<char>, Seq<char>)>
    decreases hs.len(),
{
    if hs.len() == 0 {
        Seq::empty()
    } else {
        let rest = merged_headers(hs.drop_last());
        match hs.last().1 {
            Some(v) => set_header(rest, hs.last().0, v),
            None => rest,
        }
    }
}

/// No two headers have the same name.
pub open spec fn distinct_names(list: Seq<(Seq<char>, Seq<char>)>) -> bool {
    forall|i: int, j: int| 0 <= i < j < list.len() ==> #[trigger] list[i].0 != #[trigger] list[j].0
}

/// The URL configuration an entry with a URL describes: the expected status truncated
/// to 16 bits, a 10 second timeout and the `GET` method by default, the merged
/// string-valued headers.
pub open spec fn entry_config(e: RawEntryView) -> UrlConfigView {
    UrlConfigView {
        url: e.url->0,
        expected_status: match e.expected_status {
            Some(s) => Some((s % 65536) as u16),
            None => None,
        },
        expected_keyword: e.expected_keyword,
        timeout_secs: match e.timeout_secs {
            Some(t) => t,
            None => 10,
        },
        method: match e.method {
            Some(m) => m,
            None => "GET"@,
        },
        headers: merged_headers(e.headers),
        request_body: e.request_body,
        custom_alert_message: e.custom_alert_message,
    }
}

/// The monitored URLs of a configuration document whose `urls` array (absent when the
/// document has none) holds the given entries: an error when there is no array, when an
/// entry has no URL, or when the array is empty.
pub open spec fn configs_from_document(urls: Option<Seq<RawEntryView>>) -> Result<Seq<UrlConfigView>, ConfigError> {
    match urls {
        None => Err(ConfigError::MissingUrlsArray),
        Some(es) => if exists|i: int| 0 <= i < es.len() && (#[trigger] es[i]).url is None {
            Err(ConfigError::MissingUrl)
        } else if es.len() == 0 {
            Err(ConfigError::NoUrls)
        } else {
            Ok(es.map_values(|e: RawEntryView| entry_config(e)))
        },
    }
}

pub open spec fn entries_view(urls: Option<Vec<RawUrlEntry>>) -> Option<Seq<RawEntryView>> {
    match urls {
        Some(es) => Some(es@.map_values(|e: RawUrlEntry| e@)),
        None => None,
    }
}

pub open spec fn configs_view(cs: Seq<UrlMonitorConfig>) -> Seq<UrlConfigView> {
    cs.map_values(|c: UrlMonitorConfig| c@)
}

proof fn lemma_header_index(list: Seq<(Seq<char>, Seq<char>)>, name: Seq<char>, k: int)
    requires
        0 <= k,
    ensures
        header_index(list, name, k) matches Some(j) ==> k <= j < list.len() && list[j].0 == name,
        header_index(list, name, k) is None ==> forall|j: int| k <= j < list.len() ==> list[j].0 != name,
    decreases list.len() - k,
{
    if k < list.len() && list[k].0 != name {
        lemma_header_index(list, name, k + 1);
    }
}

/// The headers of every entry have distinct names.
pub proof fn law_merged_headers_distinct(hs: Seq<(Seq<char>, Option<Seq<char>>)>)
    ensures
        distinct_names(merged_headers(hs)),
    decreases hs.len(),
{
    if hs.len() > 0 {
        law_merged_headers_distinct(hs.drop_last());
        let rest = merged_headers(hs.drop_last());
        lemma_header_index(rest, hs.last().0, 0);
    }
}

fn find_header(list: &Vec<(String, String)>, name: &String) -> (res: Option<usize>)
    ensures
        match res {
            Some(j) => j < list@.len() && header_index(headers_view(list@), name@, 0) == Some(j as int),
            None => header_index(headers_view(list@), name@, 0) is None,
        },
{
    let ghost hv = headers_view(list@);
    let n = list.len();
    for i in 0..n
        invariant
            n == list@.len(),
            hv == headers_view(list@),
            header_index(hv, name@, 0) == header_index(hv, name@, i as int),
    {
        assert(hv[i as int].0 == list@[i as int].0@);
        if crate::text::same_text(list[i].0.as_str(), name.as_str()) {
            return Some(i);
        }
    }
    None
}

fn merge_headers(headers: &Vec<(String, Option<String>)>) -> (res: Vec<(String, String)>)
    ensures
        headers_view(res@) == merged_headers(raw_headers_view(headers@)),
{
    let ghost rv = raw_headers_view(headers@);
    let mut res: Vec<(String, String)> = Vec::new();
    let n = headers.len();
    for i in 0..n
        invariant
            n == headers@.len(),
            rv == raw_headers_view(headers@),
            headers_view(res@) == merged_headers(rv.take(i as int)),
    {
        let ghost before = headers_view(res@);
        assert(rv.take(i + 1).drop_last() =~= rv.take(i as int));
        assert(rv.take(i + 1).last() == rv[i as int]);
        match &headers[i].1 {
            Some(v) => {
                let name = &headers[i].0;
                match find_header(&res, name) {
                    Some(j) => {
                        res[j] = (name.clone(), v.clone());
                        assert(headers_view(res@) =~= before.update(j as int, (name@, v@)));
                    },
                    None => {
                        res.push((name.clone(), v.clone()));
                        assert(headers_view(res@) =~= before.push((name@, v@)));
                    },
                }
            },
            None => {},
        }
    }
    assert(rv.take(n as int) =~= rv);
    res
}

fn entry_to_config(e: &RawUrlEntry, url: &String) -> (res: UrlMonitorConfig)
    requires
        e.url == Some(*url),
    ensures
        res@ == entry_config(e@),
{
    let expected_status = match e.expected_status {
        Some(s) => Some((s % 65536) as u16),
        None => None,
    };
    let timeout_secs = match e.timeout_secs {
        Some(t) => t,
        None => 10,
    };
    let method = match &e.method {
        Some(m) => m.clone(),
        None => owned("GET"),
    };
    UrlMonitorConfig {
        url: url.clone(),
        expected_status,
        expected_keyword: crate::text::clone_opt_text(&e.expected_keyword),
        timeout_secs,
        method,
        headers: merge_headers(&e.headers),
        request_body: crate::text::clone_opt_text(&e.request_body),
        custom_alert_message: crate::text::clone_opt_text(&e.custom_alert_message),
    }
}

/// The monitored URLs of a configuration document whose `urls` array (absent when the
/// document has none) holds the given entries.
pub fn url_configs_from_entries(urls: &Option<Vec<RawUrlEntry>>) -> (res: Result<Vec<UrlMonitorConfig>, ConfigError>)
    ensures
        match configs_from_document(entries_view(*urls)) {
            Ok(vs) => res matches Ok(cs) && configs_view(cs@) == vs,
            Err(e) => res == Err::<Vec<UrlMonitorConfig>, ConfigError>(e),
        },
        res matches Ok(cs) ==> forall|i: int|
            0 <= i < cs@.len() ==> distinct_names(#[trigger] headers_view(cs@[i].headers@)),
{
    let entries = match urls {
        Some(es) => es,
        None => {
            return Err(ConfigError::MissingUrlsArray);
        },
    };
    let ghost ev = entries@.map_values(|e: RawUrlEntry| e@);
    let mut configs: Vec<UrlMonitorConfig> = Vec::new();
    let n = entries.len();
    for i in 0..n
        invariant
            n == entries@.len(),
            urls == Some(*entries),
            ev == entries@.map_values(|e: RawUrlEntry| e@),
            configs@.len() == i,
            forall|j: int| 0 <= j < i ==> (#[trigger] ev[j]).url is Some,
            forall|j: int| 0 <= j < i ==> #[trigger] configs@[j]@ == entry_config(ev[j]),
            forall|j: int|
                0 <= j < i ==> distinct_names(#[trigger] headers_view(configs@[j].headers@)),
    {
        assert(ev[i as int] == entries@[i as int]@);
        match &entries[i].url {
            Some(url) => {
                let c = entry_to_config(&entries[i], url);
                proof {
                    law_merged_headers_distinct(ev[i as int].headers);
                }
                configs.push(c);
            },
            None => {
                assert(ev[i as int].url is None);
                return Err(ConfigError::MissingUrl);
            },
        }
    }
    if configs.len() == 0 {
        return Err(ConfigError::NoUrls);
    }
    assert(configs_view(configs@) =~= ev.map_values(|e: RawEntryView| entry_config(e)));
    Ok(configs)
}

pub open spec fn document_view(r: Result<Option<Vec<RawUrlEntry>>, String>) -> Result<Option<Seq<RawEntryView>>, Seq<char>> {
    match r {
        Ok(urls) => Ok(entries_view(urls)),
        Err(e) => Err(e@),
    }
}

/// What `parse_config_document` reads from a configuration document's text: the
/// parser's error description, or the entries of its `urls` array (absent when there is
/// no such array).
pub uninterp spec fn config_document(text: Seq<char>) -> Result<Option<Seq<RawEntryView>>, Seq<char>>;

/// Parses `text` with `serde_json::from_str::<serde_json::Value>` (an error becomes its
/// `to_string`), then takes `["urls"].as_array()` and converts each element field by field
/// (`as_str`, `as_u64`, and `as_object` for the headers). Claims only that the result is
/// `config_document(text)`, a function of the text alone.
#[verifier::external_body]
pub(crate) fn parse_config_document(text: &str) -> (res: Result<Option<Vec<RawUrlEntry>>, String>)
    ensures
        document_view(res) == config_document(text@),
{
    let doc: Value = serde_json::from_str(text).map_err(|e| e.to_string())?;
    Ok(doc["urls"].as_array().map(|urls| urls.iter().map(|c| {
        let s = |k: &str| c[k].as_str().map(String::from);
        RawUrlEntry {
            url: s("url"), expected_status: c["expected_status"].as_u64(),
            expected_keyword: s("expected_keyword"), timeout_secs: c["timeout_secs"].as_u64(),
            method: s("method"), request_body: s("request_body"),
            custom_alert_message: s("custom_alert_message"),
            headers: c["headers"].as_object().map_or(vec![], |o| o.iter()
                .map(|(k, v)| (k.clone(), v.as_str().map(String::from))).collect()),
        }
    }).collect()))
}

/// The monitored URLs described by the text of a configuration document: an error when
/// it is not JSON, otherwise what its `urls` array gives.
pub fn urls_from_config_text(text: &str) -> (res: Result<Vec<UrlMonitorConfig>, ConfigError>)
    ensures
        config_document(text@) matches Err(e) ==> (res matches Err(ConfigError::Unparsable(d))
            && d@ == e),
        config_document(text@) matches Ok(urls) ==> match configs_from_document(urls) {
            Ok(vs) => res matches Ok(cs) && configs_view(cs@) == vs,
            Err(e) => res == Err::<Vec<UrlMonitorConfig>, ConfigError>(e),
        },
{
    match parse_config_document(text) {
        Err(detail) => Err(ConfigError::Unparsable(detail)),
        Ok(urls) => url_configs_from_entries(&urls),
    }
}

/// The entries of the configuration document written when there is none: Google, and
/// GitHub with the keyword `GitHub`, both expecting status 200 within 10 seconds by `GET`.
pub fn default_url_entries() -> (res: Vec<RawUrlEntry>)
    ensures
        res@.len() == 2,
        res@[0].url matches Some(u) && u@ == "https://www.google.com"@,
        res@[0].expected_keyword is None,
        res@[1].url matches Some(u) && u@ == "https://www.github.com"@,
        res@[1].expected_keyword matches Some(k) && k@ == "GitHub"@,
        forall|i: int|
            0 <= i < 2 ==> {
                &&& #[trigger] res@[i].expected_status == Some(200u64)
                &&& res@[i].timeout_secs == Some(10u64)
                &&& res@[i].method matches Some(m) && m@ == "GET"@
                &&& res@[i].headers@.len() == 0
                &&& res@[i].request_body is None
                &&& res@[i].custom_alert_message is None
            },
{
    let google = RawUrlEntry {
        url: Some(owned("https://www.google.com")),
        expected_status: Some(200),
        expected_keyword: None,
        timeout_secs: Some(10),
        method: Some(owned("GET")),
        headers: Vec::new(),
        request_body: None,
        custom_alert_message: None,
    };
    let github = RawUrlEntry {
        url: Some(owned("https://www.github.com")),
        expected_status: Some(200),
        expected_keyword: Some(owned("GitHub")),
        timeout_secs: Some(10),
        method: Some(owned("GET")),
        headers: Vec::new(),
        request_body: None,
        custom_alert_message: None,
    };
    vec![google, github]
}

} // verus!
