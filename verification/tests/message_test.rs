use url_monitor::feishu_client::{
    check_delivery, delivery_outcome, prepare_message, signature_at, CheckResult, FeishuConfig,
    FeishuContentBlock, FeishuMessageBuilder, FeishuReply, UrlMonitorConfig,
};
use url_monitor::messages::{
    custom_report_message, render_template, service_notification, service_notification_at,
    simple_message, table_message, triple_column_table,
};

fn result(url: &str, success: bool, status: Option<u16>, error: Option<&str>, ms: u64) -> CheckResult {
    CheckResult {
        url: url.to_string(),
        status_code: status,
        error_message: error.map(|e| e.to_string()),
        response_time_ms: ms,
        success,
    }
}

fn url_config(url: &str, template: Option<&str>) -> UrlMonitorConfig {
    UrlMonitorConfig {
        url: url.to_string(),
        expected_status: Some(200),
        expected_keyword: None,
        timeout_secs: 10,
        method: "GET".to_string(),
        headers: Vec::new(),
        request_body: None,
        custom_alert_message: template.map(|t| t.to_string()),
    }
}

#[test]
fn content_of_text_and_custom_blocks() {
    let b = FeishuMessageBuilder::new("T").add_text("a").add_custom_message("b");
    assert_eq!(b.build_content(), "a\nb\n");
}

#[test]
fn content_of_url_info_block() {
    let b = FeishuMessageBuilder::new("T").add_url_info("https://x", Some(503), Some("down"), 1234);
    assert_eq!(
        b.build_content(),
        "\n**https://x**\n- 状态码: 503\n- 错误: down\n- 响应时间: 1234ms\n"
    );
    let b = FeishuMessageBuilder::new("T").add_url_info("u", None, None, 0);
    assert_eq!(b.build_content(), "\n**u**\n- 响应时间: 0ms\n");
}

#[test]
fn content_of_sections() {
    let nested = FeishuContentBlock::Section(vec![
        FeishuContentBlock::Text("n1".to_string()),
        FeishuContentBlock::UrlInfo {
            url: "skip".to_string(),
            status_code: None,
            error_message: None,
            response_time_ms: 1,
        },
        FeishuContentBlock::CustomMessage("n2".to_string()),
    ]);
    let b = FeishuMessageBuilder::new("T").add_section(vec![
        FeishuContentBlock::Text("s1".to_string()),
        FeishuContentBlock::UrlInfo {
            url: "hidden".to_string(),
            status_code: Some(1),
            error_message: None,
            response_time_ms: 2,
        },
        FeishuContentBlock::CustomMessage("s2".to_string()),
        nested,
    ]);
    assert_eq!(b.build_content(), "s1s2n1n2\n");
}

#[test]
fn content_of_mentions() {
    let b = FeishuMessageBuilder::new("T")
        .add_text("hi")
        .add_at_user("u1")
        .add_at_users(vec!["u2".to_string(), "u3".to_string()]);
    assert_eq!(b.at_users, vec!["u1", "u2", "u3"]);
    assert_eq!(b.build_content(), "hi\n\n<at id=u1></at> <at id=u2></at> <at id=u3></at>");
    let empty = FeishuMessageBuilder::new("T");
    assert_eq!(empty.build_content(), "");
}

#[test]
fn signature_of_known_timestamps() {
    let (ts, sign) = signature_at(1700000000, "test_secret");
    assert_eq!(ts, "1700000000");
    assert_eq!(sign, "gg67k4NhGu87ukJvWeSIgT+qsHbI+eWjbPP+KE/Nq6M=");
    let (ts, sign) = signature_at(-5, "test_secret");
    assert_eq!(ts, "-5");
    assert_eq!(sign, "YrzpAijAVraI9Tl5D0FVoLP2L2FpZ031DK2E4L19ny4=");
    let (ts, sign) = signature_at(0, "test_secret");
    assert_eq!(ts, "0");
    assert_eq!(sign, "34aMt6YLejDks9oavntq6TLkDnneU8kzRW7ibytCmes=");
    assert_eq!(signature_at(i64::MIN, "s").0, "-9223372036854775808");
}

#[test]
fn payload_is_signed_only_with_a_secret() {
    let b = FeishuMessageBuilder::new("Title").add_text("x");
    let plain = prepare_message(&FeishuConfig::new("https://hook".to_string(), None), &b);
    assert_eq!(plain.webhook_url, "https://hook");
    assert_eq!(plain.payload.msg_type, "post");
    assert_eq!(plain.payload.title, "Title");
    assert_eq!(plain.payload.text, "x\n");
    assert!(plain.payload.signature.is_none());
    let signed = prepare_message(
        &FeishuConfig::new("https://hook".to_string(), Some("test_secret".to_string())),
        &b,
    );
    let sig = signed.payload.signature.expect("signed");
    let ts: i64 = sig.timestamp.parse().unwrap();
    assert_eq!(sig.sign, signature_at(ts, "test_secret").1);
}

#[test]
fn reply_inspection() {
    assert_eq!(check_delivery(500, "500 Internal Server Error", "{\"code\":0,\"msg\":\"success\"}"), Ok(()));
    assert_eq!(
        check_delivery(200, "200 OK", "{\"code\":19021,\"msg\":\"sign match fail\"}"),
        Err("飞书通知发送失败: 飞书API错误 - 代码: 19021, 消息: \"sign match fail\"".to_string())
    );
    assert_eq!(
        check_delivery(200, "200 OK", "{\"code\":1}"),
        Err("飞书通知发送失败: 飞书API错误 - 代码: 1, 响应: {\"code\":1}".to_string())
    );
    assert_eq!(
        check_delivery(200, "200 OK", "{\"code\":\"0\"}"),
        Err("飞书通知发送失败: 飞书API错误 - 代码: \"0\", 响应: {\"code\":\"0\"}".to_string())
    );
    assert_eq!(check_delivery(204, "204 No Content", "oops"), Ok(()));
    assert_eq!(check_delivery(200, "200 OK", "[1,2]"), Ok(()));
    assert_eq!(
        check_delivery(404, "404 Not Found", "{\"ok\":true}"),
        Err("飞书通知发送失败: HTTP 404 Not Found: {\"ok\":true}".to_string())
    );
}

#[test]
fn delivery_outcomes() {
    let ok = FeishuReply::Code { code: Some(0), code_text: "0".to_string(), msg_text: None };
    assert_eq!(delivery_outcome(500, "500 Internal Server Error", "b", &ok), Ok(()));
    let bad = FeishuReply::Code { code: None, code_text: "1.5".to_string(), msg_text: Some("\"m\"".to_string()) };
    assert_eq!(
        delivery_outcome(200, "200 OK", "b", &bad),
        Err("飞书通知发送失败: 飞书API错误 - 代码: 1.5, 消息: \"m\"".to_string())
    );
    assert_eq!(delivery_outcome(299, "299", "b", &FeishuReply::NoCode), Ok(()));
    assert_eq!(
        delivery_outcome(300, "300 Multiple Choices", "b", &FeishuReply::NotJson),
        Err("飞书通知发送失败: HTTP 300 Multiple Choices: b".to_string())
    );
}

#[test]
fn alert_with_default_blocks() {
    let results = vec![
        result("https://a", false, Some(500), Some("boom"), 12),
        result("https://b", true, Some(200), None, 7),
    ];
    let configs = vec![url_config("https://a", None)];
    let times = vec!["t1".to_string(), "t2".to_string()];
    let b = service_notification_at(&results, false, &configs, &vec![], "2024-01-01 00:00:00", &times);
    assert_eq!(b.title, "🚨 服务异常告警");
    assert_eq!(
        b.build_content(),
        "⏰ 时间: 2024-01-01 00:00:00\n以下服务出现异常\n\n**https://a**\n- 状态码: 500\n- 错误: boom\n- 响应时间: 12ms\n✅ https://b - 恢复成功 (7ms)\n"
    );
}

#[test]
fn recovery_with_template() {
    let results = vec![result("https://a", true, None, None, 30)];
    let configs = vec![
        url_config("https://a", Some("{url}|{status_code}|{error_message}|{response_time}|{timestamp}|{status}|{url}")),
        url_config("https://a", Some("second config is not used")),
    ];
    let times = vec!["T".to_string()];
    let b = service_notification_at(&results, true, &configs, &vec!["ou_1".to_string(), "ou_2".to_string()], "H", &times);
    assert_eq!(b.title, "✅ 服务恢复通知");
    assert_eq!(
        b.build_content(),
        "⏰ 时间: H\n以下服务已恢复正常\nhttps://a|N/A|无错误信息|30|T|成功|https://a\n\n<at id=ou_1></at> <at id=ou_2></at>"
    );
}

#[test]
fn template_replacement_order() {
    let r = result("{status}", false, Some(404), Some("e"), 5);
    assert_eq!(render_template("{url}-{status_code}", &r, "t"), "失败-404");
}

#[test]
fn notification_from_clock() {
    let results = vec![result("https://a", true, Some(200), None, 1)];
    let b = service_notification(&results, true, &[], &vec![]);
    let content = b.build_content();
    assert!(content.starts_with("⏰ 时间: "));
    assert!(content.ends_with("以下服务已恢复正常\n✅ https://a - 恢复成功 (1ms)\n"));
}

#[test]
fn simple_and_report_messages() {
    let b = simple_message("T", "m", vec!["u".to_string()]);
    assert_eq!(b.build_content(), "m\n\n<at id=u></at>");
    let r = custom_report_message();
    assert_eq!(r.title, "📊 每日报告");
    assert_eq!(
        r.build_content(),
        "今日统计数据：\n总请求数：1500\n成功率：99.5%\n详细报告请查看附件\n\n<at id=user_123></at>"
    );
}

#[test]
fn table_messages() {
    let headers = vec!["a".to_string(), "b".to_string()];
    let rows = vec![vec!["1".to_string(), "2".to_string()], vec![]];
    let t = table_message("T", &headers, &rows);
    assert_eq!(t.build_content(), "| a | b |\n| ------ | ------ |\n| 1 | 2 |\n|  |\n");
    let t3 = triple_column_table(
        "T",
        ("x", "y", "z"),
        vec![("1".to_string(), "2".to_string(), "3".to_string())],
    );
    assert_eq!(t3.build_content(), "| x | y | z |\n| ------ | ------ | ------ |\n| 1 | 2 | 3 |\n");
}

#[test]
fn template_without_placeholders_is_kept() {
    let r = result("https://a", false, Some(500), Some("e"), 5);
    assert_eq!(render_template("服务 {挂了} !", &r, "t"), "服务 {挂了} !");
}

#[test]
fn signature_shape() {
    for secret in ["", "test_secret", "a very long secret that is longer than one hash block of sixty-four bytes"] {
        let (ts, sign) = url_monitor::feishu_client::generate_signature(secret);
        assert!(ts.parse::<i64>().is_ok());
        assert_eq!(sign.len(), 44);
        assert!(sign.ends_with('=') && !sign[..43].contains('='));
        assert!(sign[..43].chars().all(|c| c.is_ascii_alphanumeric() || c == '+' || c == '/'));
    }
}
