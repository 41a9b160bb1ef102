//! The messages the monitor sends: service alerts and recovery notices, plain text
//! messages, the daily report and tables.
use vstd::prelude::*;
use crate::clock::{clock_now, is_date_time_text};
use crate::feishu_client::{
    block_text, blocks_text, content_text, lemma_blocks_text_concat, mentions_text, newline,
    opt_text_view, texts_view, url_info_text, BlockView, CheckResult, FeishuMessageBuilder, MessageView,
    UrlMonitorConfig,
};
use crate::text::{
    clone_texts, decimal, decimal_text, is_placeholder, join, join_texts, lemma_decimal_brace_free,
    lemma_replace_in_brace_free, lemma_replace_placeholder, no_brace, replace, replace_all, same_text,
};

verus! {

/// The index of the first configuration for `url`, searching from index `k` on.
pub open spec fn find_config_from(configs: Seq<UrlMonitorConfig>, url: Seq<char>, k: int) -> Option<int>
    decreases configs.len() - k,
{
    if k < 0 || k >= configs.len() {
        None
    } else if configs[k].url@ == url {
        Some(k)
    } else {
        find_config_from(configs, url, k + 1)
    }
}

/// The index of the first configuration for `url`.
pub open spec fn find_config(configs: Seq<UrlMonitorConfig>, url: Seq<char>) -> Option<int> {
    find_config_from(configs, url, 0)
}

fn find_config_index(configs: &[UrlMonitorConfig], url: &str) -> (res: Option<usize>)
    ensures
        match res {
            Some(i) => i < configs@.len() && find_config(configs@, url@) == Some(i as int),
            None => find_config(configs@, url@) is None,
        },
{
    let n = configs.len();
    for i in 0..n
        invariant
            n == configs@.len(),
            find_config(configs@, url@) == find_config_from(configs@, url@, i as int),
    {
        if same_text(configs[i].url.as_str(), url) {
            return Some(i);
        }
    }
    None
}

/// The text a failing or recovered URL's alert template turns into: `{url}`,
/// `{status_code}`, `{error_message}`, `{response_time}`, `{timestamp}` and `{status}`
/// replaced, in this order, by the result's values.
pub open spec fn render_alert_template(template: Seq<char>, r: CheckResult, timestamp: Seq<char>) -> Seq<char> {
    let s1 = replace_all(template, "{url}"@, r.url@);
    let s2 = replace_all(
        s1,
        "{status_code}"@,
        match r.status_code {
            Some(c) => decimal(c as nat),
            None => "N/A"@,
        },
    );
    let s3 = replace_all(
        s2,
        "{error_message}"@,
        match r.error_message {
            Some(e) => e@,
            None => "无错误信息"@,
        },
    );
    let s4 = replace_all(s3, "{response_time}"@, decimal(r.response_time_ms as nat));
    let s5 = replace_all(s4, "{timestamp}"@, timestamp);
    replace_all(
        s5,
        "{status}"@,
        if r.success {
            "成功"@
        } else {
            "失败"@
        },
    )
}

/// The line of a URL that came back up.
pub open spec fn recovered_line(r: CheckResult) -> Seq<char> {
    "✅ "@ + r.url@ + " - 恢复成功 ("@ + decimal(r.response_time_ms as nat) + "ms)"@
}

/// The block reporting one result: the URL's own alert template when it has one,
/// otherwise a recovery line for a success and the URL's check details for a failure.
pub open spec fn result_block(r: CheckResult, configs: Seq<UrlMonitorConfig>, timestamp: Seq<char>) -> BlockView {
    let template = match find_config(configs, r.url@) {
        Some(i) => configs[i].custom_alert_message,
        None => None,
    };
    match template {
        Some(t) => BlockView::CustomMessage(render_alert_template(t@, r, timestamp)),
        None => if r.success {
            BlockView::CustomMessage(recovered_line(r))
        } else {
            BlockView::UrlInfo {
                url: r.url@,
                status_code: r.status_code,
                error_message: opt_text_view(r.error_message),
                response_time_ms: r.response_time_ms,
            }
        },
    }
}

pub open spec fn notification_title(is_recovery: bool) -> Seq<char> {
    if is_recovery {
        "✅ 服务恢复通知"@
    } else {
        "🚨 服务异常告警"@
    }
}

pub open spec fn notification_intro(is_recovery: bool) -> Seq<char> {
    if is_recovery {
        "以下服务已恢复正常"@
    } else {
        "以下服务出现异常"@
    }
}

/// The alert (or recovery notice) for `results`: the time line, the intro line, then one
/// block per result, result `i` rendered with timestamp `times[i]`; the given users are
/// mentioned.
pub open spec fn service_notification_view(
    results: Seq<CheckResult>,
    is_recovery: bool,
    configs: Seq<UrlMonitorConfig>,
    user_ids: Seq<Seq<char>>,
    time: Seq<char>,
    times: Seq<Seq<char>>,
) -> MessageView {
    MessageView {
        title: notification_title(is_recovery),
        blocks: seq![
            BlockView::Text("⏰ 时间: "@ + time),
            BlockView::Text(notification_intro(is_recovery)),
        ] + Seq::new(results.len(), |i: int| result_block(results[i], configs, times[i])),
        at_users: user_ids,
    }
}

/// Renders a URL's alert template for one result.
pub fn render_template(template: &str, r: &CheckResult, timestamp: &str) -> (res: String)
    ensures
        res@ == render_alert_template(template@, *r, timestamp@),
{
    proof {
        reveal_strlit("{url}");
        reveal_strlit("{status_code}");
        reveal_strlit("{error_message}");
        reveal_strlit("{response_time}");
        reveal_strlit("{timestamp}");
        reveal_strlit("{status}");
    }
    let status_text = match r.status_code {
        Some(c) => decimal_text(c as u64),
        None => "N/A".to_owned(),
    };
    let error_text = match &r.error_message {
        Some(e) => e.clone(),
        None => "无错误信息".to_owned(),
    };
    let s1 = replace(template, "{url}", r.url.as_str());
    let s2 = replace(s1.as_str(), "{status_code}", status_text.as_str());
    let s3 = replace(s2.as_str(), "{error_message}", error_text.as_str());
    let s4 = replace(s3.as_str(), "{response_time}", decimal_text(r.response_time_ms).as_str());
    let s5 = replace(s4.as_str(), "{timestamp}", timestamp);
    let status_word = if r.success {
        "成功"
    } else {
        "失败"
    };
    replace(s5.as_str(), "{status}", status_word)
}

fn add_result_block(
    builder: FeishuMessageBuilder,
    r: &CheckResult,
    configs: &[UrlMonitorConfig],
    timestamp: &str,
) -> (res: FeishuMessageBuilder)
    ensures
        res@ == (MessageView {
            blocks: builder@.blocks.push(result_block(*r, configs@, timestamp@)),
            ..builder@
        }),
{
    let found = find_config_index(configs, r.url.as_str());
    let template: Option<&String> = match found {
        Some(i) => match &configs[i].custom_alert_message {
            Some(t) => Some(t),
            None => None,
        },
        None => None,
    };
    match template {
        Some(t) => {
            let rendered = render_template(t.as_str(), r, timestamp);
            builder.add_custom_message(rendered.as_str())
        },
        None => {
            if r.success {
                let mut line = "✅ ".to_owned();
                line.append(r.url.as_str());
                line.append(" - 恢复成功 (");
                line.append(decimal_text(r.response_time_ms).as_str());
                line.append("ms)");
                builder.add_custom_message(line.as_str())
            } else {
                let error_message = match &r.error_message {
                    Some(e) => Some(e.as_str()),
                    None => None,
                };
                builder.add_url_info(r.url.as_str(), r.status_code, error_message, r.response_time_ms)
            }
        },
    }
}

/// The alert (or recovery notice) for `results`, with the given time texts.
pub fn service_notification_at(
    results: &[CheckResult],
    is_recovery: bool,
    url_configs: &[UrlMonitorConfig],
    user_ids: &Vec<String>,
    time: &str,
    times: &Vec<String>,
) -> (res: FeishuMessageBuilder)
    requires
        times@.len() == results@.len(),
    ensures
        res@ == service_notification_view(
            results@,
            is_recovery,
            url_configs@,
            texts_view(user_ids@),
            time@,
            times@.map_values(|t: String| t@),
        ),
{
    let title = if is_recovery {
        "✅ 服务恢复通知"
    } else {
        "🚨 服务异常告警"
    };
    let mut time_line = "⏰ 时间: ".to_owned();
    time_line.append(time);
    let intro = if is_recovery {
        "以下服务已恢复正常"
    } else {
        "以下服务出现异常"
    };
    let mut builder = FeishuMessageBuilder::new(title).add_text(time_line.as_str()).add_text(intro);
    let ghost tv = times@.map_values(|t: String| t@);
    let ghost all = Seq::new(results@.len(), |i: int| result_block(results@[i], url_configs@, tv[i]));
    let ghost head = seq![
        BlockView::Text("⏰ 时间: "@ + time@),
        BlockView::Text(notification_intro(is_recovery)),
    ];
    assert(builder@.blocks =~= head + all.take(0));
    let n = results.len();
    for i in 0..n
        invariant
            n == results@.len(),
            times@.len() == n,
            tv == times@.map_values(|t: String| t@),
            all == Seq::new(results@.len(), |i: int| result_block(results@[i], url_configs@, tv[i])),
            builder@ == (MessageView {
                title: notification_title(is_recovery),
                blocks: head + all.take(i as int),
                at_users: Seq::empty(),
            }),
    {
        builder = add_result_block(builder, &results[i], url_configs, times[i].as_str());
        assert(head + all.take(i + 1) =~= (head + all.take(i as int)).push(all[i as int]));
    }
    assert(all.take(n as int) =~= all);
    let res = builder.add_at_users(clone_texts(user_ids));
    assert(res@.at_users =~= texts_view(user_ids@));
    res
}

/// The alert (or recovery notice) for `results`, mentioning the given users, timed with
/// the local clock: one reading for the time line, one for each result's template.
pub fn service_notification(
    results: &[CheckResult],
    is_recovery: bool,
    url_configs: &[UrlMonitorConfig],
    user_ids: &Vec<String>,
) -> (res: FeishuMessageBuilder)
    ensures
        exists|time: Seq<char>, times: Seq<Seq<char>>|
            times.len() == results@.len() && is_date_time_text(time) && (forall|i: int|
                0 <= i < times.len() ==> is_date_time_text(#[trigger] times[i])) && res@
                == #[trigger] service_notification_view(
                results@,
                is_recovery,
                url_configs@,
                texts_view(user_ids@),
                time,
                times,
            ),
{
    let header = clock_now();
    let mut times: Vec<String> = Vec::new();
    let n = results.len();
    for i in 0..n
        invariant
            times@.len() == i,
            forall|j: int| 0 <= j < i ==> is_date_time_text(#[trigger] times@[j]@),
    {
        times.push(clock_now().text);
    }
    service_notification_at(results, is_recovery, url_configs, user_ids, header.text.as_str(), &times)
}


/// A message with a title, one line of text, and the given users mentioned.
pub fn simple_message(title: &str, message: &str, at_users: Vec<String>) -> (res: FeishuMessageBuilder)
    ensures
        res@ == (MessageView {
            title: title@,
            blocks: seq![BlockView::Text(message@)],
            at_users: texts_view(at_users@),
        }),
{
    let res = FeishuMessageBuilder::new(title).add_text(message).add_at_users(at_users);
    assert(res@.blocks =~= seq![BlockView::Text(message@)]);
    assert(res@.at_users =~= texts_view(at_users@));
    res
}

/// The daily report.
pub fn custom_report_message() -> (res: FeishuMessageBuilder)
    ensures
        res@ == (MessageView {
            title: "📊 每日报告"@,
            blocks: seq![
                BlockView::Text("今日统计数据："@),
                BlockView::CustomMessage("总请求数：1500"@),
                BlockView::CustomMessage("成功率：99.5%"@),
                BlockView::Text("详细报告请查看附件"@),
            ],
            at_users: seq!["user_123"@],
        }),
{
    let res = FeishuMessageBuilder::new("📊 每日报告")
        .add_text("今日统计数据：")
        .add_custom_message("总请求数：1500")
        .add_custom_message("成功率：99.5%")
        .add_text("详细报告请查看附件")
        .add_at_user("user_123");
    assert(res@.blocks =~= seq![
        BlockView::Text("今日统计数据："@),
        BlockView::CustomMessage("总请求数：1500"@),
        BlockView::CustomMessage("成功率：99.5%"@),
        BlockView::Text("详细报告请查看附件"@),
    ]);
    assert(res@.at_users =~= seq!["user_123"@]);
    res
}

/// One table row: the cells between `| ` and ` |`, separated by ` | `.
pub open spec fn table_row(cells: Seq<Seq<char>>) -> Seq<char> {
    "| "@ + join(cells, " | "@) + " |"@
}

/// The row under the header: one `------` per column.
pub open spec fn separator_row(columns: nat) -> Seq<char> {
    table_row(Seq::new(columns, |i: int| "------"@))
}

/// A table: the header row, the separator row, then one row per data row, each a line
/// of text.
pub open spec fn table_view(title: Seq<char>, headers: Seq<Seq<char>>, rows: Seq<Seq<Seq<char>>>) -> MessageView {
    MessageView {
        title,
        blocks: seq![
            BlockView::Text(table_row(headers)),
            BlockView::Text(separator_row(headers.len())),
        ] + Seq::new(rows.len(), |i: int| BlockView::Text(table_row(rows[i]))),
        at_users: Seq::empty(),
    }
}

fn table_row_text(cells: &Vec<String>) -> (res: String)
    ensures
        res@ == table_row(texts_view(cells@)),
{
    let mut res = "| ".to_owned();
    res.append(join_texts(cells, " | ").as_str());
    res.append(" |");
    res
}

/// The cells of each row, as text values.
pub open spec fn rows_view(rows: Seq<Vec<String>>) -> Seq<Seq<Seq<char>>> {
    rows.map_values(|r: Vec<String>| texts_view(r@))
}

/// A table message with the given column headers and data rows.
pub fn table_message(title: &str, headers: &Vec<String>, rows: &Vec<Vec<String>>) -> (res: FeishuMessageBuilder)
    ensures
        res@ == table_view(title@, texts_view(headers@), rows_view(rows@)),
{
    let mut builder = FeishuMessageBuilder::new(title);
    let header_row = table_row_text(headers);
    builder = builder.add_text(header_row.as_str());
    let mut dashes: Vec<String> = Vec::new();
    let columns = headers.len();
    for i in 0..columns
        invariant
            dashes@.len() == i,
            forall|j: int| 0 <= j < i ==> #[trigger] dashes@[j]@ == "------"@,
    {
        dashes.push("------".to_owned());
    }
    let separator = table_row_text(&dashes);
    assert(texts_view(dashes@) =~= Seq::new(columns as nat, |i: int| "------"@));
    builder = builder.add_text(separator.as_str());
    let ghost rv = rows_view(rows@);
    let ghost all = Seq::new(rv.len(), |i: int| BlockView::Text(table_row(rv[i])));
    let ghost head = seq![
        BlockView::Text(table_row(texts_view(headers@))),
        BlockView::Text(separator_row(headers@.len())),
    ];
    assert(builder@.blocks =~= head + all.take(0));
    let n = rows.len();
    for i in 0..n
        invariant
            n == rows@.len(),
            rv == rows_view(rows@),
            all == Seq::new(rv.len(), |i: int| BlockView::Text(table_row(rv[i]))),
            builder@ == (MessageView { title: title@, blocks: head + all.take(i as int), at_users: Seq::empty() }),
    {
        let line = table_row_text(&rows[i]);
        builder = builder.add_text(line.as_str());
        assert(head + all.take(i + 1) =~= (head + all.take(i as int)).push(all[i as int]));
    }
    assert(all.take(n as int) =~= all);
    builder
}

/// A three-column table: the three headers, then one row per triple.
pub fn triple_column_table(
    title: &str,
    headers: (&str, &str, &str),
    data: Vec<(String, String, String)>,
) -> (res: FeishuMessageBuilder)
    ensures
        res@ == table_view(
            title@,
            seq![headers.0@, headers.1@, headers.2@],
            data@.map_values(|t: (String, String, String)| seq![t.0@, t.1@, t.2@]),
        ),
{
    let headers_vec = vec![headers.0.to_owned(), headers.1.to_owned(), headers.2.to_owned()];
    let mut rows: Vec<Vec<String>> = Vec::new();
    let n = data.len();
    for i in 0..n
        invariant
            n == data@.len(),
            rows@.len() == i,
            forall|j: int| 0 <= j < i ==> #[trigger] texts_view(rows@[j]@) == seq![data@[j].0@, data@[j].1@, data@[j].2@],
    {
        let (a, b, c) = (data[i].0.clone(), data[i].1.clone(), data[i].2.clone());
        let row = vec![a, b, c];
        assert(texts_view(row@) =~= seq![data@[i as int].0@, data@[i as int].1@, data@[i as int].2@]);
        rows.push(row);
    }
    assert(texts_view(headers_vec@) =~= seq![headers.0@, headers.1@, headers.2@]);
    assert(rows_view(rows@) =~= data@.map_values(|t: (String, String, String)| seq![t.0@, t.1@, t.2@]));
    table_message(title, &headers_vec, &rows)
}

} // verus!
verus! {

/// The text a result contributes to an alert: its rendered template and a newline when
/// its URL has a template, otherwise its recovery line and a newline for a success, or
/// its check details for a failure.
pub proof fn law_result_part(r: CheckResult, configs: Seq<UrlMonitorConfig>, time: Seq<char>)
    ensures
        block_text(result_block(r, configs, time)) == match find_config(configs, r.url@) {
            Some(i) if configs[i].custom_alert_message is Some => render_alert_template(
                configs[i].custom_alert_message->0@,
                r,
                time,
            ) + newline(),
            _ => if r.success {
                recovered_line(r) + newline()
            } else {
                url_info_text(r.url@, r.status_code, opt_text_view(r.error_message), r.response_time_ms)
            },
        },
{
}

/// The parts of the results, in order.
pub open spec fn results_text(results: Seq<CheckResult>, configs: Seq<UrlMonitorConfig>, times: Seq<Seq<char>>) -> Seq<char>
    decreases results.len(),
{
    if results.len() == 0 {
        Seq::empty()
    } else {
        results_text(results.drop_last(), configs, times.drop_last()) + block_text(
            result_block(results.last(), configs, times[results.len() - 1]),
        )
    }
}

/// The header lines of an alert.
pub open spec fn notification_header(is_recovery: bool, time: Seq<char>) -> Seq<char> {
    "⏰ 时间: "@ + time + newline() + notification_intro(is_recovery) + newline()
}

proof fn lemma_result_blocks_text(results: Seq<CheckResult>, configs: Seq<UrlMonitorConfig>, times: Seq<Seq<char>>)
    requires
        times.len() == results.len(),
    ensures
        blocks_text(Seq::new(results.len(), |i: int| result_block(results[i], configs, times[i])))
            == results_text(results, configs, times),
    decreases results.len(),
{
    let all = Seq::new(results.len(), |i: int| result_block(results[i], configs, times[i]));
    if results.len() > 0 {
        let rs = results.drop_last();
        let ts = times.drop_last();
        lemma_result_blocks_text(rs, configs, ts);
        assert(all.drop_last() =~= Seq::new(rs.len(), |i: int| result_block(rs[i], configs, ts[i])));
    } else {
        assert(all =~= Seq::<BlockView>::empty());
    }
}

/// The text of an alert: the time line and the intro line, then one part per result in
/// order, then the mention line; in particular it starts with the two header lines.
pub proof fn law_notification_text(
    results: Seq<CheckResult>,
    is_recovery: bool,
    configs: Seq<UrlMonitorConfig>,
    user_ids: Seq<Seq<char>>,
    time: Seq<char>,
    times: Seq<Seq<char>>,
)
    requires
        times.len() == results.len(),
    ensures
        content_text(service_notification_view(results, is_recovery, configs, user_ids, time, times))
            == notification_header(is_recovery, time) + results_text(results, configs, times)
            + mentions_text(user_ids),
        content_text(service_notification_view(results, is_recovery, configs, user_ids, time, times)).take(
            notification_header(is_recovery, time).len() as int,
        ) == notification_header(is_recovery, time),
{
    let head = seq![
        BlockView::Text("⏰ 时间: "@ + time),
        BlockView::Text(notification_intro(is_recovery)),
    ];
    let all = Seq::new(results.len(), |i: int| result_block(results[i], configs, times[i]));
    lemma_blocks_text_concat(head, all);
    lemma_result_blocks_text(results, configs, times);
    assert(head.drop_last().drop_last() =~= Seq::<BlockView>::empty());
    assert(head.drop_last() =~= seq![BlockView::Text("⏰ 时间: "@ + time)]);
    assert(blocks_text(head.drop_last().drop_last()) =~= Seq::<char>::empty());
    assert(blocks_text(head.drop_last()) =~= "⏰ 时间: "@ + time + newline());
    assert(head.last() == BlockView::Text(notification_intro(is_recovery)));
    assert(blocks_text(head) =~= notification_header(is_recovery, time));
    let c = content_text(service_notification_view(results, is_recovery, configs, user_ids, time, times));
    let h = notification_header(is_recovery, time);
    assert(c =~= h + (results_text(results, configs, times) + mentions_text(user_ids)));
    assert(c.take(h.len() as int) =~= h);
}

/// The text of the rows, each followed by a newline.
pub open spec fn rows_text(rows: Seq<Seq<Seq<char>>>) -> Seq<char>
    decreases rows.len(),
{
    if rows.len() == 0 {
        Seq::empty()
    } else {
        rows_text(rows.drop_last()) + table_row(rows.last()) + newline()
    }
}

proof fn lemma_rows_blocks_text(rows: Seq<Seq<Seq<char>>>)
    ensures
        blocks_text(Seq::new(rows.len(), |i: int| BlockView::Text(table_row(rows[i])))) == rows_text(rows),
    decreases rows.len(),
{
    let all = Seq::new(rows.len(), |i: int| BlockView::Text(table_row(rows[i])));
    if rows.len() > 0 {
        let rs = rows.drop_last();
        lemma_rows_blocks_text(rs);
        assert(all.drop_last() =~= Seq::new(rs.len(), |i: int| BlockView::Text(table_row(rs[i]))));
    } else {
        assert(all =~= Seq::<BlockView>::empty());
    }
}

/// The text of a table: the header row, the separator row, then one row per data row,
/// each on a line of its own.
pub proof fn law_table_text(title: Seq<char>, headers: Seq<Seq<char>>, rows: Seq<Seq<Seq<char>>>)
    ensures
        content_text(table_view(title, headers, rows)) == table_row(headers) + newline()
            + separator_row(headers.len()) + newline() + rows_text(rows),
{
    let head = seq![
        BlockView::Text(table_row(headers)),
        BlockView::Text(separator_row(headers.len())),
    ];
    let all = Seq::new(rows.len(), |i: int| BlockView::Text(table_row(rows[i])));
    lemma_blocks_text_concat(head, all);
    lemma_rows_blocks_text(rows);
    assert(head.drop_last().drop_last() =~= Seq::<BlockView>::empty());
    assert(head.drop_last() =~= seq![BlockView::Text(table_row(headers))]);
    assert(blocks_text(head.drop_last().drop_last()) =~= Seq::<char>::empty());
    assert(blocks_text(head.drop_last()) =~= table_row(headers) + newline());
    assert(head.last() == BlockView::Text(separator_row(headers.len())));
    assert(blocks_text(head) =~= table_row(headers) + newline() + separator_row(headers.len()) + newline());
    assert(mentions_text(Seq::<Seq<char>>::empty()) =~= Seq::<char>::empty());
    assert(content_text(table_view(title, headers, rows)) =~= table_row(headers) + newline()
        + separator_row(headers.len()) + newline() + rows_text(rows));
}


/// The template text while one placeholder `w` is being filled with `v`: still `w`, or
/// already `v`.
spec fn fill_state(p: Seq<char>, w: Seq<char>, q: Seq<char>, v: Seq<char>, done: bool) -> Seq<char> {
    if done {
        p + v + q
    } else {
        p + w + q
    }
}

proof fn lemma_fill_step(
    p: Seq<char>,
    w: Seq<char>,
    q: Seq<char>,
    v: Seq<char>,
    pat: Seq<char>,
    rep: Seq<char>,
    done: bool,
)
    requires
        no_brace(p),
        no_brace(q),
        no_brace(v),
        is_placeholder(w),
        is_placeholder(pat),
        pat == w ==> rep == v,
    ensures
        replace_all(fill_state(p, w, q, v, done), pat, rep) == fill_state(p, w, q, v, done || pat == w),
{
    if done {
        let s = p + v + q;
        assert(no_brace(s)) by {
            assert forall|i: int| 0 <= i < s.len() implies #[trigger] s[i] != '{' by {
                if i < p.len() {
                    assert(s[i] == p[i]);
                } else if i < p.len() + v.len() {
                    assert(s[i] == v[i - p.len()]);
                } else {
                    assert(s[i] == q[i - p.len() - v.len()]);
                }
            }
        }
        lemma_replace_in_brace_free(s, pat, rep);
    } else {
        lemma_replace_placeholder(p, w, q, pat, rep);
    }
}

proof fn lemma_placeholders()
    ensures
        is_placeholder("{url}"@),
        is_placeholder("{status_code}"@),
        is_placeholder("{error_message}"@),
        is_placeholder("{response_time}"@),
        is_placeholder("{timestamp}"@),
        is_placeholder("{status}"@),
{
    reveal_strlit("{url}");
    reveal_strlit("{status_code}");
    reveal_strlit("{error_message}");
    reveal_strlit("{response_time}");
    reveal_strlit("{timestamp}");
    reveal_strlit("{status}");
}

/// Rendering `p`, placeholder `w`, `q` fills the placeholder with `v` and keeps the rest,
/// when nothing around it and no filled value holds `{`.
proof fn lemma_render_one(
    p: Seq<char>,
    w: Seq<char>,
    q: Seq<char>,
    v: Seq<char>,
    r: CheckResult,
    timestamp: Seq<char>,
)
    requires
        no_brace(p),
        no_brace(q),
        no_brace(r.url@),
        r.error_message matches Some(e) ==> no_brace(e@),
        no_brace(timestamp),
        w == "{url}"@ ==> v == r.url@,
        w == "{status_code}"@ ==> v == match r.status_code {
            Some(c) => decimal(c as nat),
            None => "N/A"@,
        },
        w == "{error_message}"@ ==> v == match r.error_message {
            Some(e) => e@,
            None => "无错误信息"@,
        },
        w == "{response_time}"@ ==> v == decimal(r.response_time_ms as nat),
        w == "{timestamp}"@ ==> v == timestamp,
        w == "{status}"@ ==> v == if r.success {
            "成功"@
        } else {
            "失败"@
        },
        w == "{url}"@ || w == "{status_code}"@ || w == "{error_message}"@ || w == "{response_time}"@
            || w == "{timestamp}"@ || w == "{status}"@,
    ensures
        render_alert_template(p + w + q, r, timestamp) == p + v + q,
{
    lemma_placeholders();
    reveal_strlit("N/A");
    reveal_strlit("无错误信息");
    reveal_strlit("成功");
    reveal_strlit("失败");
    let code = match r.status_code {
        Some(c) => decimal(c as nat),
        None => "N/A"@,
    };
    if let Some(c) = r.status_code {
        lemma_decimal_brace_free(c as nat);
    }
    let err = match r.error_message {
        Some(e) => e@,
        None => "无错误信息"@,
    };
    lemma_decimal_brace_free(r.response_time_ms as nat);
    let ms = decimal(r.response_time_ms as nat);
    let word = if r.success {
        "成功"@
    } else {
        "失败"@
    };
    assert(no_brace(code));
    assert(no_brace(err));
    assert(no_brace(word));
    assert(no_brace(v));
    lemma_fill_step(p, w, q, v, "{url}"@, r.url@, false);
    let d1 = w == "{url}"@;
    lemma_fill_step(p, w, q, v, "{status_code}"@, code, d1);
    let d2 = d1 || w == "{status_code}"@;
    lemma_fill_step(p, w, q, v, "{error_message}"@, err, d2);
    let d3 = d2 || w == "{error_message}"@;
    lemma_fill_step(p, w, q, v, "{response_time}"@, ms, d3);
    let d4 = d3 || w == "{response_time}"@;
    lemma_fill_step(p, w, q, v, "{timestamp}"@, timestamp, d4);
    let d5 = d4 || w == "{timestamp}"@;
    lemma_fill_step(p, w, q, v, "{status}"@, word, d5);
}

/// Each placeholder of an alert template is filled with the result's own value: `{url}`
/// with its URL, `{status_code}` with its status code (`N/A` without one),
/// `{error_message}` with its error text (`无错误信息` without one), `{response_time}`
/// with its response time in milliseconds, `{timestamp}` with the time text, and
/// `{status}` with `成功` or `失败`; the text around the placeholder is kept. (Stated for
/// texts without `{` around it and in the values, which no later replacement can touch.)
pub proof fn law_template_placeholders(p: Seq<char>, q: Seq<char>, r: CheckResult, timestamp: Seq<char>)
    requires
        no_brace(p),
        no_brace(q),
        no_brace(r.url@),
        r.error_message matches Some(e) ==> no_brace(e@),
        no_brace(timestamp),
    ensures
        render_alert_template(p + "{url}"@ + q, r, timestamp) == p + r.url@ + q,
        r.status_code matches Some(c) ==> render_alert_template(p + "{status_code}"@ + q, r, timestamp)
            == p + decimal(c as nat) + q,
        r.status_code is None ==> render_alert_template(p + "{status_code}"@ + q, r, timestamp) == p
            + "N/A"@ + q,
        r.error_message matches Some(e) ==> render_alert_template(p + "{error_message}"@ + q, r, timestamp)
            == p + e@ + q,
        r.error_message is None ==> render_alert_template(p + "{error_message}"@ + q, r, timestamp) == p
            + "无错误信息"@ + q,
        render_alert_template(p + "{response_time}"@ + q, r, timestamp) == p + decimal(
            r.response_time_ms as nat,
        ) + q,
        render_alert_template(p + "{timestamp}"@ + q, r, timestamp) == p + timestamp + q,
        r.success ==> render_alert_template(p + "{status}"@ + q, r, timestamp) == p + "成功"@ + q,
        !r.success ==> render_alert_template(p + "{status}"@ + q, r, timestamp) == p + "失败"@ + q,
{
    lemma_placeholders();
    let code = match r.status_code {
        Some(c) => decimal(c as nat),
        None => "N/A"@,
    };
    let err = match r.error_message {
        Some(e) => e@,
        None => "无错误信息"@,
    };
    let word = if r.success {
        "成功"@
    } else {
        "失败"@
    };
    reveal_strlit("{url}");
    reveal_strlit("{status_code}");
    reveal_strlit("{error_message}");
    reveal_strlit("{response_time}");
    reveal_strlit("{timestamp}");
    reveal_strlit("{status}");
    assert("{error_message}"@[1] != "{response_time}"@[1]);
    lemma_render_one(p, "{url}"@, q, r.url@, r, timestamp);
    lemma_render_one(p, "{status_code}"@, q, code, r, timestamp);
    lemma_render_one(p, "{error_message}"@, q, err, r, timestamp);
    lemma_render_one(p, "{response_time}"@, q, decimal(r.response_time_ms as nat), r, timestamp);
    lemma_render_one(p, "{timestamp}"@, q, timestamp, r, timestamp);
    lemma_render_one(p, "{status}"@, q, word, r, timestamp);
}

} // verus!
