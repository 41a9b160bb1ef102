use url_monitor::clock::Moment;
use url_monitor::feishu_client::CheckResult;
use url_monitor::monitor::{check_batches, mark_pending_sent, record_results, MonitorConfig, UrlStatus};

fn outcome(url: &str, success: bool) -> CheckResult {
    CheckResult {
        url: url.to_string(),
        status_code: if success { Some(200) } else { None },
        error_message: if success { None } else { Some("down".to_string()) },
        response_time_ms: 3,
        success,
    }
}

fn at(secs: i64) -> Moment {
    Moment { secs, nanos: 0 }
}

fn config(threshold: u32, recovery: bool) -> MonitorConfig {
    MonitorConfig {
        check_interval_secs: 30,
        urls: Vec::new(),
        feishu_webhook_url: "https://hook".to_string(),
        feishu_secret: None,
        feishu_user_ids: Vec::new(),
        failure_threshold: threshold,
        recovery_notification: recovery,
        parallel_checks: true,
        max_parallel_checks: 5,
    }
}

#[test]
fn threshold_delays_the_first_alert() {
    let mut s = UrlStatus::new();
    let fail = outcome("u", false);
    assert_eq!(s.update_at(&fail, 3, at(0)), (false, false));
    assert_eq!(s.update_at(&fail, 3, at(1)), (false, false));
    assert_eq!(s.update_at(&fail, 3, at(2)), (true, false));
    assert_eq!(s.consecutive_failures, 3);
    assert!(s.pending_notification);
    // Not delivered yet: the alert is raised again.
    assert_eq!(s.update_at(&fail, 3, at(3)), (true, false));
}

#[test]
fn delivered_alert_is_quiet_for_thirty_minutes() {
    let mut s = UrlStatus::new();
    let fail = outcome("u", false);
    assert_eq!(s.update_at(&fail, 1, at(0)), (true, false));
    s.mark_notification_sent_at(at(0));
    assert!(!s.pending_notification);
    assert_eq!(s.update_at(&fail, 1, at(60)), (false, false));
    assert_eq!(s.update_at(&fail, 1, Moment { secs: 1799, nanos: 999_999_999 }), (false, false));
    assert_eq!(s.update_at(&fail, 1, at(1800)), (true, false));
}

#[test]
fn recovery_is_notified_and_resets_alerting() {
    let mut s = UrlStatus::new();
    let fail = outcome("u", false);
    let ok = outcome("u", true);
    assert_eq!(s.update_at(&fail, 1, at(0)), (true, false));
    s.mark_notification_sent_at(at(0));
    assert_eq!(s.update_at(&ok, 1, at(10)), (false, true));
    assert_eq!(s.consecutive_failures, 0);
    assert!(s.last_notification_time.is_none());
    assert_eq!(s.update_at(&ok, 1, at(20)), (false, false));
    // A new outage alerts at once, even within thirty minutes of the last alert.
    assert_eq!(s.update_at(&fail, 1, at(30)), (true, false));
}

#[test]
fn recorded_results_select_alerts_and_recoveries() {
    let mut statuses = vec![UrlStatus::new(), UrlStatus::new(), UrlStatus::new()];
    statuses[1].last_success = false;
    statuses[1].consecutive_failures = 2;
    let results = vec![outcome("a", false), outcome("b", true), outcome("c", true)];
    let (failed, recovered) = record_results(&mut statuses, &results, &config(1, true));
    assert_eq!(failed.len(), 1);
    assert_eq!(failed[0].url, "a");
    assert_eq!(recovered.len(), 1);
    assert_eq!(recovered[0].url, "b");
    assert!(statuses[0].pending_notification);

    let mut statuses = vec![UrlStatus::new()];
    statuses[0].last_success = false;
    let (_, recovered) = record_results(&mut statuses, &vec![outcome("a", true)], &config(1, false));
    assert!(recovered.is_empty());
}

#[test]
fn pending_alerts_are_marked_delivered() {
    let mut statuses = vec![UrlStatus::new(), UrlStatus::new()];
    let results = vec![outcome("a", false), outcome("b", true)];
    record_results(&mut statuses, &results, &config(1, true));
    mark_pending_sent(&mut statuses);
    assert!(!statuses[0].pending_notification);
    assert!(statuses[0].last_notification_time.is_some());
    assert!(statuses[1].last_notification_time.is_none());
}

#[test]
fn update_reads_the_clock() {
    let mut s = UrlStatus::new();
    assert_eq!(s.update(&outcome("u", false), &config(2, true)), (false, false));
    assert_eq!(s.update(&outcome("u", false), &config(2, true)), (true, false));
    s.mark_notification_sent();
    assert_eq!(s.update(&outcome("u", false), &config(2, true)), (false, false));
}

#[test]
fn batches_bound_parallel_checks() {
    assert_eq!(check_batches(7, 3), vec![(0, 3), (3, 6), (6, 7)]);
    assert_eq!(check_batches(6, 3), vec![(0, 3), (3, 6)]);
    assert_eq!(check_batches(2, 5), vec![(0, 2)]);
    assert_eq!(check_batches(3, 0), vec![(0, 1), (1, 2), (2, 3)]);
    assert!(check_batches(0, 5).is_empty());
}

#[test]
fn alerting_resumes_after_a_quiet_run() {
    let mut s = UrlStatus::new();
    let fail = outcome("u", false);
    assert_eq!(s.update_at(&fail, 3, at(0)), (false, false));
    assert_eq!(s.update_at(&fail, 3, at(10)), (false, false));
    assert_eq!(s.update_at(&fail, 3, at(20)), (true, false));
    s.mark_notification_sent_at(at(25));
    for t in [100, 600, 1200, 1824] {
        assert_eq!(s.update_at(&fail, 3, at(t)), (false, false));
    }
    assert_eq!(s.consecutive_failures, 7);
    assert_eq!(s.update_at(&fail, 3, at(1825)), (true, false));
    assert!(s.pending_notification);
}
