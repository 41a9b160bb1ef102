//! What holds of the alert state machine over every state and every run of checks.
use vstd::prelude::*;
use crate::clock::Moment;
use crate::monitor::{delivered, fresh_status, status_step, thirty_minutes_apart, UrlStatus};

verus! {

/// The states and alert flags after a run of failed checks at the given instants.
pub open spec fn failure_run(s: UrlStatus, threshold: u32, times: Seq<Moment>) -> (
    UrlStatus,
    Seq<bool>,
)
    decreases times.len(),
{
    if times.len() == 0 {
        (s, Seq::empty())
    } else {
        let (before, alerts) = failure_run(s, threshold, times.drop_last());
        let (after, alert, _) = status_step(before, false, threshold, times.last());
        (after, alerts.push(alert))
    }
}

/// A state with no failures counted, no alert pending and no alert on record.
pub open spec fn idle(s: UrlStatus) -> bool {
    &&& s.consecutive_failures == 0
    &&& s.last_success
    &&& s.last_notification_time is None
    &&& !s.pending_notification
}

/// What the state machine keeps true: an undelivered alert exists only while the URL is
/// failing and the failures have reached the threshold.
pub open spec fn consistent(s: UrlStatus, threshold: u32) -> bool {
    s.pending_notification ==> !s.last_success && s.consecutive_failures >= threshold
}

/// A successful check clears the failure count, never raises a failure alert, and raises
/// a recovery notice exactly when the previous check had failed.
pub proof fn law_success_resets(s: UrlStatus, threshold: u32, now: Moment)
    ensures
        ({
            let (after, alert, recovery) = status_step(s, true, threshold, now);
            &&& after.consecutive_failures == 0
            &&& after.last_success
            &&& !alert
            &&& recovery == !s.last_success
        }),
{
}

/// A failed check adds one to the failure count and never raises a recovery notice.
pub proof fn law_failure_counts(s: UrlStatus, threshold: u32, now: Moment)
    requires
        s.consecutive_failures < u32::MAX,
    ensures
        ({
            let (after, _, recovery) = status_step(s, false, threshold, now);
            &&& after.consecutive_failures == s.consecutive_failures + 1
            &&& !after.last_success
            &&& !recovery
        }),
{
}

/// A failure alert is raised only for a failed check, and only once the failures have
/// reached the threshold; an alert and a recovery notice never come together.
pub proof fn law_alert_needs_threshold(s: UrlStatus, success: bool, threshold: u32, now: Moment)
    requires
        !success ==> s.consecutive_failures < u32::MAX,
    ensures
        ({
            let (after, alert, recovery) = status_step(s, success, threshold, now);
            &&& alert ==> !success && after.consecutive_failures >= threshold
            &&& recovery ==> success && !s.last_success
            &&& !(alert && recovery)
        }),
{
}

/// When a failed check alerts: once the failures reach the threshold, if an alert is
/// pending, if none was ever delivered, if the URL recovered since the last one, or if
/// thirty minutes have passed since it.
pub proof fn law_failure_alert_decision(s: UrlStatus, threshold: u32, now: Moment)
    requires
        s.consecutive_failures < u32::MAX,
    ensures
        status_step(s, false, threshold, now).1 == (s.consecutive_failures + 1 >= threshold && (
        s.pending_notification || s.last_notification_time is None || (!s.last_success
            && s.has_recovered_since_last_failure) || (s.last_notification_time matches Some(t)
            && thirty_minutes_apart(t, now)))),
{
}

/// Once thirty minutes have passed since an alert was delivered, a failed check that
/// keeps the failures at or above the threshold alerts again.
pub proof fn law_alert_after_quiet_period(s: UrlStatus, threshold: u32, sent: Moment, now: Moment)
    requires
        thirty_minutes_apart(sent, now),
        s.consecutive_failures < u32::MAX,
        s.consecutive_failures + 1 >= threshold,
    ensures
        status_step(delivered(s, sent), false, threshold, now).1,
{
}

/// A fresh state is idle and consistent.
pub proof fn law_fresh_state(threshold: u32)
    ensures
        idle(fresh_status()),
        consistent(fresh_status(), threshold),
{
}

/// Every check, and every delivery, keeps the state consistent.
pub proof fn law_consistency_kept(s: UrlStatus, success: bool, threshold: u32, now: Moment)
    requires
        consistent(s, threshold),
        !success ==> s.consecutive_failures < u32::MAX,
    ensures
        consistent(status_step(s, success, threshold, now).0, threshold),
        consistent(delivered(s, now), threshold),
{
}

/// An alert that was decided on but not delivered is raised again at the next failed
/// check: alerts are retried until they are delivered.
pub proof fn law_undelivered_alert_is_retried(s: UrlStatus, threshold: u32, now: Moment)
    requires
        consistent(s, threshold),
        s.pending_notification,
        s.consecutive_failures < u32::MAX,
    ensures
        status_step(s, false, threshold, now).1,
        status_step(s, false, threshold, now).0.pending_notification,
{
}

/// Once an alert was delivered at `sent`, failed checks within thirty minutes of it
/// raise no further alert, however many there are.
pub proof fn law_quiet_after_delivery(s: UrlStatus, threshold: u32, sent: Moment, times: Seq<Moment>)
    requires
        s.consecutive_failures + times.len() <= u32::MAX,
        forall|i: int| 0 <= i < times.len() ==> !thirty_minutes_apart(sent, #[trigger] times[i]),
    ensures
        forall|i: int|
            0 <= i < times.len() ==> !#[trigger] failure_run(delivered(s, sent), threshold, times).1[i],
{
    lemma_quiet_run(s, threshold, sent, times);
}

/// After a delivered alert and a quiet run of failed checks within thirty minutes of it,
/// the first failed check thirty minutes or more after the delivery alerts again, once
/// the failures have reached the threshold.
pub proof fn law_alert_resumes_after_quiet_run(
    s: UrlStatus,
    threshold: u32,
    sent: Moment,
    times: Seq<Moment>,
    now: Moment,
)
    requires
        s.consecutive_failures + times.len() < u32::MAX,
        forall|i: int| 0 <= i < times.len() ==> !thirty_minutes_apart(sent, #[trigger] times[i]),
        thirty_minutes_apart(sent, now),
        s.consecutive_failures + times.len() + 1 >= threshold,
    ensures
        status_step(failure_run(delivered(s, sent), threshold, times).0, false, threshold, now).1,
{
    lemma_quiet_run(s, threshold, sent, times);
}

proof fn lemma_quiet_run(s: UrlStatus, threshold: u32, sent: Moment, times: Seq<Moment>)
    requires
        s.consecutive_failures + times.len() <= u32::MAX,
        forall|i: int| 0 <= i < times.len() ==> !thirty_minutes_apart(sent, #[trigger] times[i]),
    ensures
        ({
            let (after, alerts) = failure_run(delivered(s, sent), threshold, times);
            &&& alerts.len() == times.len()
            &&& forall|i: int| 0 <= i < times.len() ==> !#[trigger] alerts[i]
            &&& !after.pending_notification
            &&& after.last_notification_time == Some(sent)
            &&& !after.has_recovered_since_last_failure
            &&& after.consecutive_failures == s.consecutive_failures + times.len()
        }),
    decreases times.len(),
{
    if times.len() > 0 {
        let rest = times.drop_last();
        assert forall|i: int| 0 <= i < rest.len() implies !thirty_minutes_apart(sent, #[trigger] rest[i]) by {
            assert(rest[i] == times[i]);
        }
        lemma_quiet_run(s, threshold, sent, rest);
        assert(!thirty_minutes_apart(sent, times[times.len() - 1]));
    }
}

/// From an idle state, a run of failed checks raises its first alert at the check that
/// brings the failures to the threshold, and raises one at every failed check after it
/// (no alert being delivered in between).
pub proof fn law_alert_threshold(s: UrlStatus, threshold: u32, times: Seq<Moment>)
    requires
        idle(s),
        times.len() <= u32::MAX,
    ensures
        ({
            let (after, alerts) = failure_run(s, threshold, times);
            &&& alerts.len() == times.len()
            &&& forall|i: int| 0 <= i < times.len() ==> #[trigger] alerts[i] == (i + 1 >= threshold)
            &&& after.consecutive_failures == times.len()
        }),
    decreases times.len(),
{
    if times.len() > 0 {
        law_alert_threshold(s, threshold, times.drop_last());
        lemma_idle_run_keeps_no_record(s, threshold, times.drop_last());
    }
}

proof fn lemma_idle_run_keeps_no_record(s: UrlStatus, threshold: u32, times: Seq<Moment>)
    requires
        idle(s),
        times.len() <= u32::MAX,
    ensures
        failure_run(s, threshold, times).0.last_notification_time is None,
        failure_run(s, threshold, times).0.consecutive_failures == times.len(),
    decreases times.len(),
{
    if times.len() > 0 {
        lemma_idle_run_keeps_no_record(s, threshold, times.drop_last());
    }
}

/// A recovery leaves the state idle: the next outage is counted, and alerted about,
/// from scratch, whatever alerts the previous outage had.
pub proof fn law_recovery_resets_alerting(s: UrlStatus, threshold: u32, now: Moment)
    requires
        !s.last_success,
    ensures
        idle(status_step(s, true, threshold, now).0),
        status_step(s, true, threshold, now).2,
{
}

} // verus!
