//! Per-URL alert state: failure counting, the alert threshold, retrying an alert
//! until it is delivered, the quiet period between alerts, and recovery notices.
use vstd::prelude::*;
use crate::clock::{clock_now, is_clock_moment, moment_nanos, Moment};
use crate::feishu_client::{CheckResult, UrlMonitorConfig};

verus! {

/// How long, in nanoseconds, an alert that was delivered keeps further alerts for
/// the same outage quiet: thirty minutes.
pub open spec fn quiet_period_nanos() -> int {
    1_800_000_000_000
}

/// Whether at least thirty minutes separate `earlier` from `later`.
pub open spec fn thirty_minutes_apart(earlier: Moment, later: Moment) -> bool {
    moment_nanos(later) - moment_nanos(earlier) >= quiet_period_nanos()
}

/// The monitor's settings.
pub struct MonitorConfig {
    pub check_interval_secs: u64,
    pub urls: Vec<UrlMonitorConfig>,
    pub feishu_webhook_url: String,
    pub feishu_secret: Option<String>,
    pub feishu_user_ids: Vec<String>,
    pub failure_threshold: u32,
    pub recovery_notification: bool,
    pub parallel_checks: bool,
    pub max_parallel_checks: usize,
}

/// The alert state of one monitored URL.
pub struct UrlStatus {
    pub consecutive_failures: u32,
    pub last_success: bool,
    pub last_notification_time: Option<Moment>,
    pub has_recovered_since_last_failure: bool,
    /// An alert was decided on and has not been delivered yet.
    pub pending_notification: bool,
}

/// The state of a URL that has not been checked yet.
pub open spec fn fresh_status() -> UrlStatus {
    UrlStatus {
        consecutive_failures: 0,
        last_success: true,
        last_notification_time: None,
        has_recovered_since_last_failure: false,
        pending_notification: false,
    }
}

/// One check outcome applied to a state, at instant `now`, with alert threshold
/// `threshold`: the next state, whether to send a failure alert, whether to send a
/// recovery notice.
pub open spec fn status_step(s: UrlStatus, success: bool, threshold: u32, now: Moment) -> (
    UrlStatus,
    bool,
    bool,
) {
    if success {
        if !s.last_success {
            (
                UrlStatus {
                    consecutive_failures: 0,
                    last_success: true,
                    last_notification_time: None,
                    has_recovered_since_last_failure: true,
                    pending_notification: false,
                },
                false,
                true,
            )
        } else {
            (UrlStatus { consecutive_failures: 0, last_success: true, ..s }, false, false)
        }
    } else {
        let failures = s.consecutive_failures + 1;
        let recovered = if s.last_success {
            false
        } else {
            s.has_recovered_since_last_failure
        };
        let send = failures >= threshold && (s.pending_notification || match s.last_notification_time {
            Some(t) => recovered || thirty_minutes_apart(t, now),
            None => true,
        });
        (
            UrlStatus {
                consecutive_failures: failures as u32,
                last_success: false,
                last_notification_time: s.last_notification_time,
                has_recovered_since_last_failure: recovered,
                pending_notification: s.pending_notification || send,
            },
            send,
            false,
        )
    }
}

/// The state after an alert has been delivered at instant `now`.
pub open spec fn delivered(s: UrlStatus, now: Moment) -> UrlStatus {
    UrlStatus {
        pending_notification: false,
        last_notification_time: Some(now),
        has_recovered_since_last_failure: false,
        ..s
    }
}

fn thirty_minutes_elapsed(earlier: Moment, later: Moment) -> (r: bool)
    ensures
        r == thirty_minutes_apart(earlier, later),
{
    let secs: i128 = later.secs as i128 - earlier.secs as i128;
    let nanos: i128 = later.nanos as i128 - earlier.nanos as i128;
    secs * 1_000_000_000 + nanos >= 1_800_000_000_000
}

impl UrlStatus {
    /// A URL not checked yet: no failures, considered up, nothing pending.
    pub fn new() -> (res: Self)
        ensures
            res == fresh_status(),
    {
        UrlStatus {
            consecutive_failures: 0,
            last_success: true,
            last_notification_time: None,
            has_recovered_since_last_failure: false,
            pending_notification: false,
        }
    }

    /// Applies one check outcome at instant `now`; returns whether to send a failure
    /// alert and whether to send a recovery notice.
    pub fn update_at(&mut self, result: &CheckResult, failure_threshold: u32, now: Moment) -> (res: (
        bool,
        bool,
    ))
        requires
            !result.success ==> old(self).consecutive_failures < u32::MAX,
        ensures
            (*final(self), res.0, res.1) == status_step(
                *old(self),
                result.success,
                failure_threshold,
                now,
            ),
    {
        let mut should_notify_failure = false;
        let mut should_notify_recovery = false;
        if result.success {
            if !self.last_success {
                should_notify_recovery = true;
                self.last_notification_time = None;
                self.has_recovered_since_last_failure = true;
                self.pending_notification = false;
            }
            self.consecutive_failures = 0;
            self.last_success = true;
        } else {
            self.consecutive_failures = self.consecutive_failures + 1;
            if self.last_success {
                self.has_recovered_since_last_failure = false;
            }
            self.last_success = false;
            let should_send = if self.consecutive_failures >= failure_threshold {
                if self.pending_notification {
                    true
                } else {
                    match self.last_notification_time {
                        Some(last_time) => self.has_recovered_since_last_failure
                            || thirty_minutes_elapsed(last_time, now),
                        None => true,
                    }
                }
            } else {
                false
            };
            if should_send {
                should_notify_failure = true;
                self.pending_notification = true;
            }
        }
        (should_notify_failure, should_notify_recovery)
    }

    /// Applies one check outcome at the current instant (read from the local clock),
    /// with the configured alert threshold.
    pub fn update(&mut self, result: &CheckResult, config: &MonitorConfig) -> (res: (bool, bool))
        requires
            !result.success ==> old(self).consecutive_failures < u32::MAX,
        ensures
            exists|now: Moment|
                is_clock_moment(now) && (*final(self), res.0, res.1) == status_step(
                    *old(self),
                    result.success,
                    config.failure_threshold,
                    now,
                ),
    {
        let now = clock_now();
        self.update_at(result, config.failure_threshold, now.moment)
    }

    /// Records that the pending alert was delivered at instant `now`.
    pub fn mark_notification_sent_at(&mut self, now: Moment)
        ensures
            *final(self) == delivered(*old(self), now),
    {
        self.pending_notification = false;
        self.last_notification_time = Some(now);
        self.has_recovered_since_last_failure = false;
    }

    /// Records that the pending alert was delivered now (read from the local clock).
    pub fn mark_notification_sent(&mut self)
        ensures
            exists|now: Moment| is_clock_moment(now) && *final(self) == delivered(*old(self), now),
    {
        let now = clock_now();
        self.mark_notification_sent_at(now.moment);
    }
}



/// Whether `after` and the two notification flags are what one check outcome turns
/// `before` into, at some instant.
pub open spec fn is_step(
    before: UrlStatus,
    result: CheckResult,
    threshold: u32,
    after: UrlStatus,
    notify_failure: bool,
    notify_recovery: bool,
) -> bool {
    exists|now: Moment|
        #[trigger] status_step(before, result.success, threshold, now) == (
            after,
            notify_failure,
            notify_recovery,
        )
}

/// The items whose flag is set, in order.
pub open spec fn select(items: Seq<CheckResult>, keep: Seq<bool>) -> Seq<CheckResult>
    decreases items.len(),
{
    if items.len() == 0 || keep.len() != items.len() {
        Seq::empty()
    } else {
        let rest = select(items.drop_last(), keep.drop_last());
        if keep.last() {
            rest.push(items.last())
        } else {
            rest
        }
    }
}

/// Recovery flags kept only when recovery notices are enabled.
pub open spec fn gated(flags: Seq<bool>, enabled: bool) -> Seq<bool> {
    flags.map_values(|f: bool| f && enabled)
}

/// Applies each check result to the state of its URL (result `i` to state `i`, each at
/// the instant it is applied); returns the results to alert about and, when recovery
/// notices are enabled, the results that recovered.
pub fn record_results(
    statuses: &mut Vec<UrlStatus>,
    results: &Vec<CheckResult>,
    config: &MonitorConfig,
) -> (res: (Vec<CheckResult>, Vec<CheckResult>))
    requires
        results@.len() <= old(statuses)@.len(),
        forall|i: int|
            0 <= i < results@.len() ==> results@[i].success || old(statuses)@[i].consecutive_failures
                < u32::MAX,
    ensures
        final(statuses)@.len() == old(statuses)@.len(),
        forall|i: int|
            results@.len() <= i < old(statuses)@.len() ==> final(statuses)@[i] == old(statuses)@[i],
        exists|fails: Seq<bool>, recs: Seq<bool>|
            #![trigger select(results@, fails), gated(recs, config.recovery_notification)]
            {
                &&& fails.len() == results@.len()
                &&& recs.len() == results@.len()
                &&& forall|i: int|
                    0 <= i < results@.len() ==> is_step(
                        old(statuses)@[i],
                        results@[i],
                        config.failure_threshold,
                        #[trigger] final(statuses)@[i],
                        fails[i],
                        recs[i],
                    )
                &&& res.0@ == select(results@, fails)
                &&& res.1@ == select(results@, gated(recs, config.recovery_notification))
            },
{
    let mut failed: Vec<CheckResult> = Vec::new();
    let mut recovered: Vec<CheckResult> = Vec::new();
    let ghost mut fails: Seq<bool> = Seq::empty();
    let ghost mut recs: Seq<bool> = Seq::empty();
    let n = results.len();
    for i in 0..n
        invariant
            n == results@.len(),
            n <= old(statuses)@.len(),
            statuses@.len() == old(statuses)@.len(),
            forall|j: int|
                0 <= j < n ==> results@[j].success || old(statuses)@[j].consecutive_failures
                    < u32::MAX,
            forall|j: int| i <= j < statuses@.len() ==> statuses@[j] == old(statuses)@[j],
            fails.len() == i,
            recs.len() == i,
            forall|j: int|
                0 <= j < i ==> is_step(
                    old(statuses)@[j],
                    results@[j],
                    config.failure_threshold,
                    #[trigger] statuses@[j],
                    fails[j],
                    recs[j],
                ),
            failed@ == select(results@.take(i as int), fails),
            recovered@ == select(results@.take(i as int), gated(recs, config.recovery_notification)),
    {
        let ghost old_fails = fails;
        let ghost old_recs = recs;
        let (should_notify_failure, should_notify_recovery) = statuses[i].update(&results[i], config);
        proof {
            fails = fails.push(should_notify_failure);
            recs = recs.push(should_notify_recovery);
        }
        let ghost taken = results@.take(i + 1);
        assert(taken.drop_last() =~= results@.take(i as int));
        assert(taken.last() == results@[i as int]);
        assert(fails.drop_last() =~= old_fails);
        assert(gated(recs, config.recovery_notification).drop_last() =~= gated(
            old_recs,
            config.recovery_notification,
        ));
        assert(gated(recs, config.recovery_notification).last() == (should_notify_recovery
            && config.recovery_notification));
        if should_notify_failure {
            failed.push(results[i].clone());
        }
        if should_notify_recovery && config.recovery_notification {
            recovered.push(results[i].clone());
        }
    }
    assert(results@.take(n as int) =~= results@);
    (failed, recovered)
}

/// Whether `after` is `before` marked as delivered at some instant.
pub open spec fn was_delivered(before: UrlStatus, after: UrlStatus) -> bool {
    exists|now: Moment| after == #[trigger] delivered(before, now)
}

/// Marks every URL with an undelivered alert as delivered (each at the instant it is
/// marked); leaves the others unchanged.
pub fn mark_pending_sent(statuses: &mut Vec<UrlStatus>)
    ensures
        final(statuses)@.len() == old(statuses)@.len(),
        forall|i: int|
            0 <= i < old(statuses)@.len() ==> if old(statuses)@[i].pending_notification {
                was_delivered(old(statuses)@[i], final(statuses)@[i])
            } else {
                final(statuses)@[i] == old(statuses)@[i]
            },
{
    let n = statuses.len();
    for i in 0..n
        invariant
            n == old(statuses)@.len(),
            statuses@.len() == n,
            forall|j: int| i <= j < n ==> statuses@[j] == old(statuses)@[j],
            forall|j: int|
                0 <= j < i ==> if old(statuses)@[j].pending_notification {
                    was_delivered(old(statuses)@[j], statuses@[j])
                } else {
                    statuses@[j] == old(statuses)@[j]
                },
    {
        if statuses[i].pending_notification {
            statuses[i].mark_notification_sent();
        }
    }
}

} // verus!
verus! {

/// How many checks may run at once under the limit `max`: the limit itself, or one when
/// the limit is zero.
pub open spec fn batch_size(max: usize) -> int {
    if max == 0 {
        1
    } else {
        max as int
    }
}

/// Whether `batches` split the indices `0..n` into consecutive ranges `[start, end)`, in
/// order, each of `size` indices but the last, which has between one and `size`.
pub open spec fn is_batching(batches: Seq<(usize, usize)>, n: int, size: int) -> bool {
    &&& n == 0 <==> batches.len() == 0
    &&& batches.len() > 0 ==> batches[0].0 == 0 && batches.last().1 == n
    &&& forall|i: int|
        0 <= i < batches.len() ==> #[trigger] batches[i].0 < batches[i].1 && batches[i].1
            - batches[i].0 <= size
    &&& forall|i: int|
        0 <= i < batches.len() - 1 ==> #[trigger] batches[i].1 == batches[i + 1].0 && batches[i].1
            - batches[i].0 == size
}

/// The batches in which `n` checks are run so that at most `max` run at once (one at a
/// time when `max` is zero): each batch is awaited before the next one starts.
pub fn check_batches(n: usize, max: usize) -> (res: Vec<(usize, usize)>)
    ensures
        is_batching(res@, n as int, batch_size(max)),
{
    let size: usize = if max == 0 {
        1
    } else {
        max
    };
    let mut res: Vec<(usize, usize)> = Vec::new();
    let mut start: usize = 0;
    while start < n
        invariant
            size == batch_size(max),
            size >= 1,
            start <= n,
            start == 0 <==> res@.len() == 0,
            res@.len() > 0 ==> res@[0].0 == 0 && res@.last().1 == start,
            forall|i: int|
                0 <= i < res@.len() ==> #[trigger] res@[i].0 < res@[i].1 && res@[i].1 - res@[i].0
                    <= size,
            start < n ==> forall|i: int|
                0 <= i < res@.len() ==> #[trigger] res@[i].1 - res@[i].0 == size,
            forall|i: int|
                0 <= i < res@.len() - 1 ==> #[trigger] res@[i].1 == res@[i + 1].0 && res@[i].1
                    - res@[i].0 == size,
        decreases n - start,
    {
        let end: usize = if n - start > size {
            start + size
        } else {
            n
        };
        res.push((start, end));
        start = end;
    }
    res
}

/// A batching runs every index exactly once: each index below `n` lies in exactly one
/// batch.
pub proof fn law_batches_cover(batches: Seq<(usize, usize)>, n: int, size: int, k: int)
    requires
        is_batching(batches, n, size),
        0 <= k < n,
    ensures
        exists|i: int| 0 <= i < batches.len() && batches[i].0 <= k < #[trigger] batches[i].1,
        forall|i: int, j: int|
            0 <= i < batches.len() && 0 <= j < batches.len() && batches[i].0 <= k
                < #[trigger] batches[i].1 && batches[j].0 <= k < #[trigger] batches[j].1 ==> i == j,
{
    lemma_batches_ordered(batches, n, size);
    lemma_batches_reach(batches, n, size, k);
}

proof fn lemma_batches_ordered(batches: Seq<(usize, usize)>, n: int, size: int)
    requires
        is_batching(batches, n, size),
    ensures
        forall|i: int, j: int|
            0 <= i < j < batches.len() ==> #[trigger] batches[i].1 <= #[trigger] batches[j].0,
{
    assert forall|i: int, j: int| 0 <= i < j < batches.len() implies #[trigger] batches[i].1
        <= #[trigger] batches[j].0 by {
        lemma_batch_step(batches, n, size, i, j);
    }
}

proof fn lemma_batch_step(batches: Seq<(usize, usize)>, n: int, size: int, i: int, j: int)
    requires
        is_batching(batches, n, size),
        0 <= i < j < batches.len(),
    ensures
        batches[i].1 <= batches[j].0,
    decreases j - i,
{
    assert(batches[j - 1].1 == batches[j].0);
    if j - 1 > i {
        lemma_batch_step(batches, n, size, i, j - 1);
        assert(batches[j - 1].0 < batches[j - 1].1);
    }
}

proof fn lemma_batches_reach(batches: Seq<(usize, usize)>, n: int, size: int, k: int)
    requires
        is_batching(batches, n, size),
        0 <= k < n,
    ensures
        exists|i: int| 0 <= i < batches.len() && batches[i].0 <= k < #[trigger] batches[i].1,
{
    lemma_batches_reach_from(batches, n, size, k, 0);
}

proof fn lemma_batches_reach_from(batches: Seq<(usize, usize)>, n: int, size: int, k: int, i: int)
    requires
        is_batching(batches, n, size),
        0 <= k < n,
        0 <= i < batches.len(),
        batches[i].0 <= k,
    ensures
        exists|j: int| 0 <= j < batches.len() && batches[j].0 <= k < #[trigger] batches[j].1,
    decreases batches.len() - i,
{
    if k < batches[i].1 {
        assert(batches[i].0 <= k < batches[i].1);
    } else {
        assert(i + 1 < batches.len());
        assert(batches[i].1 == batches[i + 1].0);
        lemma_batches_reach_from(batches, n, size, k, i + 1);
    }
}

} // verus!
