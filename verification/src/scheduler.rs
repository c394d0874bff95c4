use vstd::prelude::*;
use std::time::Duration;
use crate::retry::{duration_of_secs, retry_delay, retry_delay_secs};

verus! {

/// Bookkeeping that keeps network checks from overlapping and paces retries after failures.
///
/// At most one check runs at a time; a check requested meanwhile is remembered in
/// `check_pending` and started when the running one has been handled. At most one retry
/// is scheduled at a time, `retry_attempt` counts the failures since the last success,
/// and a failure is announced to the user once until a check succeeds again.
#[derive(Debug, Clone, Copy, PartialEq, Eq, Structural)]
pub struct CheckScheduler {
    pub check_in_progress: bool,
    pub check_pending: bool,
    pub prompt_in_progress: bool,
    pub retry_attempt: u32,
    pub retry_scheduled: bool,
    pub error_notified: bool,
}

/// What to do after a check has come back.
#[derive(Debug, Clone, Copy)]
pub enum CheckStep {
    /// The check failed: tell the user when `notify`, and wait `retry` before the next one
    /// (`None` when a retry is already scheduled).
    Failed { notify: bool, retry: Option<Duration> },
    /// Another evaluation is under way; this result is dropped and a new check will follow it.
    Deferred,
    /// Evaluate the network now, then call [`CheckScheduler::finish_evaluation`].
    Evaluate,
}

/// The state in which nothing is running or scheduled.
pub open spec fn idle_scheduler() -> CheckScheduler {
    CheckScheduler {
        check_in_progress: false,
        check_pending: false,
        prompt_in_progress: false,
        retry_attempt: 0,
        retry_scheduled: false,
        error_notified: false,
    }
}

/// Asking for a check: it starts when none runs, else it is remembered as pending.
pub open spec fn begin_check_spec(s: CheckScheduler) -> (CheckScheduler, bool) {
    if s.check_in_progress {
        (CheckScheduler { check_pending: true, ..s }, false)
    } else {
        (CheckScheduler { check_in_progress: true, ..s }, true)
    }
}

/// Scheduling a retry: refused while one is scheduled; otherwise the failure count
/// grows by one (wrapping, as an atomic counter does) and the retry is numbered with
/// the count plus one, saturated.
pub open spec fn schedule_retry_spec(s: CheckScheduler) -> (CheckScheduler, Option<u32>) {
    if s.retry_scheduled {
        (s, None)
    } else {
        let attempt: u32 = if s.retry_attempt == u32::MAX { u32::MAX } else { (s.retry_attempt + 1) as u32 };
        let stored: u32 = if s.retry_attempt == u32::MAX { 0 } else { (s.retry_attempt + 1) as u32 };
        (CheckScheduler { retry_scheduled: true, retry_attempt: stored, ..s }, Some(attempt))
    }
}

/// The wait that a scheduled retry number announces.
pub open spec fn retry_wait(attempt: Option<u32>) -> Option<Duration> {
    match attempt {
        Some(a) => Some(duration_of_secs(retry_delay_secs(a) as u64)),
        None => None,
    }
}

/// Reporting a failure: announced only when no failure has been announced since the
/// last success.
pub open spec fn report_error_spec(s: CheckScheduler) -> (CheckScheduler, bool) {
    (CheckScheduler { error_notified: true, ..s }, !s.error_notified)
}

/// The effect of a failed check: report it, schedule a retry, forget the pending request.
pub open spec fn fail_spec(s: CheckScheduler) -> (CheckScheduler, bool, Option<u32>) {
    let (s1, notify) = report_error_spec(s);
    let (s2, attempt) = schedule_retry_spec(s1);
    (CheckScheduler { check_pending: false, ..s2 }, notify, attempt)
}

/// A check result arriving: the check is over; a failure is handled as [`fail_spec`]
/// says; a success clears the failure count and the announcement, then either starts
/// an evaluation or, while one runs, marks a new check as pending.
pub open spec fn record_result_spec(s: CheckScheduler, succeeded: bool) -> (CheckScheduler, CheckStep) {
    let s0 = CheckScheduler { check_in_progress: false, ..s };
    if !succeeded {
        let (s1, notify, attempt) = fail_spec(s0);
        (s1, CheckStep::Failed { notify, retry: retry_wait(attempt) })
    } else {
        let s1 = CheckScheduler { retry_attempt: 0, error_notified: false, ..s0 };
        if s1.prompt_in_progress {
            (CheckScheduler { check_pending: true, ..s1 }, CheckStep::Deferred)
        } else {
            (CheckScheduler { prompt_in_progress: true, ..s1 }, CheckStep::Evaluate)
        }
    }
}

/// Ending an evaluation: a pending check, if any, is to be started now.
pub open spec fn finish_evaluation_spec(s: CheckScheduler) -> (CheckScheduler, bool) {
    (CheckScheduler { prompt_in_progress: false, check_pending: false, ..s }, s.check_pending)
}

/// While a retry is scheduled, asking for another is refused and changes nothing.
pub proof fn lemma_one_retry_at_a_time(s: CheckScheduler)
    ensures
        schedule_retry_spec(s).1 is Some ==> schedule_retry_spec(schedule_retry_spec(s).0)
            == (schedule_retry_spec(s).0, None::<u32>),
        schedule_retry_spec(s).0.retry_scheduled,
{
}

/// A failure is announced once: a second report before any success stays silent,
/// and after a successful check the next failure is announced again.
pub proof fn lemma_failure_announced_once(s: CheckScheduler)
    ensures
        !report_error_spec(report_error_spec(s).0).1,
        report_error_spec(record_result_spec(s, true).0).1,
{
}

/// Checks never overlap: asking while one runs does not start a second, and the request
/// is served once the running check has succeeded and its evaluation is over.
pub proof fn lemma_requested_check_is_not_lost(s: CheckScheduler)
    requires
        s.check_in_progress,
        !s.prompt_in_progress,
    ensures
        !begin_check_spec(s).1,
        begin_check_spec(s).0.check_in_progress,
        record_result_spec(begin_check_spec(s).0, true).1 is Evaluate,
        finish_evaluation_spec(record_result_spec(begin_check_spec(s).0, true).0).1,
{
}

/// After a success the back-off starts over: the first retry after the next failure is
/// numbered 1 and waits two seconds.
pub proof fn lemma_success_resets_backoff(s: CheckScheduler)
    requires
        !s.retry_scheduled,
    ensures
        record_result_spec(record_result_spec(s, true).0, false).1
            == (CheckStep::Failed {
                notify: true,
                retry: Some(duration_of_secs(2)),
            }),
{
    vstd::arithmetic::power2::lemma2_to64();
}

/// Each failure handled while no retry is pending counts one more attempt, so the waits grow.
pub proof fn lemma_failures_back_off(s: CheckScheduler)
    requires
        !s.retry_scheduled,
        s.retry_attempt < u32::MAX,
    ensures
        fail_spec(s).2 == Some((s.retry_attempt + 1) as u32),
        fail_spec(s).0.retry_attempt == s.retry_attempt + 1,
{
}

impl CheckScheduler {
    /// Nothing running, nothing scheduled, no failure counted.
    pub fn new() -> (r: Self)
        ensures
            r == idle_scheduler(),
    {
        CheckScheduler {
            check_in_progress: false,
            check_pending: false,
            prompt_in_progress: false,
            retry_attempt: 0,
            retry_scheduled: false,
            error_notified: false,
        }
    }

    /// Asks for a check; `true` when the caller is to run it now.
    pub fn begin_check(&mut self) -> (started: bool)
        ensures
            (*final(self), started) == begin_check_spec(*old(self)),
    {
        if self.check_in_progress {
            self.check_pending = true;
            false
        } else {
            self.check_in_progress = true;
            true
        }
    }

    /// The check that was started could not deliver its result.
    pub fn abandon_check(&mut self)
        ensures
            *final(self) == (CheckScheduler { check_in_progress: false, ..*old(self) }),
    {
        self.check_in_progress = false;
    }

    /// Records a failure to report; `true` when the user is to be told.
    pub fn report_error(&mut self) -> (notify: bool)
        ensures
            (*final(self), notify) == report_error_spec(*old(self)),
    {
        let notify = !self.error_notified;
        self.error_notified = true;
        notify
    }

    /// Schedules a retry; the wait before it, or `None` when one is already scheduled.
    pub fn schedule_retry(&mut self) -> (wait: Option<Duration>)
        ensures
            *final(self) == schedule_retry_spec(*old(self)).0,
            wait == retry_wait(schedule_retry_spec(*old(self)).1),
    {
        if self.retry_scheduled {
            return None;
        }
        self.retry_scheduled = true;
        let previous = self.retry_attempt;
        self.retry_attempt = previous.wrapping_add(1);
        let attempt = previous.saturating_add(1);
        Some(retry_delay(attempt))
    }

    /// The scheduled retry has fired, or could not be set up.
    pub fn release_retry(&mut self)
        ensures
            *final(self) == (CheckScheduler { retry_scheduled: false, ..*old(self) }),
    {
        self.retry_scheduled = false;
    }

    /// A check could not be started: it is no longer in progress and counts as a failure.
    pub fn start_failed(&mut self) -> (r: (bool, Option<Duration>))
        ensures
            *final(self) == (CheckScheduler { check_pending: old(self).check_pending,
                ..fail_spec(CheckScheduler { check_in_progress: false, ..*old(self) }).0 }),
            r.0 == fail_spec(*old(self)).1,
            r.1 == retry_wait(fail_spec(*old(self)).2),
    {
        self.check_in_progress = false;
        let notify = self.report_error();
        let wait = self.schedule_retry();
        (notify, wait)
    }

    /// A check came back; `succeeded` is false when printers or the network could not be read.
    pub fn record_result(&mut self, succeeded: bool) -> (step: CheckStep)
        ensures
            (*final(self), step) == record_result_spec(*old(self), succeeded),
    {
        self.check_in_progress = false;
        if !succeeded {
            let notify = self.report_error();
            let retry = self.schedule_retry();
            self.check_pending = false;
            return CheckStep::Failed { notify, retry };
        }
        self.retry_attempt = 0;
        self.error_notified = false;
        if self.prompt_in_progress {
            self.check_pending = true;
            CheckStep::Deferred
        } else {
            self.prompt_in_progress = true;
            CheckStep::Evaluate
        }
    }

    /// The evaluation is over; `true` when a check that was asked for meanwhile is to start.
    pub fn finish_evaluation(&mut self) -> (restart: bool)
        ensures
            (*final(self), restart) == finish_evaluation_spec(*old(self)),
    {
        let restart = self.check_pending;
        self.prompt_in_progress = false;
        self.check_pending = false;
        restart
    }
}

} // verus!
