//! A fixed time budget consumed by an owned stopwatch. The countdown
//! delegates every transition to its engine; its own queries clamp the
//! engine's elapsed time at the budget, so the reported spent time
//! never exceeds the budget and the remaining time never goes negative.

use super::stopwatch::Stopwatch;
use super::{ClockCommand, ClockDuration, InvalidDateInFuture, TimeImpl, UtcDateTime, UtcTimeImpl};
use vstd::prelude::*;

verus! {

/// A countdown: a budget (`time`) and the stopwatch consuming it.
pub struct CountDown<T = UtcTimeImpl> {
    /// The engine measuring elapsed time.
    pub stopwatch: Stopwatch<T>,
    /// The fixed budget, immutable after construction.
    pub time: ClockDuration,
}

impl<T> CountDown<T> {
    /// Engine and budget well-formed.
    pub open spec fn wf(&self) -> bool {
        self.stopwatch.wf() && self.time.wf()
    }

    /// The spent time at `now`, in nanoseconds: the engine's elapsed
    /// time, clamped at the budget once the budget is exhausted.
    pub open spec fn spec_passed(self, now: UtcDateTime) -> int {
        let p = self.stopwatch.spec_passed(now);
        if p >= self.time@ {
            self.time@
        } else {
            p
        }
    }

    /// The remaining time at `now`, in nanoseconds: the budget less the
    /// clamped spent time, never negative. Should the difference exceed
    /// the largest representable span (which takes an engine driven to
    /// an astronomically negative elapsed time), it saturates there.
    pub open spec fn spec_left_time(self, now: UtcDateTime) -> int {
        let left = self.time@ - self.spec_passed(now);
        if left <= i64::MAX as int * 1_000_000_000 + 999_999_999 {
            left
        } else {
            i64::MAX as int * 1_000_000_000 + 999_999_999
        }
    }

    /// The fixed budget.
    pub fn count_down_time(&self) -> (r: ClockDuration)
        ensures
            r == self.time,
    {
        self.time
    }

    /// Read access to the engine.
    pub fn stopwatch(&self) -> (r: &Stopwatch<T>)
        ensures
            r == &self.stopwatch,
    {
        &self.stopwatch
    }

    /// The spent time as observed at `now`, clamped at the budget.
    pub fn passed_at(&self, now: UtcDateTime) -> (r: ClockDuration)
        requires
            self.wf(),
            now.wf(),
        ensures
            r.wf(),
            r@ == self.spec_passed(now),
    {
        let p = self.stopwatch.passed_at(now);
        if self.time.le(&p) {
            self.time
        } else {
            p
        }
    }

    /// The remaining time as observed at `now`; never negative.
    pub fn left_time_at(&self, now: UtcDateTime) -> (r: ClockDuration)
        requires
            self.wf(),
            now.wf(),
        ensures
            r.wf(),
            r@ == self.spec_left_time(now),
            r@ >= 0,
    {
        let p = self.passed_at(now);
        let v: i128 = (self.time.secs as i128 * 1_000_000_000 + self.time.nanos as i128) - (
        p.secs as i128 * 1_000_000_000 + p.nanos as i128);
        if v <= 9_223_372_036_854_775_807i128 * 1_000_000_000 + 999_999_999 {
            ClockDuration::from_total_nanos(v)
        } else {
            ClockDuration { secs: i64::MAX, nanos: 999_999_999 }
        }
    }
}

impl<T: TimeImpl> CountDown<T> {
    /// Starts a countdown of budget `time` on the given clock,
    /// beginning now.
    pub fn new_with_impl(time_impl: T, time: ClockDuration) -> (r: CountDown<T>)
        requires
            time.wf(),
        ensures
            r.wf(),
            r.time == time,
            !r.stopwatch.is_paused,
            r.stopwatch.paused_time@ == 0,
            r.stopwatch.passed_time_between_pauses@ == 0,
            exists|now: UtcDateTime|
                #[trigger] now.wf() && r.stopwatch == Stopwatch::<T>::spec_fresh(
                    now,
                    r.stopwatch.time_impl,
                ),
    {
        let stopwatch = Stopwatch::new_with_impl(time_impl);
        CountDown { stopwatch, time }
    }

    /// The spent time at the clock's current reading, clamped at the
    /// budget.
    pub fn passed(&self) -> (r: ClockDuration)
        requires
            self.wf(),
        ensures
            r.wf(),
            exists|now: UtcDateTime| #[trigger] now.wf() && r@ == self.spec_passed(now),
    {
        let now = self.stopwatch.time_impl.now();
        let r = self.passed_at(now);
        proof {
            assert(now.wf() && r@ == self.spec_passed(now));
        }
        r
    }

    /// The remaining time at the clock's current reading; never
    /// negative.
    pub fn left_time(&self) -> (r: ClockDuration)
        requires
            self.wf(),
        ensures
            r.wf(),
            r@ >= 0,
            exists|now: UtcDateTime| #[trigger] now.wf() && r@ == self.spec_left_time(now),
    {
        let now = self.stopwatch.time_impl.now();
        let r = self.left_time_at(now);
        proof {
            assert(now.wf() && r@ == self.spec_left_time(now));
        }
        r
    }

    /// Pauses the engine; a no-op while paused.
    pub fn pause(&mut self)
        requires
            old(self).wf(),
        ensures
            final (self).wf(),
            final (self).time == old(self).time,
            exists|now: UtcDateTime|
                #[trigger] now.wf() && final (self).stopwatch == old(self).stopwatch.spec_pause(
                    now,
                ),
    {
        self.stopwatch.pause();
    }

    /// Resumes the engine; a no-op while running.
    pub fn resume(&mut self)
        requires
            old(self).wf(),
        ensures
            final (self).wf(),
            final (self).time == old(self).time,
            exists|now: UtcDateTime|
                #[trigger] now.wf() && final (self).stopwatch == old(self).stopwatch.spec_resume(
                    now,
                ),
    {
        self.stopwatch.resume();
    }

    /// Resets the engine to a fresh start at the clock's current
    /// reading; the budget is kept.
    pub fn reset(&mut self)
        requires
            old(self).wf(),
        ensures
            final (self).wf(),
            final (self).time == old(self).time,
            exists|now: UtcDateTime|
                #[trigger] now.wf() && final (self).stopwatch == old(self).stopwatch.spec_reset(
                    now,
                ),
    {
        self.stopwatch.reset();
    }

    /// Performs the commanded transition on the engine at the clock's
    /// current reading; the budget is kept.
    pub fn apply(&mut self, cmd: ClockCommand)
        requires
            old(self).wf(),
        ensures
            final (self).wf(),
            final (self).time == old(self).time,
            exists|now: UtcDateTime|
                #[trigger] now.wf() && final (self).stopwatch == old(self).stopwatch.spec_apply(
                    cmd,
                    now,
                ),
    {
        self.stopwatch.apply(cmd);
    }

    /// The total time the engine has spent paused, at the clock's
    /// current reading.
    pub fn paused_time(&self) -> (r: ClockDuration)
        requires
            self.wf(),
        ensures
            r.wf(),
            exists|now: UtcDateTime|
                #[trigger] now.wf() && r@ == self.stopwatch.spec_paused_time(now),
    {
        self.stopwatch.paused_time()
    }
}

impl<T> CountDown<T> {
    /// Whether the engine is paused.
    pub fn is_paused(&self) -> (r: bool)
        ensures
            r == self.stopwatch.is_paused,
    {
        self.stopwatch.is_paused()
    }

    /// When the engine was created or last reset.
    pub fn created_at(&self) -> (t: UtcDateTime)
        ensures
            t == self.stopwatch.start_moment,
    {
        self.stopwatch.created_at()
    }

    /// When the engine's measured span began.
    pub fn start_moment(&self) -> (t: UtcDateTime)
        ensures
            t == self.stopwatch.start_moment,
    {
        self.stopwatch.start_moment()
    }

    /// The engine's most recent resume instant, if any.
    pub fn last_resumed_at(&self) -> (t: Option<UtcDateTime>)
        ensures
            t == self.stopwatch.last_resume_moment,
    {
        self.stopwatch.last_resumed_at()
    }

    /// The engine's most recent pause instant, if any.
    pub fn last_paused_at(&self) -> (t: Option<UtcDateTime>)
        ensures
            t == self.stopwatch.last_paused_at,
    {
        self.stopwatch.last_paused_at()
    }
}

impl CountDown<UtcTimeImpl> {
    /// Starts a countdown of budget `time` on the real clock, beginning
    /// now.
    pub fn new(time: ClockDuration) -> (r: CountDown<UtcTimeImpl>)
        requires
            time.wf(),
        ensures
            r.wf(),
            r.time == time,
            !r.stopwatch.is_paused,
    {
        CountDown::new_with_impl(UtcTimeImpl, time)
    }

    /// Starts a countdown at a caller-supplied moment, rejecting one
    /// strictly after the real clock's current reading.
    pub fn new_with_start(time: ClockDuration, start: UtcDateTime) -> (r: Result<
        CountDown<UtcTimeImpl>,
        InvalidDateInFuture,
    >)
        requires
            time.wf(),
            start.wf(),
        ensures
            r matches Ok(cd) ==> cd.wf() && cd.time == time && cd.stopwatch
                == Stopwatch::<UtcTimeImpl>::spec_fresh(start, cd.stopwatch.time_impl),
            exists|now: UtcDateTime|
                #[trigger] now.wf() && ((r matches Err(e) ==> Err::<(), _>(e)
                    == super::spec_check_not_in_future(now, start)) && (r is Ok
                    <==> super::spec_check_not_in_future(now, start) is Ok)),
    {
        match Stopwatch::new_with_impl_and_start_date(UtcTimeImpl, start) {
            Ok(stopwatch) => Ok(CountDown { stopwatch, time }),
            Err(e) => Err(e),
        }
    }
}

/// The countdown's clamp keeps its reports inside the budget: at every
/// instant the spent time is at most the budget, and the remaining time
/// is exactly the budget less the spent time and never negative.
pub proof fn lemma_count_down_clamped<T>(cd: CountDown<T>, now: UtcDateTime)
    requires
        cd.wf(),
    ensures
        cd.spec_passed(now) <= cd.time@,
        cd.spec_left_time(now) >= 0,
        cd.spec_left_time(now) <= cd.time@ - cd.spec_passed(now),
{
}

} // verus!
