//! The elapsed-time state machine. A stopwatch is either running or
//! paused; it banks the time elapsed while running in one accumulator
//! and the time spent paused in a second, reporting-only accumulator,
//! so that each query is a pure function of the state and the observed
//! instant.
//!
//! Every transition is specified as a function of the state and the
//! instant the clock reported (`spec_pause`, `spec_resume`,
//! `spec_reset`); the clock-reading methods promise exactly that some
//! well-formed instant was observed and the matching transition taken.

use super::{ClockCommand, ClockDuration, TimeImpl, UtcDateTime, UtcTimeImpl};
use vstd::prelude::*;

verus! {

/// Cap on the whole seconds of a stopwatch accumulator, far beyond any
/// reachable span but leaving arithmetic room for one more instant
/// difference below the representable maximum. A transition whose
/// accumulator would pass the cap leaves the stopwatch unchanged
/// instead of overflowing.
pub const ACC_CAP_SECS: i64 = 9_000_000_000_000_000_000;

/// The elapsed-time tracker.
pub struct Stopwatch<T = UtcTimeImpl> {
    /// When the measured span began; set at construction and by reset.
    pub start_moment: UtcDateTime,
    /// The instant of the most recent resume, once one has happened.
    pub last_resume_moment: Option<UtcDateTime>,
    /// The instant of the most recent pause, once one has happened.
    pub last_paused_at: Option<UtcDateTime>,
    /// Whether the stopwatch is currently paused.
    pub is_paused: bool,
    /// Total time spent paused, for reporting only; never feeds back
    /// into the elapsed time.
    pub paused_time: ClockDuration,
    /// Elapsed running time banked at the moment of the latest pause.
    pub passed_time_between_pauses: ClockDuration,
    /// The clock this stopwatch reads.
    pub time_impl: T,
}

impl<T> Stopwatch<T> {
    /// Accumulators normalized and under the cap, instants in range.
    pub open spec fn wf(&self) -> bool {
        &&& self.start_moment.wf()
        &&& match self.last_resume_moment {
            Some(t) => t.wf(),
            None => true,
        }
        &&& match self.last_paused_at {
            Some(t) => t.wf(),
            None => true,
        }
        &&& self.paused_time.wf()
        &&& -ACC_CAP_SECS <= self.paused_time.secs <= ACC_CAP_SECS
        &&& self.passed_time_between_pauses.wf()
        &&& -ACC_CAP_SECS <= self.passed_time_between_pauses.secs <= ACC_CAP_SECS
    }

    /// The reference instant for running time: the latest resume, or
    /// the start when the stopwatch never paused.
    pub open spec fn resume_moment_spec(self) -> UtcDateTime {
        match self.last_resume_moment {
            Some(t) => t,
            None => self.start_moment,
        }
    }

    /// The reference instant for the pause in progress: the latest
    /// pause, or the start.
    pub open spec fn pause_moment_spec(self) -> UtcDateTime {
        match self.last_paused_at {
            Some(t) => t,
            None => self.start_moment,
        }
    }

    /// The elapsed "work" time at `now`, in nanoseconds: frozen while
    /// paused, otherwise the banked time plus the current running
    /// stretch.
    pub open spec fn spec_passed(self, now: UtcDateTime) -> int {
        if self.is_paused {
            self.passed_time_between_pauses@
        } else {
            self.passed_time_between_pauses@ + (now@ - self.resume_moment_spec()@)
        }
    }

    /// The total time spent paused at `now`, in nanoseconds: the banked
    /// total plus, while paused, the pause in progress.
    pub open spec fn spec_paused_time(self, now: UtcDateTime) -> int {
        if self.is_paused {
            self.paused_time@ + (now@ - self.pause_moment_spec()@)
        } else {
            self.paused_time@
        }
    }

    /// A freshly started stopwatch: running, begun at `start`, both
    /// accumulators empty.
    pub open spec fn spec_fresh(start: UtcDateTime, time_impl: T) -> Stopwatch<T> {
        Stopwatch {
            start_moment: start,
            last_resume_moment: None,
            last_paused_at: None,
            is_paused: false,
            paused_time: ClockDuration { secs: 0, nanos: 0 },
            passed_time_between_pauses: ClockDuration { secs: 0, nanos: 0 },
            time_impl,
        }
    }

    /// The state after a pause observed at `now`: a no-op while already
    /// paused; otherwise the running stretch is banked, the pause
    /// instant recorded, and the state becomes paused. When the banked
    /// total would pass the accumulator cap the stopwatch is left
    /// unchanged.
    pub open spec fn spec_pause(self, now: UtcDateTime) -> Stopwatch<T> {
        if self.is_paused {
            self
        } else {
            let acc = self.passed_time_between_pauses@ + (now@ - self.resume_moment_spec()@);
            if ClockDuration::sum_within(acc, ACC_CAP_SECS as int) {
                Stopwatch {
                    is_paused: true,
                    last_paused_at: Some(now),
                    passed_time_between_pauses: ClockDuration::norm(acc),
                    ..self
                }
            } else {
                self
            }
        }
    }

    /// The state after a resume observed at `now`: a no-op while
    /// already running; otherwise the finished pause is added to the
    /// reporting accumulator, the resume instant recorded, and the
    /// state becomes running. When the reporting total would pass the
    /// accumulator cap the stopwatch is left unchanged.
    pub open spec fn spec_resume(self, now: UtcDateTime) -> Stopwatch<T> {
        if !self.is_paused {
            self
        } else {
            let acc = self.paused_time@ + (now@ - self.pause_moment_spec()@);
            if ClockDuration::sum_within(acc, ACC_CAP_SECS as int) {
                Stopwatch {
                    is_paused: false,
                    last_resume_moment: Some(now),
                    paused_time: ClockDuration::norm(acc),
                    ..self
                }
            } else {
                self
            }
        }
    }

    /// The state after a reset observed at `now`: as freshly
    /// constructed at `now`, unconditionally.
    pub open spec fn spec_reset(self, now: UtcDateTime) -> Stopwatch<T> {
        Stopwatch { time_impl: self.time_impl, ..Self::spec_fresh(now, self.time_impl) }
    }

    /// The transition a command stands for, at the observed instant.
    pub open spec fn spec_apply(self, cmd: ClockCommand, now: UtcDateTime) -> Stopwatch<T> {
        match cmd {
            ClockCommand::Pause => self.spec_pause(now),
            ClockCommand::Resume => self.spec_resume(now),
            ClockCommand::Reset => self.spec_reset(now),
        }
    }
}

impl<T> Stopwatch<T> {
    /// When the measured span began.
    pub fn start_moment(&self) -> (t: UtcDateTime)
        ensures
            t == self.start_moment,
    {
        self.start_moment
    }

    /// The instant of the most recent pause, if any.
    pub fn last_paused_at(&self) -> (t: Option<UtcDateTime>)
        ensures
            t == self.last_paused_at,
    {
        self.last_paused_at
    }

    /// The instant of the most recent resume, if any.
    pub fn last_resumed_at(&self) -> (t: Option<UtcDateTime>)
        ensures
            t == self.last_resume_moment,
    {
        self.last_resume_moment
    }

    /// Whether the stopwatch is paused.
    pub fn is_paused(&self) -> (r: bool)
        ensures
            r == self.is_paused,
    {
        self.is_paused
    }

    /// Same instant as [`Self::start_moment`]: when the stopwatch was
    /// created or last reset.
    pub fn created_at(&self) -> (t: UtcDateTime)
        ensures
            t == self.start_moment,
    {
        self.start_moment
    }

    /// The banked reporting total of time spent paused, without any
    /// pause in progress.
    pub fn paused_time_accumulated(&self) -> (r: ClockDuration)
        ensures
            r == self.paused_time,
    {
        self.paused_time
    }

    /// The banked elapsed running time, frozen at the latest pause.
    pub fn passed_time_between_pauses(&self) -> (r: ClockDuration)
        ensures
            r == self.passed_time_between_pauses,
    {
        self.passed_time_between_pauses
    }

    /// The reference instant for running time.
    fn resume_moment(&self) -> (t: UtcDateTime)
        ensures
            t == self.resume_moment_spec(),
    {
        match self.last_resume_moment {
            Some(t) => t,
            None => self.start_moment,
        }
    }

    /// The reference instant for the pause in progress.
    fn pause_moment(&self) -> (t: UtcDateTime)
        ensures
            t == self.pause_moment_spec(),
    {
        match self.last_paused_at {
            Some(t) => t,
            None => self.start_moment,
        }
    }

    /// The elapsed running time as observed at `now`, excluding every
    /// paused interval.
    pub fn passed_at(&self, now: UtcDateTime) -> (r: ClockDuration)
        requires
            self.wf(),
            now.wf(),
        ensures
            r.wf(),
            r@ == self.spec_passed(now),
    {
        if self.is_paused() {
            self.passed_time_between_pauses
        } else {
            let rm = self.resume_moment();
            let delta = now.signed_duration_since(&rm);
            self.passed_time_between_pauses + delta
        }
    }

    /// The total time spent paused as observed at `now`.
    pub fn paused_time_at(&self, now: UtcDateTime) -> (r: ClockDuration)
        requires
            self.wf(),
            now.wf(),
        ensures
            r.wf(),
            r@ == self.spec_paused_time(now),
    {
        if self.is_paused() {
            let pm = self.pause_moment();
            let delta = now.signed_duration_since(&pm);
            self.paused_time + delta
        } else {
            self.paused_time
        }
    }

    /// Applies the pause transition for the observed instant `now`.
    pub fn pause_at(&mut self, now: UtcDateTime)
        requires
            old(self).wf(),
            now.wf(),
        ensures
            final (self).wf(),
            *final (self) == old(self).spec_pause(now),
    {
        if self.is_paused() {
            return ;
        }
        let rm = self.resume_moment();
        let delta = now.signed_duration_since(&rm);
        match self.passed_time_between_pauses.add_within(delta, ACC_CAP_SECS) {
            Some(acc) => {
                self.is_paused = true;
                self.last_paused_at = Some(now);
                self.passed_time_between_pauses = acc;
            },
            None => {},
        }
    }

    /// Applies the resume transition for the observed instant `now`.
    pub fn resume_at(&mut self, now: UtcDateTime)
        requires
            old(self).wf(),
            now.wf(),
        ensures
            final (self).wf(),
            *final (self) == old(self).spec_resume(now),
    {
        if !self.is_paused() {
            return ;
        }
        let pm = self.pause_moment();
        let delta = now.signed_duration_since(&pm);
        match self.paused_time.add_within(delta, ACC_CAP_SECS) {
            Some(acc) => {
                self.is_paused = false;
                self.last_resume_moment = Some(now);
                self.paused_time = acc;
            },
            None => {},
        }
    }

    /// Applies the reset transition for the observed instant `now`.
    pub fn reset_at(&mut self, now: UtcDateTime)
        requires
            old(self).wf(),
            now.wf(),
        ensures
            final (self).wf(),
            *final (self) == old(self).spec_reset(now),
    {
        self.start_moment = now;
        self.is_paused = false;
        self.last_resume_moment = None;
        self.last_paused_at = None;
        self.passed_time_between_pauses = ClockDuration::zero();
        self.paused_time = ClockDuration::zero();
    }
}

impl<T: TimeImpl> Stopwatch<T> {
    /// Starts a stopwatch on the given clock, beginning now.
    pub fn new_with_impl(time_impl: T) -> (r: Stopwatch<T>)
        ensures
            r.wf(),
            !r.is_paused,
            r.last_resume_moment is None,
            r.last_paused_at is None,
            r.paused_time@ == 0,
            r.passed_time_between_pauses@ == 0,
            r.time_impl == time_impl,
            exists|now: UtcDateTime| #[trigger] now.wf() && r == Self::spec_fresh(now, r.time_impl),
    {
        let now = time_impl.now();
        let r = Stopwatch {
            start_moment: now,
            last_resume_moment: None,
            last_paused_at: None,
            is_paused: false,
            paused_time: ClockDuration::zero(),
            passed_time_between_pauses: ClockDuration::zero(),
            time_impl,
        };
        proof {
            assert(now.wf() && r == Self::spec_fresh(now, r.time_impl));
        }
        r
    }

    /// Starts a stopwatch at a caller-supplied moment, rejecting one
    /// strictly after the clock's current reading.
    pub fn new_with_impl_and_start_date(time_impl: T, date: UtcDateTime) -> (r: Result<
        Stopwatch<T>,
        super::InvalidDateInFuture,
    >)
        requires
            date.wf(),
        ensures
            r matches Ok(sw) ==> sw.wf() && sw == Self::spec_fresh(date, sw.time_impl)
                && sw.time_impl == time_impl,
            exists|now: UtcDateTime|
                #[trigger] now.wf() && ((r matches Err(e) ==> Err::<(), _>(e)
                    == super::spec_check_not_in_future(now, date)) && (r is Ok
                    <==> super::spec_check_not_in_future(now, date) is Ok)),
    {
        let now = time_impl.now();
        let checked = super::check_not_in_future(&now, date);
        proof {
            assert(now.wf());
        }
        match checked {
            Ok(_) => {
                let r = Stopwatch {
                    start_moment: date,
                    last_resume_moment: None,
                    last_paused_at: None,
                    is_paused: false,
                    paused_time: ClockDuration::zero(),
                    passed_time_between_pauses: ClockDuration::zero(),
                    time_impl,
                };
                Ok(r)
            },
            Err(e) => Err(e),
        }
    }

    /// Pauses at the clock's current reading; a no-op while paused.
    pub fn pause(&mut self)
        requires
            old(self).wf(),
        ensures
            final (self).wf(),
            exists|now: UtcDateTime|
                #[trigger] now.wf() && *final (self) == old(self).spec_pause(now),
    {
        let now = self.time_impl.now();
        self.pause_at(now);
        proof {
            assert(now.wf() && *self == old(self).spec_pause(now));
        }
    }

    /// Resumes at the clock's current reading; a no-op while running.
    pub fn resume(&mut self)
        requires
            old(self).wf(),
        ensures
            final (self).wf(),
            exists|now: UtcDateTime|
                #[trigger] now.wf() && *final (self) == old(self).spec_resume(now),
    {
        let now = self.time_impl.now();
        self.resume_at(now);
        proof {
            assert(now.wf() && *self == old(self).spec_resume(now));
        }
    }

    /// Reinitializes as if freshly constructed at the clock's current
    /// reading.
    pub fn reset(&mut self)
        requires
            old(self).wf(),
        ensures
            final (self).wf(),
            exists|now: UtcDateTime|
                #[trigger] now.wf() && *final (self) == old(self).spec_reset(now),
    {
        let now = self.time_impl.now();
        self.reset_at(now);
        proof {
            assert(now.wf() && *self == old(self).spec_reset(now));
        }
    }

    /// Performs the commanded transition at the clock's current
    /// reading.
    pub fn apply(&mut self, cmd: ClockCommand)
        requires
            old(self).wf(),
        ensures
            final (self).wf(),
            exists|now: UtcDateTime|
                #[trigger] now.wf() && *final (self) == old(self).spec_apply(cmd, now),
    {
        match cmd {
            ClockCommand::Pause => {
                self.pause();
                proof {
                    let n = choose|n: UtcDateTime| n.wf() && *self == old(self).spec_pause(n);
                    assert(n.wf() && *self == old(self).spec_apply(cmd, n));
                }
            },
            ClockCommand::Resume => {
                self.resume();
                proof {
                    let n = choose|n: UtcDateTime| n.wf() && *self == old(self).spec_resume(n);
                    assert(n.wf() && *self == old(self).spec_apply(cmd, n));
                }
            },
            ClockCommand::Reset => {
                self.reset();
                proof {
                    let n = choose|n: UtcDateTime| n.wf() && *self == old(self).spec_reset(n);
                    assert(n.wf() && *self == old(self).spec_apply(cmd, n));
                }
            },
        }
    }

    /// The elapsed running time at the clock's current reading.
    pub fn passed(&self) -> (r: ClockDuration)
        requires
            self.wf(),
        ensures
            r.wf(),
            exists|now: UtcDateTime| #[trigger] now.wf() && r@ == self.spec_passed(now),
    {
        let now = self.time_impl.now();
        let r = self.passed_at(now);
        proof {
            assert(now.wf() && r@ == self.spec_passed(now));
        }
        r
    }

    /// The total time spent paused at the clock's current reading.
    pub fn paused_time(&self) -> (r: ClockDuration)
        requires
            self.wf(),
        ensures
            r.wf(),
            exists|now: UtcDateTime| #[trigger] now.wf() && r@ == self.spec_paused_time(now),
    {
        let now = self.time_impl.now();
        let r = self.paused_time_at(now);
        proof {
            assert(now.wf() && r@ == self.spec_paused_time(now));
        }
        r
    }
}

impl Stopwatch<UtcTimeImpl> {
    /// Starts a stopwatch on the real clock, beginning now.
    pub fn new() -> (r: Stopwatch<UtcTimeImpl>)
        ensures
            r.wf(),
            !r.is_paused,
            r.paused_time@ == 0,
            r.passed_time_between_pauses@ == 0,
    {
        Stopwatch::new_with_impl(UtcTimeImpl)
    }
}

/// A freshly constructed stopwatch is running and shows no elapsed
/// time: at its construction instant, `passed` is zero and `is_paused`
/// is false.
pub proof fn lemma_fresh_passed_zero<T>(start: UtcDateTime, time_impl: T)
    ensures
        !Stopwatch::<T>::spec_fresh(start, time_impl).is_paused,
        Stopwatch::<T>::spec_fresh(start, time_impl).spec_passed(start) == 0,
        Stopwatch::<T>::spec_fresh(start, time_impl).spec_paused_time(start) == 0,
{
}

/// Pausing twice in a row is pausing once: as soon as the first pause
/// left the stopwatch paused (so always, except for a stopwatch whose
/// banked total would pass the accumulator cap), a second pause at any
/// instant changes nothing.
pub proof fn lemma_pause_idempotent<T>(s: Stopwatch<T>, n1: UtcDateTime, n2: UtcDateTime)
    requires
        s.spec_pause(n1).is_paused,
    ensures
        s.spec_pause(n1).spec_pause(n2) == s.spec_pause(n1),
{
}

/// Resuming twice in a row is resuming once: as soon as the first
/// resume left the stopwatch running, a second resume at any instant
/// changes nothing.
pub proof fn lemma_resume_idempotent<T>(s: Stopwatch<T>, n1: UtcDateTime, n2: UtcDateTime)
    requires
        !s.spec_resume(n1).is_paused,
    ensures
        s.spec_resume(n1).spec_resume(n2) == s.spec_resume(n1),
{
}

} // verus!
