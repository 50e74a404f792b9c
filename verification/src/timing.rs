pub use clock_duration::text::InvalidClockDurationString;
pub use clock_duration::ClockDuration;
pub use clock_table::ClockTable;
pub use count_down::CountDown;
pub use stopwatch::Stopwatch;

pub mod clock_duration;
pub mod clock_table;
pub mod count_down;
pub mod mocking_time;
pub mod stopwatch;

use vstd::prelude::*;

verus! {

/// Largest whole-second distance from the epoch that an in-range
/// [`UtcDateTime`] may have. The bound leaves room beyond what the
/// system clock can report (see [`UtcTimeImpl`]), so adjusting a
/// reported instant by a leap-second fold stays in range.
pub const UTC_RANGE_SECS: i64 = 8_500_000_000_000;

/// Largest whole-second magnitude that the trusted clock reading may
/// report; chrono documents its date range as about ±262,000 years from
/// the common era, whose timestamps stay well inside this bound.
pub const CLOCK_RANGE_SECS: i64 = 8_400_000_000_000;

/// A point on the UTC time line: a whole-second Unix timestamp and a
/// non-negative sub-second remainder in nanoseconds.
#[derive(Debug, Clone, Copy, PartialEq, Eq, Structural)]
pub struct UtcDateTime {
    pub secs: i64,
    pub nanos: i32,
}

impl View for UtcDateTime {
    type V = int;

    /// The instant as nanoseconds since the Unix epoch.
    open spec fn view(&self) -> int {
        self.secs as int * 1_000_000_000 + self.nanos as int
    }
}

impl UtcDateTime {
    /// Normalized and within the supported time range.
    pub open spec fn wf(&self) -> bool {
        0 <= self.nanos < 1_000_000_000 && -UTC_RANGE_SECS <= self.secs <= UTC_RANGE_SECS
    }

    /// Builds an instant from a Unix timestamp and sub-second
    /// nanoseconds; out-of-range inputs denote no supported instant.
    pub fn from_timestamp(secs: i64, nanos: u32) -> (r: Option<UtcDateTime>)
        ensures
            r matches Some(t) ==> t.wf() && t.secs == secs && t.nanos == nanos,
            r is Some <==> (-UTC_RANGE_SECS <= secs <= UTC_RANGE_SECS && nanos < 1_000_000_000),
    {
        if -UTC_RANGE_SECS <= secs && secs <= UTC_RANGE_SECS && nanos < 1_000_000_000 {
            Some(UtcDateTime { secs, nanos: nanos as i32 })
        } else {
            None
        }
    }

    /// Repairs a raw `(secs, nanos)` pair into a well-formed instant: a
    /// leap-second fold (a nanosecond count of one second or more, as
    /// the system clock may report) is carried into the seconds, and
    /// anything still out of range is clamped to the supported range.
    /// A pair that already denotes a well-formed instant is kept as it
    /// stands.
    pub fn clamped(secs: i64, nanos: i64) -> (t: UtcDateTime)
        ensures
            t.wf(),
            (0 <= nanos < 1_000_000_000 && -UTC_RANGE_SECS <= secs <= UTC_RANGE_SECS) ==> t == (
            UtcDateTime { secs, nanos: nanos as i32 }),
    {
        let (s2, n2): (i64, i64) = if 1_000_000_000 <= nanos && nanos < 2_000_000_000
            && secs < i64::MAX {
            (secs + 1, nanos - 1_000_000_000)
        } else {
            (secs, nanos)
        };
        let n3: i32 = if 0 <= n2 && n2 < 1_000_000_000 {
            n2 as i32
        } else {
            0
        };
        let s3: i64 = if s2 < -UTC_RANGE_SECS {
            -UTC_RANGE_SECS
        } else if s2 > UTC_RANGE_SECS {
            UTC_RANGE_SECS
        } else {
            s2
        };
        UtcDateTime { secs: s3, nanos: n3 }
    }

    /// The span from `earlier` to `self`, exact to the nanosecond;
    /// negative when `self` lies before `earlier`.
    pub fn signed_duration_since(&self, earlier: &UtcDateTime) -> (r: ClockDuration)
        requires
            self.wf(),
            earlier.wf(),
        ensures
            r.wf(),
            r@ == self@ - earlier@,
    {
        let v: i128 = (self.secs as i128 * 1_000_000_000 + self.nanos as i128) - (
        earlier.secs as i128 * 1_000_000_000 + earlier.nanos as i128);
        ClockDuration::from_total_nanos(v)
    }

    /// The instant `d` later than `self`, when still in the supported
    /// range.
    pub fn checked_add(&self, d: &ClockDuration) -> (r: Option<UtcDateTime>)
        requires
            self.wf(),
            d.wf(),
        ensures
            r matches Some(t) ==> t.wf() && t@ == self@ + d@,
            r is Some <==> -UTC_RANGE_SECS as int * 1_000_000_000 <= self@ + d@
                <= UTC_RANGE_SECS as int * 1_000_000_000 + 999_999_999,
    {
        let v: i128 = (self.secs as i128 + d.secs as i128) * 1_000_000_000 + self.nanos as i128
            + d.nanos as i128;
        if -(UTC_RANGE_SECS as i128) * 1_000_000_000 <= v && v <= (UTC_RANGE_SECS as i128)
            * 1_000_000_000 + 999_999_999 {
            let sum = ClockDuration::from_total_nanos(v);
            proof {
                clock_duration::lemma_norm_props(v as int);
            }
            Some(UtcDateTime { secs: sum.secs, nanos: sum.nanos })
        } else {
            None
        }
    }
}

/// A state transition that can be asked of any timer: the shared
/// vocabulary of the registry's bulk operations and of command
/// dispatch.
#[derive(Debug, Clone, Copy, PartialEq, Eq, Structural)]
pub enum ClockCommand {
    /// Freeze the elapsed time.
    Pause,
    /// Continue measuring.
    Resume,
    /// Start over at the current instant.
    Reset,
}

/// The clock capability: one operation, returning the current instant.
/// Production code uses [`UtcTimeImpl`]; tests drive the settable
/// [`mocking_time::MockTimeImpl`]. Nothing more is promised of a
/// reading than that it is a well-formed instant.
pub trait TimeImpl {
    /// The current instant.
    fn now(&self) -> (t: UtcDateTime)
        ensures
            t.wf(),
    ;
}

/// The real clock: reads the system time in UTC.
#[derive(Debug, Clone, Copy, PartialEq, Eq, Structural)]
pub struct UtcTimeImpl;

impl Default for UtcTimeImpl {
    /// The real clock carries no state.
    fn default() -> (r: Self)
        ensures
            r == UtcTimeImpl,
    {
        UtcTimeImpl
    }
}

/// Relies on chrono's `Utc::now`, `DateTime::timestamp` and
/// `DateTime::timestamp_subsec_nanos`: the timestamp lies within
/// chrono's documented date range (about ±262,000 years), and the
/// nanosecond part is below two seconds (at most a leap-second fold
/// above the usual one-second bound).
#[verifier::external_body]
fn utc_now_parts() -> (r: (i64, u32))
    ensures
        -CLOCK_RANGE_SECS <= r.0 <= CLOCK_RANGE_SECS,
        r.1 < 2_000_000_000,
{
    let now = chrono::Utc::now();
    (now.timestamp(), now.timestamp_subsec_nanos())
}

impl TimeImpl for UtcTimeImpl {
    /// Reads the system clock.
    fn now(&self) -> (t: UtcDateTime)
        ensures
            t.wf(),
    {
        let (secs, nanos) = utc_now_parts();
        UtcDateTime::clamped(secs, nanos as i64)
    }
}

/// A caller-supplied start instant strictly after "now" is rejected
/// with the instant it carried.
#[derive(Debug, Clone, Copy, PartialEq, Eq, Structural)]
pub struct InvalidDateInFuture(pub UtcDateTime);

/// Whether `to_check` counts as being in the future of `now`; the
/// comparison is by whole seconds, sub-second remainders are ignored.
pub open spec fn spec_check_not_in_future(now: UtcDateTime, to_check: UtcDateTime) -> Result<
    (),
    InvalidDateInFuture,
> {
    if now.secs < to_check.secs {
        Err(InvalidDateInFuture(to_check))
    } else {
        Ok(())
    }
}

/// Decides, for an already-read clock value, whether `to_check` lies in
/// the future: exactly when its whole-second timestamp exceeds that of
/// `now`.
pub fn check_not_in_future(now: &UtcDateTime, to_check: UtcDateTime) -> (r: Result<
    (),
    InvalidDateInFuture,
>)
    ensures
        r == spec_check_not_in_future(*now, to_check),
{
    if now.secs < to_check.secs {
        Err(InvalidDateInFuture(to_check))
    } else {
        Ok(())
    }
}

/// Reads the clock and rejects `to_check` when it is strictly in the
/// future of that reading.
pub fn validate_if_date_is_not_in_future<T: TimeImpl>(time: &T, to_check: UtcDateTime) -> (r:
    Result<(), InvalidDateInFuture>)
    ensures
        exists|now: UtcDateTime|
            #[trigger] now.wf() && r == spec_check_not_in_future(now, to_check),
{
    let now = time.now();
    let r = check_not_in_future(&now, to_check);
    proof {
        assert(now.wf() && r == spec_check_not_in_future(now, to_check));
    }
    r
}

} // verus!
