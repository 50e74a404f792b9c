pub mod text;

use vstd::prelude::*;

verus! {

use vstd::std_specs::ops::AddSpec;
use vstd::std_specs::ops::SubSpec;

/// Nanoseconds in one second.
pub const NANOS_PER_SEC: i32 = 1_000_000_000;

/// A signed span of time: a whole-second count and a non-negative
/// sub-second remainder in nanoseconds.
///
/// A normalized value keeps `0 <= nanos < NANOS_PER_SEC`, so every
/// mathematical value in range has exactly one representation.
#[derive(Debug, Clone, Copy, PartialEq, Eq, Structural)]
pub struct ClockDuration {
    pub secs: i64,
    pub nanos: i32,
}

impl View for ClockDuration {
    type V = int;

    /// The exact time span in nanoseconds.
    open spec fn view(&self) -> int {
        self.secs as int * 1_000_000_000 + self.nanos as int
    }
}

impl ClockDuration {
    /// Normalized representation: the sub-second part is a non-negative
    /// remainder below one second.
    pub open spec fn wf(&self) -> bool {
        0 <= self.nanos < NANOS_PER_SEC
    }

    /// The nanosecond counts that a normalized `ClockDuration` can hold.
    pub open spec fn in_range(v: int) -> bool {
        i64::MIN as int * 1_000_000_000 <= v <= i64::MAX as int * 1_000_000_000 + 999_999_999
    }

    /// A duration of zero length.
    pub fn zero() -> (r: Self)
        ensures
            r.wf(),
            r@ == 0,
    {
        ClockDuration { secs: 0, nanos: 0 }
    }
}

/// The value of an optional count, defaulting to zero.
pub open spec fn opt_or_zero(o: Option<i64>) -> int {
    match o {
        Some(v) => v as int,
        None => 0,
    }
}

/// Quotient of `a / b` rounded towards zero, for positive `b`.
pub open spec fn trunc_div(a: int, b: int) -> int {
    if a >= 0 {
        a / b
    } else {
        -((-a) / b)
    }
}

/// Remainder of `a / b` with the sign of `a`, for positive `b`.
pub open spec fn trunc_rem(a: int, b: int) -> int {
    if a >= 0 {
        a % b
    } else {
        -((-a) % b)
    }
}

impl ClockDuration {
    /// The whole-second count, truncated towards zero.
    pub fn total_secs(&self) -> (r: i64)
        ensures
            r == self.secs,
    {
        self.secs
    }

    /// The sub-second remainder in nanoseconds.
    pub fn nanos_part(&self) -> (r: i32)
        ensures
            r == self.nanos,
    {
        self.nanos
    }

    /// The seconds digit pair of the `HH:MM:SS` reading.
    pub open spec fn spec_secs(&self) -> int {
        trunc_rem(self.secs as int, 60)
    }

    /// The minutes digit pair of the `HH:MM:SS` reading.
    pub open spec fn spec_mins(&self) -> int {
        trunc_rem(trunc_div(self.secs as int, 60), 60)
    }

    /// The hour count of the `HH:MM:SS` reading; hours are unbounded,
    /// never wrapped to a day.
    pub open spec fn spec_hours(&self) -> int {
        trunc_div(self.secs as int, 3600)
    }

    /// Seconds shown on the clock face: `total_secs` modulo one minute.
    pub fn secs(&self) -> (r: i32)
        ensures
            r == self.spec_secs(),
    {
        (self.secs % 60) as i32
    }

    /// Minutes shown on the clock face.
    pub fn mins(&self) -> (r: i32)
        ensures
            r == self.spec_mins(),
    {
        ((self.secs / 60) % 60) as i32
    }

    /// Whole hours of the span, not wrapped to a day.
    pub fn hours(&self) -> (r: i64)
        ensures
            r == self.spec_hours(),
    {
        self.secs / 3600
    }

    /// Builds the span `3600 * hours + 60 * minutes + secs` seconds long.
    /// Negative magnitudes are a caller error; the total must fit the
    /// whole-second count.
    pub fn from_hms(hours: i64, minutes: i64, secs: i64) -> (r: Self)
        requires
            0 <= hours,
            0 <= minutes,
            0 <= secs,
            3600 * hours + 60 * minutes + secs <= i64::MAX as int,
        ensures
            r.wf(),
            r.nanos == 0,
            r.secs == 3600 * hours + 60 * minutes + secs,
            r@ == (3600 * hours + 60 * minutes + secs) * 1_000_000_000,
    {
        ClockDuration { secs: 3600 * hours + 60 * minutes + secs, nanos: 0 }
    }

    /// Builds a span from optional hour, minute and second magnitudes,
    /// each defaulting to zero.
    pub fn new_secs_mins_hours(hours: Option<i64>, minutes: Option<i64>, secs: Option<i64>) -> (r:
        Self)
        requires
            0 <= opt_or_zero(hours),
            0 <= opt_or_zero(minutes),
            0 <= opt_or_zero(secs),
            3600 * opt_or_zero(hours) + 60 * opt_or_zero(minutes) + opt_or_zero(secs)
                <= i64::MAX as int,
        ensures
            r.wf(),
            r.nanos == 0,
            r.secs == 3600 * opt_or_zero(hours) + 60 * opt_or_zero(minutes) + opt_or_zero(secs),
    {
        let h: i64 = match hours {
            Some(v) => v,
            None => 0,
        };
        let m: i64 = match minutes {
            Some(v) => v,
            None => 0,
        };
        let s: i64 = match secs {
            Some(v) => v,
            None => 0,
        };
        Self::from_hms(h, m, s)
    }

    /// Whether this span is no longer than `other`.
    pub fn le(&self, other: &Self) -> (r: bool)
        requires
            self.wf(),
            other.wf(),
        ensures
            r == (self@ <= other@),
    {
        self.secs < other.secs || (self.secs == other.secs && self.nanos <= other.nanos)
    }
}

impl ClockDuration {
    /// Whether the span of `v` nanoseconds keeps its whole seconds
    /// within `±cap`.
    pub open spec fn sum_within(v: int, cap: int) -> bool {
        -cap * 1_000_000_000 <= v <= cap * 1_000_000_000 + 999_999_999
    }

    /// Adds two spans when the normalized sum keeps its whole seconds
    /// within `±cap_secs`; otherwise reports that the sum is out of
    /// bounds.
    pub fn add_within(self, rhs: ClockDuration, cap_secs: i64) -> (r: Option<ClockDuration>)
        requires
            self.wf(),
            rhs.wf(),
            0 <= cap_secs,
        ensures
            r == (if Self::sum_within(self@ + rhs@, cap_secs as int) {
                Some(Self::norm(self@ + rhs@))
            } else {
                None::<ClockDuration>
            }),
            r matches Some(d) ==> d.wf() && d@ == self@ + rhs@ && -cap_secs <= d.secs <= cap_secs,
    {
        let v: i128 = self.total_nanos() + rhs.total_nanos();
        if -(cap_secs as i128) * 1_000_000_000 <= v && v <= (cap_secs as i128) * 1_000_000_000
            + 999_999_999 {
            proof {
                lemma_norm_props(v as int);
                vstd::arithmetic::div_mod::lemma_fundamental_div_mod(v as int, 1_000_000_000);
                vstd::arithmetic::div_mod::lemma_mod_division_less_than_divisor(
                    v as int,
                    1_000_000_000,
                );
                assert(-cap_secs as int <= (v as int) / 1_000_000_000 <= cap_secs as int)
                    by (nonlinear_arith)
                    requires
                        -(cap_secs as int) * 1_000_000_000 <= v as int <= (cap_secs as int)
                            * 1_000_000_000 + 999_999_999,
                        0 <= cap_secs,
                        v as int == 1_000_000_000 * ((v as int) / 1_000_000_000) + (v as int)
                            % 1_000_000_000,
                        0 <= (v as int) % 1_000_000_000 < 1_000_000_000,
                {
                }
            }
            Some(ClockDuration::from_total_nanos(v))
        } else {
            None
        }
    }
}

impl Default for ClockDuration {
    /// The zero-length span.
    fn default() -> (r: Self)
        ensures
            r.wf(),
            r@ == 0,
    {
        ClockDuration::zero()
    }
}

impl ClockDuration {
    /// The unique normalized representation of the span of `v` nanoseconds.
    pub open spec fn norm(v: int) -> ClockDuration {
        ClockDuration {
            secs: (v / 1_000_000_000) as i64,
            nanos: (v % 1_000_000_000) as i32,
        }
    }

    /// The exact span in nanoseconds, computed in wide arithmetic.
    fn total_nanos(self) -> (v: i128)
        ensures
            v as int == self@,
    {
        self.secs as i128 * 1_000_000_000 + self.nanos as i128
    }

    /// Rebuilds the normalized representation of a span given in nanoseconds.
    pub(crate) fn from_total_nanos(v: i128) -> (r: Self)
        requires
            Self::in_range(v as int),
        ensures
            r.wf(),
            r@ == v as int,
            r == Self::norm(v as int),
    {
        proof {
            lemma_norm_props(v as int);
        }
        let r = if v >= 0 {
            let u: u128 = v as u128;
            let s: u128 = u / 1_000_000_000;
            let n: u128 = u % 1_000_000_000;
            proof {
                assert(s <= i64::MAX) by (nonlinear_arith)
                    requires
                        u == 1_000_000_000 * s + n,
                        0 <= n < 1_000_000_000,
                        u <= i64::MAX as int * 1_000_000_000 + 999_999_999,
                {
                }
            }
            ClockDuration { secs: s as i64, nanos: n as i32 }
        } else {
            let m: u128 = (-v) as u128;
            let s0: u128 = m / 1_000_000_000;
            let n0: u128 = m % 1_000_000_000;
            proof {
                assert(s0 <= 9_223_372_036_854_775_808u128) by (nonlinear_arith)
                    requires
                        m == 1_000_000_000 * s0 + n0,
                        0 <= n0 < 1_000_000_000,
                        m <= 9_223_372_036_854_775_808u128 as int * 1_000_000_000,
                {
                }
            }
            if n0 == 0 {
                ClockDuration { secs: (-(s0 as i128)) as i64, nanos: 0 }
            } else {
                ClockDuration {
                    secs: (-(s0 as i128) - 1) as i64,
                    nanos: (1_000_000_000 - n0) as i32,
                }
            }
        };
        proof {
            lemma_wf_value_unique(r, Self::norm(v as int));
        }
        r
    }
}

/// A normalized representation exists for every in-range span: `norm`
/// yields a well-formed value of exactly that length.
pub proof fn lemma_norm_props(v: int)
    requires
        ClockDuration::in_range(v),
    ensures
        ClockDuration::norm(v).wf(),
        ClockDuration::norm(v)@ == v,
{
    let q = v / 1_000_000_000;
    let r = v % 1_000_000_000;
    vstd::arithmetic::div_mod::lemma_fundamental_div_mod(v, 1_000_000_000);
    assert(0 <= r < 1_000_000_000) by (nonlinear_arith)
        requires
            r == v % 1_000_000_000,
    {
    }
    assert(i64::MIN <= q <= i64::MAX) by (nonlinear_arith)
        requires
            v == 1_000_000_000 * q + r,
            0 <= r < 1_000_000_000,
            i64::MIN as int * 1_000_000_000 <= v <= i64::MAX as int * 1_000_000_000 + 999_999_999,
    {
    }
}

impl core::ops::Sub for ClockDuration {
    type Output = ClockDuration;

    /// Exact subtraction, normalized.
    fn sub(self, rhs: ClockDuration) -> (r: ClockDuration)
        ensures
            r.wf(),
            r@ == self@ - rhs@,
    {
        let v: i128 = self.total_nanos() - rhs.total_nanos();
        let r = ClockDuration::from_total_nanos(v);
        proof {
            lemma_norm_props(v as int);
            lemma_wf_value_unique(r, ClockDuration::norm(self@ - rhs@));
        }
        r
    }
}

impl vstd::std_specs::ops::SubSpecImpl for ClockDuration {
    open spec fn obeys_sub_spec() -> bool {
        true
    }

    open spec fn sub_req(self, rhs: ClockDuration) -> bool {
        self.wf() && rhs.wf() && ClockDuration::in_range(self@ - rhs@)
    }

    open spec fn sub_spec(self, rhs: ClockDuration) -> ClockDuration {
        ClockDuration::norm(self@ - rhs@)
    }
}

impl core::ops::Add for ClockDuration {
    type Output = ClockDuration;

    /// Exact addition, normalized.
    fn add(self, rhs: ClockDuration) -> (r: ClockDuration)
        ensures
            r.wf(),
            r@ == self@ + rhs@,
    {
        let v: i128 = self.total_nanos() + rhs.total_nanos();
        let r = ClockDuration::from_total_nanos(v);
        proof {
            lemma_norm_props(v as int);
            lemma_wf_value_unique(r, ClockDuration::norm(self@ + rhs@));
        }
        r
    }
}

impl vstd::std_specs::ops::AddSpecImpl for ClockDuration {
    open spec fn obeys_add_spec() -> bool {
        true
    }

    open spec fn add_req(self, rhs: ClockDuration) -> bool {
        self.wf() && rhs.wf() && ClockDuration::in_range(self@ + rhs@)
    }

    open spec fn add_spec(self, rhs: ClockDuration) -> ClockDuration {
        ClockDuration::norm(self@ + rhs@)
    }
}

/// Subtracting a duration and then adding it back restores the first operand:
/// for well-formed `a` and `b` with `a >= b` (and the difference within
/// the representable range), `(a - b) + b == a`, where `sub_spec` and
/// `add_spec` are exactly what the executable `-` and `+` return.
pub proof fn lemma_sub_add_round_trip(a: ClockDuration, b: ClockDuration)
    requires
        a.wf(),
        b.wf(),
        a@ >= b@,
        ClockDuration::in_range(a@ - b@),
    ensures
        a.sub_req(b),
        a.sub_spec(b).add_req(b),
        a.sub_spec(b).add_spec(b) == a,
{
    let d = a.sub_spec(b);
    lemma_norm_props(a@ - b@);
    assert(d@ + b@ == a@);
    lemma_norm_props(a@);
    lemma_wf_value_unique(d.add_spec(b), a);
}

/// Two normalized durations of the same length are the same value.
pub proof fn lemma_wf_value_unique(a: ClockDuration, b: ClockDuration)
    requires
        a.wf(),
        b.wf(),
        a@ == b@,
    ensures
        a == b,
{
    assert(a.secs == b.secs && a.nanos == b.nanos) by (nonlinear_arith)
        requires
            a.secs as int * 1_000_000_000 + a.nanos as int == b.secs as int * 1_000_000_000
                + b.nanos as int,
            0 <= a.nanos < 1_000_000_000,
            0 <= b.nanos < 1_000_000_000,
    {
    }
}

} // verus!
