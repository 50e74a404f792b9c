//! Parsing of a user-supplied start date, written as
//! `<year>-<month>-<day> <hours>:<minutes>:<seconds>`: the year is any
//! digit run, month and day may carry a leading `0`/up-to-`1` (month)
//! or up-to-`3` (day) digit, the date and the time are separated by one
//! or more blanks, commas or underscores, and each time field holds one
//! or two digits. The whole text must be such a date. The grammar and
//! the range checks are verified; only the calendar itself (which
//! year-month-day combinations exist, and their timestamp) is entrusted
//! to chrono.

use chrono::TimeZone;

use crate::timing::clock_duration::text;
use crate::timing::{UtcDateTime, CLOCK_RANGE_SECS};
use vstd::prelude::*;

verus! {

use vstd::string::StrSliceExecFns;

/// A start date read from text, as the instant it denotes.
#[derive(Debug, Clone, Copy, PartialEq, Eq, Structural)]
pub struct ParsedDate(pub UtcDateTime);

/// Why a text denotes no start date.
#[derive(Debug, Clone, Copy, PartialEq, Eq, Structural)]
pub enum InvalidDateFormat {
    /// The text does not have the date shape at all. (The name carries
    /// the spelling it has always had.)
    InvalidDateFromat,
    /// The year digits name no representable year.
    NoYear,
    /// The month is not between 1 and 12.
    NoMonth,
    /// The day is not between 1 and 31.
    NoDay,
    /// The hours are not between 0 and 23.
    NoHours,
    /// The minutes are not between 0 and 59.
    NoMinutes,
    /// The seconds are not between 0 and 59.
    NoSeconds,
    /// The fields are in range but name no date of the calendar.
    NoValidDate,
    /// The fields name more than one instant.
    Ambiguous,
}

/// The timestamp of a proleptic Gregorian calendar date, or nothing
/// when the fields name no date; a pure function of its arguments.
pub uninterp spec fn calendar_timestamp(
    y: i32,
    mo: u32,
    d: u32,
    h: u32,
    mi: u32,
    s: u32,
) -> Option<i64>;

/// Relies on chrono's `TimeZone::with_ymd_and_hms` on `Utc` and
/// `DateTime::timestamp`: for UTC the result is a single instant or
/// none, never ambiguous, it depends on the fields alone, and its
/// timestamp lies within chrono's documented date range.
#[verifier::external_body]
fn ymd_hms_to_timestamp(y: i32, mo: u32, d: u32, h: u32, mi: u32, s: u32) -> (r: Option<i64>)
    ensures
        r == calendar_timestamp(y, mo, d, h, mi, s),
        r matches Some(t) ==> -CLOCK_RANGE_SECS <= t <= CLOCK_RANGE_SECS,
{
    match chrono::Utc.with_ymd_and_hms(y, mo, d, h, mi, s) {
        chrono::LocalResult::Single(dt) => Some(dt.timestamp()),
        chrono::LocalResult::Ambiguous(_, _) => None,
        chrono::LocalResult::None => None,
    }
}

/// The length of the digit run beginning at `from`.
pub open spec fn digit_run(cs: Seq<char>, from: int) -> int
    decreases cs.len() - from,
{
    if from < 0 || from >= cs.len() || !text::is_digit(cs[from]) {
        0
    } else {
        1 + digit_run(cs, from + 1)
    }
}

/// `digit_run` measures exactly the run characterized by "digits up to
/// `p`, then a non-digit or the end".
proof fn lemma_digit_run_characterization(cs: Seq<char>, from: int, p: int)
    requires
        0 <= from <= p <= cs.len(),
        forall|j: int| from <= j < p ==> text::is_digit(#[trigger] cs[j]),
        p < cs.len() ==> !text::is_digit(cs[p]),
    ensures
        digit_run(cs, from) == p - from,
    decreases p - from,
{
    if from < p {
        lemma_digit_run_characterization(cs, from + 1, p);
    }
}

/// Every character of the digit run is a digit.
proof fn lemma_digit_run_digits(cs: Seq<char>, from: int)
    requires
        0 <= from,
    ensures
        from + digit_run(cs, from) <= cs.len() || from >= cs.len(),
        forall|j: int|
            from <= j < from + digit_run(cs, from) ==> text::is_digit(#[trigger] cs[j]),
    decreases cs.len() - from,
{
    if !(from >= cs.len() || !text::is_digit(cs[from])) {
        lemma_digit_run_digits(cs, from + 1);
    }
}

/// Whether `c` separates the date from the time: an ASCII blank, a
/// comma or an underscore.
pub open spec fn is_sep_char(c: char) -> bool {
    c == ' ' || c == '\t' || c == '\n' || c == '\r' || c as int == 11 || c as int == 12 || c == ','
        || c == '_'
}

/// The length of the separator run beginning at `from`.
pub open spec fn sep_run(cs: Seq<char>, from: int) -> int
    decreases cs.len() - from,
{
    if from < 0 || from >= cs.len() || !is_sep_char(cs[from]) {
        0
    } else {
        1 + sep_run(cs, from + 1)
    }
}

/// `sep_run` measures exactly the run characterized by "separators up
/// to `p`, then something else or the end".
proof fn lemma_sep_run_characterization(cs: Seq<char>, from: int, p: int)
    requires
        0 <= from <= p <= cs.len(),
        forall|j: int| from <= j < p ==> is_sep_char(#[trigger] cs[j]),
        p < cs.len() ==> !is_sep_char(cs[p]),
    ensures
        sep_run(cs, from) == p - from,
    decreases p - from,
{
    if from < p {
        lemma_sep_run_characterization(cs, from + 1, p);
    }
}

/// The width of a one-or-two digit field at `from` whose first digit of
/// a two-digit reading may be at most `max_first`: two digits when that
/// shape fits, one when a digit stands there at all, zero otherwise.
pub open spec fn field_len(cs: Seq<char>, from: int, max_first: int) -> int {
    if from < 0 || from >= cs.len() || !text::is_digit(cs[from]) {
        0
    } else if text::digit_val(cs[from]) <= max_first && from + 1 < cs.len() && text::is_digit(
        cs[from + 1],
    ) {
        2
    } else {
        1
    }
}

/// The value of a one-or-two digit field.
pub open spec fn field_val(cs: Seq<char>, from: int, len: int) -> int {
    if len == 2 {
        text::digit_val(cs[from]) * 10 + text::digit_val(cs[from + 1])
    } else {
        text::digit_val(cs[from])
    }
}

/// The six numeric fields a date text denotes, or why it has no date
/// shape; the year is reported unusable when its digits exceed the
/// representable years.
pub open spec fn spec_date_fields(cs: Seq<char>) -> Result<
    (int, int, int, int, int, int),
    InvalidDateFormat,
> {
    let ylen = digit_run(cs, 0);
    let mp = ylen + 1;
    let mlen = field_len(cs, mp, 1);
    let dp = mp + mlen + 1;
    let dlen = field_len(cs, dp, 3);
    let sp = dp + dlen;
    let slen = sep_run(cs, sp);
    let hp = sp + slen;
    let hlen = field_len(cs, hp, 9);
    let mip = hp + hlen + 1;
    let milen = field_len(cs, mip, 9);
    let ssp = mip + milen + 1;
    let sslen = field_len(cs, ssp, 9);
    if ylen == 0 || ylen >= cs.len() || cs[ylen as int] != '-' {
        Err(InvalidDateFormat::InvalidDateFromat)
    } else if mlen == 0 || mp + mlen >= cs.len() || cs[mp + mlen] != '-' {
        Err(InvalidDateFormat::InvalidDateFromat)
    } else if dlen == 0 {
        Err(InvalidDateFormat::InvalidDateFromat)
    } else if slen == 0 {
        Err(InvalidDateFormat::InvalidDateFromat)
    } else if hlen == 0 || hp + hlen >= cs.len() || cs[hp + hlen] != ':' {
        Err(InvalidDateFormat::InvalidDateFromat)
    } else if milen == 0 || mip + milen >= cs.len() || cs[mip + milen] != ':' {
        Err(InvalidDateFormat::InvalidDateFromat)
    } else if sslen == 0 || ssp + sslen != cs.len() {
        Err(InvalidDateFormat::InvalidDateFromat)
    } else if text::digits_val(cs.subrange(0, ylen)) > i32::MAX as int {
        Err(InvalidDateFormat::NoYear)
    } else {
        Ok(
            (
                text::digits_val(cs.subrange(0, ylen)),
                field_val(cs, mp, mlen),
                field_val(cs, dp, dlen),
                field_val(cs, hp, hlen),
                field_val(cs, mip, milen),
                field_val(cs, ssp, sslen),
            ),
        )
    }
}

/// The date a text denotes: the six fields, their range checks in
/// reading order of the reports (day, month, hours, minutes, seconds),
/// and the calendar's word on whether the date exists.
pub open spec fn spec_parse_date(cs: Seq<char>) -> Result<ParsedDate, InvalidDateFormat> {
    match spec_date_fields(cs) {
        Err(e) => Err(e),
        Ok((y, mo, d, h, mi, s)) => {
            if d > 31 || d == 0 {
                Err(InvalidDateFormat::NoDay)
            } else if mo == 0 || mo > 12 {
                Err(InvalidDateFormat::NoMonth)
            } else if h > 23 {
                Err(InvalidDateFormat::NoHours)
            } else if mi > 59 {
                Err(InvalidDateFormat::NoMinutes)
            } else if s > 59 {
                Err(InvalidDateFormat::NoSeconds)
            } else {
                match calendar_timestamp(
                    y as i32,
                    mo as u32,
                    d as u32,
                    h as u32,
                    mi as u32,
                    s as u32,
                ) {
                    Some(t) => Ok(ParsedDate(UtcDateTime { secs: t, nanos: 0 })),
                    None => Err(InvalidDateFormat::NoValidDate),
                }
            }
        },
    }
}

/// The end of the digit run beginning at `from`.
#[verifier::loop_isolation(false)]
fn scan_digits(s: &str, from: usize, len: usize) -> (p: usize)
    requires
        from as int <= s@.len(),
        len as int == s@.len(),
    ensures
        p as int == from as int + digit_run(s@, from as int),
        from <= p,
        p as int <= s@.len(),
{
    let mut i: usize = from;
    while i < len
        invariant
            from <= i <= len,
            forall|j: int| from <= j < i ==> text::is_digit(#[trigger] s@[j]),
        decreases len - i,
    {
        let c = s.get_char(i);
        let cu: u32 = c as u32;
        if cu < 48 || cu > 57 {
            proof {
                lemma_digit_run_characterization(s@, from as int, i as int);
            }
            return i;
        }
        i += 1;
    }
    proof {
        lemma_digit_run_characterization(s@, from as int, s@.len() as int);
    }
    len
}

/// The end of the separator run beginning at `from`.
#[verifier::loop_isolation(false)]
fn scan_seps(s: &str, from: usize, len: usize) -> (p: usize)
    requires
        from as int <= s@.len(),
        len as int == s@.len(),
    ensures
        p as int == from as int + sep_run(s@, from as int),
        from <= p,
        p as int <= s@.len(),
{
    let mut i: usize = from;
    while i < len
        invariant
            from <= i <= len,
            forall|j: int| from <= j < i ==> is_sep_char(#[trigger] s@[j]),
        decreases len - i,
    {
        let c = s.get_char(i);
        let cu: u32 = c as u32;
        if !(cu == 32 || cu == 9 || cu == 10 || cu == 13 || cu == 11 || cu == 12 || cu == 44
            || cu == 95) {
            proof {
                lemma_sep_run_characterization(s@, from as int, i as int);
            }
            return i;
        }
        i += 1;
    }
    proof {
        lemma_sep_run_characterization(s@, from as int, s@.len() as int);
    }
    len
}

/// The width of the one-or-two digit field at `from`.
fn scan_field(s: &str, from: usize, len: usize, max_first: u32) -> (w: usize)
    requires
        from as int <= s@.len(),
        len as int == s@.len(),
    ensures
        w as int == field_len(s@, from as int, max_first as int),
        from as int + w as int <= s@.len(),
        w <= 2,
{
    if from >= len {
        return 0;
    }
    let c = s.get_char(from);
    let cu: u32 = c as u32;
    if cu < 48 || cu > 57 {
        return 0;
    }
    if cu - 48 <= max_first && from + 1 < len {
        let c2 = s.get_char(from + 1);
        let c2u: u32 = c2 as u32;
        if 48 <= c2u && c2u <= 57 {
            return 2;
        }
    }
    1
}

/// The value of the one-or-two digit field at `from`.
fn read_field(s: &str, from: usize, w: usize) -> (v: u32)
    requires
        1 <= w <= 2,
        from as int + w as int <= s@.len(),
        from as int + w as int <= usize::MAX as int,
        forall|j: int| from as int <= j < from as int + w as int ==> text::is_digit(#[trigger] s@[j]),
    ensures
        v as int == field_val(s@, from as int, w as int),
        v <= 99,
{
    let c = s.get_char(from);
    let v0: u32 = c as u32 - 48;
    if w == 2 {
        let c2 = s.get_char(from + 1);
        let v1: u32 = c2 as u32 - 48;
        v0 * 10 + v1
    } else {
        v0
    }
}

impl ParsedDate {
    /// Parses a start date written as
    /// `<year>-<month>-<day> <hours>:<minutes>:<seconds>`.
    pub fn from_str(s: &str) -> (r: Result<ParsedDate, InvalidDateFormat>)
        ensures
            r == spec_parse_date(s@),
            r matches Ok(d) ==> d.0.wf(),
    {
        let len = s.unicode_len();
        let ylen = scan_digits(s, 0, len);
        if ylen == 0 || ylen >= len || s.get_char(ylen) as u32 != 45 {
            return Err(InvalidDateFormat::InvalidDateFromat);
        }
        let mp = ylen + 1;
        let mlen = scan_field(s, mp, len, 1);
        if mlen == 0 || mp + mlen >= len || s.get_char(mp + mlen) as u32 != 45 {
            return Err(InvalidDateFormat::InvalidDateFromat);
        }
        let dp = mp + mlen + 1;
        let dlen = scan_field(s, dp, len, 3);
        if dlen == 0 {
            return Err(InvalidDateFormat::InvalidDateFromat);
        }
        let sp = dp + dlen;
        let send = scan_seps(s, sp, len);
        if send == sp {
            return Err(InvalidDateFormat::InvalidDateFromat);
        }
        let hp = send;
        let hlen = scan_field(s, hp, len, 9);
        if hlen == 0 || hp + hlen >= len || s.get_char(hp + hlen) as u32 != 58 {
            return Err(InvalidDateFormat::InvalidDateFromat);
        }
        let mip = hp + hlen + 1;
        let milen = scan_field(s, mip, len, 9);
        if milen == 0 || mip + milen >= len || s.get_char(mip + milen) as u32 != 58 {
            return Err(InvalidDateFormat::InvalidDateFromat);
        }
        let ssp = mip + milen + 1;
        let sslen = scan_field(s, ssp, len, 9);
        if sslen == 0 || ssp + sslen != len {
            return Err(InvalidDateFormat::InvalidDateFromat);
        }
        proof {
            lemma_digit_run_digits(s@, 0);
        }
        let y: i64 = match text::parse_group_i64(s, 0, ylen) {
            Some(v) => v,
            None => {
                proof {
                    let ydigits = s@.subrange(0, ylen as int);
                    text::lemma_digits_val_nonneg(ydigits);
                    assert(ydigits[0] == s@[0]);
                }
                return Err(InvalidDateFormat::NoYear);
            },
        };
        proof {
            let ydigits = s@.subrange(0, ylen as int);
            assert(ydigits[0] == s@[0]);
            text::lemma_digits_val_nonneg(ydigits);
        }
        if y > i32::MAX as i64 {
            return Err(InvalidDateFormat::NoYear);
        }
        let mo = read_field(s, mp, mlen);
        let d = read_field(s, dp, dlen);
        let h = read_field(s, hp, hlen);
        let mi = read_field(s, mip, milen);
        let ss = read_field(s, ssp, sslen);
        if d > 31 || d == 0 {
            return Err(InvalidDateFormat::NoDay);
        }
        if mo == 0 || mo > 12 {
            return Err(InvalidDateFormat::NoMonth);
        }
        if h > 23 {
            return Err(InvalidDateFormat::NoHours);
        }
        if mi > 59 {
            return Err(InvalidDateFormat::NoMinutes);
        }
        if ss > 59 {
            return Err(InvalidDateFormat::NoSeconds);
        }
        match ymd_hms_to_timestamp(y as i32, mo, d, h, mi, ss) {
            Some(t) => Ok(ParsedDate(UtcDateTime { secs: t, nanos: 0 })),
            None => Err(InvalidDateFormat::NoValidDate),
        }
    }
}

} // verus!
