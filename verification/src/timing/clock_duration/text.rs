//! Text form of a [`ClockDuration`]: rendering as zero-padded
//! `HH:MM:SS` (hours unbounded, never wrapped to a day) and parsing of
//! the compact colon-separated form.

use super::ClockDuration;
use vstd::prelude::*;

verus! {

use vstd::string::StrSliceExecFns;

/// Whether `c` is an ASCII decimal digit.
pub open spec fn is_digit(c: char) -> bool {
    48 <= c as int <= 57
}

/// The digit character for a value `0 <= d <= 9`.
pub open spec fn char_of_digit(d: int) -> char {
    (48 + d) as char
}

/// The numeric value of a digit character.
pub open spec fn digit_val(c: char) -> int {
    c as int - 48
}

/// The decimal digit sequence of a non-negative count, most significant
/// digit first, without padding.
pub open spec fn spec_dec(n: nat) -> Seq<char>
    decreases n,
{
    if n < 10 {
        seq![char_of_digit(n as int)]
    } else {
        spec_dec((n / 10) as nat).push(char_of_digit((n % 10) as int))
    }
}

/// A decimal count padded with a leading zero to at least two digits.
pub open spec fn spec_pad2(n: nat) -> Seq<char> {
    if n < 10 {
        seq!['0', char_of_digit(n as int)]
    } else {
        spec_dec(n)
    }
}

/// A clock-face field: two-digit zero padding for non-negative values, a
/// minus sign and the unpadded digits otherwise.
pub open spec fn spec_signed_pad2(v: int) -> Seq<char> {
    if v >= 0 {
        spec_pad2(v as nat)
    } else {
        seq!['-'] + spec_dec((-v) as nat)
    }
}

/// The `HH:MM:SS` reading of a duration.
pub open spec fn spec_duration_text(d: ClockDuration) -> Seq<char> {
    spec_signed_pad2(d.spec_hours()) + seq![':'] + spec_signed_pad2(d.spec_mins()) + seq![':']
        + spec_signed_pad2(d.spec_secs())
}

/// Relies on std's `String::push`: appends exactly the one character.
#[verifier::external_body]
fn string_push(s: &mut String, c: char)
    ensures
        final(s)@ == old(s)@.push(c),
{
    s.push(c);
}

/// Appends the decimal digits of `n` to `s`.
fn push_dec(s: &mut String, n: u64)
    ensures
        final(s)@ == old(s)@ + spec_dec(n as nat),
    decreases n,
{
    if n < 10 {
        string_push(s, (48 + n as u8) as char);
        assert(final(s)@ =~= old(s)@ + spec_dec(n as nat));
    } else {
        push_dec(s, n / 10);
        string_push(s, (48 + (n % 10) as u8) as char);
        assert(final(s)@ =~= old(s)@ + spec_dec(n as nat));
    }
}

/// Appends `n` padded to at least two digits.
fn push_pad2(s: &mut String, n: u64)
    ensures
        final(s)@ == old(s)@ + spec_pad2(n as nat),
{
    if n < 10 {
        string_push(s, '0');
        string_push(s, (48 + n as u8) as char);
        assert(final(s)@ =~= old(s)@ + spec_pad2(n as nat));
    } else {
        push_dec(s, n);
    }
}

/// Appends a signed clock-face field.
fn push_signed_pad2(s: &mut String, v: i64)
    requires
        i64::MIN < v,
    ensures
        final(s)@ == old(s)@ + spec_signed_pad2(v as int),
{
    if v >= 0 {
        push_pad2(s, v as u64);
    } else {
        string_push(s, '-');
        push_dec(s, (-v) as u64);
        assert(final(s)@ =~= old(s)@ + spec_signed_pad2(v as int));
    }
}

/// What made a duration text unacceptable, reported for the offending
/// component.
#[derive(Debug, PartialEq, Eq, Clone, Copy, Structural)]
pub enum InvalidClockDurationString {
    /// The text as a whole denotes no representable duration.
    InvalidFormat,
    /// The hour group is not a number.
    InvalidHour,
    /// The minute group is not a number.
    InvalidMinutes,
    /// The second group is not a number.
    InvalidSeconds,
    /// The hour group is a negative number.
    NegativeHours,
    /// The minute group is a negative number.
    NegativeMinutes,
    /// The second group is a negative number.
    NegativeSeconds,
}

/// Every position of `s` in `[from, i)` holds something other than a
/// colon.
pub open spec fn no_colon_before(s: Seq<char>, from: int, i: int) -> bool {
    forall|j: int| from <= j < i ==> #[trigger] s[j] != ':'
}

/// The first position at or after `from` holding a colon, or the length
/// of `s` when there is none.
pub open spec fn find_colon(s: Seq<char>, from: int) -> int
    decreases s.len() - from,
{
    if from < 0 || from >= s.len() {
        s.len() as int
    } else if s[from] == ':' {
        from
    } else {
        find_colon(s, from + 1)
    }
}

/// `find_colon` returns exactly the position characterized by
/// `no_colon_before` and either a colon or the end of the text.
pub proof fn lemma_find_colon_characterization(s: Seq<char>, from: int, p: int)
    requires
        0 <= from <= p <= s.len(),
        no_colon_before(s, from, p),
        p < s.len() ==> s[p] == ':',
    ensures
        find_colon(s, from) == p,
    decreases p - from,
{
    if from < s.len() && from < p {
        lemma_find_colon_characterization(s, from + 1, p);
    }
}

/// Whether every character of `s` is a decimal digit.
pub open spec fn all_digits(s: Seq<char>) -> bool {
    forall|i: int| 0 <= i < s.len() ==> is_digit(#[trigger] s[i])
}

/// The value of a digit sequence read in base ten.
pub open spec fn digits_val(s: Seq<char>) -> int
    decreases s.len(),
{
    if s.len() == 0 {
        0
    } else {
        digits_val(s.drop_last()) * 10 + digit_val(s.last())
    }
}

/// A digit sequence has a non-negative value.
pub proof fn lemma_digits_val_nonneg(s: Seq<char>)
    requires
        all_digits(s),
    ensures
        digits_val(s) >= 0,
    decreases s.len(),
{
    if s.len() > 0 {
        lemma_digits_val_nonneg(s.drop_last());
    }
}

/// Reading more digits can only grow the value.
pub proof fn lemma_digits_val_prefix_le(s: Seq<char>, k: int)
    requires
        all_digits(s),
        0 <= k <= s.len(),
    ensures
        digits_val(s.subrange(0, k)) <= digits_val(s),
    decreases s.len() - k,
{
    if k < s.len() {
        lemma_digits_val_prefix_le(s, k + 1);
        let shorter = s.subrange(0, k);
        let longer = s.subrange(0, k + 1);
        assert(longer.drop_last() =~= shorter);
        lemma_digits_val_nonneg(shorter);
    } else {
        assert(s.subrange(0, k) =~= s);
    }
}

/// The integer denoted by one colon-separated group, with the meaning
/// of `i64` text parsing: an optional sign, then at least one digit,
/// and a value that fits an `i64`.
pub open spec fn spec_parse_i64(g: Seq<char>) -> Option<i64> {
    let neg = g.len() > 0 && g[0] == '-';
    let ds = if g.len() > 0 && (g[0] == '-' || g[0] == '+') {
        g.drop_first()
    } else {
        g
    };
    if ds.len() == 0 || !all_digits(ds) {
        None
    } else {
        let v = if neg {
            -digits_val(ds)
        } else {
            digits_val(ds)
        };
        if i64::MIN <= v <= i64::MAX {
            Some(v as i64)
        } else {
            None
        }
    }
}

/// Parses the group `s[start..end]` as an `i64`.
#[verifier::loop_isolation(false)]
pub(crate) fn parse_group_i64(s: &str, start: usize, end: usize) -> (r: Option<i64>)
    requires
        start as int <= end as int <= s@.len(),
    ensures
        r == spec_parse_i64(s@.subrange(start as int, end as int)),
{
    let ghost g = s@.subrange(start as int, end as int);
    if start == end {
        return None;
    }
    let c0 = s.get_char(start);
    let c0u: u32 = c0 as u32;
    let neg = c0u == 45;
    let has_sign = c0u == 45 || c0u == 43;
    proof {
        assert(c0 == g[0]);
        assert(neg == (g[0] == '-'));
        assert(has_sign == (g[0] == '-' || g[0] == '+'));
    }
    let ds_start: usize = if has_sign {
        start + 1
    } else {
        start
    };
    let ghost ds = s@.subrange(ds_start as int, end as int);
    proof {
        if has_sign {
            assert(ds =~= g.drop_first());
        } else {
            assert(ds =~= g);
        }
    }
    if ds_start == end {
        return None;
    }
    let mut acc: u128 = 0;
    let mut i: usize = ds_start;
    while i < end
        invariant
            ds_start as int <= i as int <= end as int,
            end as int <= s@.len(),
            ds == s@.subrange(ds_start as int, end as int),
            all_digits(s@.subrange(ds_start as int, i as int)),
            acc == digits_val(s@.subrange(ds_start as int, i as int)),
            acc <= 0x8000_0000_0000_0000u128,
        decreases end - i,
    {
        let ghost prefix = s@.subrange(ds_start as int, i as int);
        let c = s.get_char(i);
        let cu: u32 = c as u32;
        if cu < 48 || cu > 57 {
            proof {
                assert(ds[i - ds_start] == c);
                assert(!is_digit(c));
                assert(!all_digits(ds));
                let spec_ds = if g.len() > 0 && (g[0] == '-' || g[0] == '+') {
                    g.drop_first()
                } else {
                    g
                };
                assert(spec_ds == ds);
                assert(spec_parse_i64(g) is None);
            }
            return None;
        }
        let d: u8 = (cu - 48) as u8;
        let next: u128 = acc * 10 + d as u128;
        let ghost prefix1 = s@.subrange(ds_start as int, i as int + 1);
        proof {
            assert(prefix1.drop_last() =~= prefix);
            assert(prefix1.last() == c);
            assert(digits_val(prefix1) == acc * 10 + d);
        }
        if next > 0x8000_0000_0000_0000u128 {
            proof {
                if all_digits(ds) {
                    assert(prefix1 =~= ds.subrange(0, i as int + 1 - ds_start as int));
                    lemma_digits_val_prefix_le(ds, i as int + 1 - ds_start as int);
                    assert(digits_val(ds) > 0x8000_0000_0000_0000);
                }
                assert(spec_parse_i64(g) is None);
            }
            return None;
        }
        acc = next;
        i += 1;
    }
    proof {
        assert(s@.subrange(ds_start as int, i as int) =~= ds);
        lemma_digits_val_nonneg(ds);
    }
    if neg {
        if acc == 0x8000_0000_0000_0000u128 {
            Some(i64::MIN)
        } else {
            Some(-(acc as i64))
        }
    } else {
        if acc >= 0x8000_0000_0000_0000u128 {
            None
        } else {
            Some(acc as i64)
        }
    }
}

/// Scans `s[from..len]` for the first colon.
#[verifier::loop_isolation(false)]
fn find_colon_from(s: &str, from: usize, len: usize) -> (p: usize)
    requires
        from as int <= s@.len(),
        len as int == s@.len(),
    ensures
        p == find_colon(s@, from as int),
        from as int <= p as int <= s@.len(),
        (p as int) < s@.len() ==> s@[p as int] == ':',
{
    let mut i: usize = from;
    while i < len
        invariant
            from <= i <= len,
            no_colon_before(s@, from as int, i as int),
        decreases len - i,
    {
        let c = s.get_char(i);
        if c as u32 == 58 {
            proof {
                lemma_find_colon_characterization(s@, from as int, i as int);
            }
            return i;
        }
        i += 1;
    }
    proof {
        lemma_find_colon_characterization(s@, from as int, s@.len() as int);
    }
    len
}

/// One colon-separated group, checked in two steps: text that is not a
/// number at all gives `invalid`, a negative number gives `negative`.
pub open spec fn spec_check_group(
    g: Seq<char>,
    invalid: InvalidClockDurationString,
    negative: InvalidClockDurationString,
) -> Result<i64, InvalidClockDurationString> {
    match spec_parse_i64(g) {
        None => Err(invalid),
        Some(v) => if v < 0 {
            Err(negative)
        } else {
            Ok(v)
        },
    }
}

/// The duration denoted by non-negative hour, minute and second
/// magnitudes; a total beyond the representable whole-second count
/// denotes no duration.
pub open spec fn spec_duration_of_groups(h: int, m: int, s: int) -> Result<
    ClockDuration,
    InvalidClockDurationString,
> {
    if 3600 * h + 60 * m + s > i64::MAX as int {
        Err(InvalidClockDurationString::InvalidFormat)
    } else {
        Ok(ClockDuration { secs: (3600 * h + 60 * m + s) as i64, nanos: 0 })
    }
}

/// The duration denoted by a text of one to three colon-separated
/// groups, read right to left as seconds, minutes, hours; a third colon
/// is left inside the seconds group, which then fails to parse.
pub open spec fn spec_parse_duration(cs: Seq<char>) -> Result<
    ClockDuration,
    InvalidClockDurationString,
> {
    let p1 = find_colon(cs, 0);
    if p1 == cs.len() {
        match spec_check_group(
            cs,
            InvalidClockDurationString::InvalidSeconds,
            InvalidClockDurationString::NegativeSeconds,
        ) {
            Err(e) => Err(e),
            Ok(sv) => spec_duration_of_groups(0, 0, sv as int),
        }
    } else {
        let p2 = find_colon(cs, p1 + 1);
        if p2 == cs.len() {
            match spec_check_group(
                cs.subrange(0, p1),
                InvalidClockDurationString::InvalidMinutes,
                InvalidClockDurationString::NegativeMinutes,
            ) {
                Err(e) => Err(e),
                Ok(mv) => match spec_check_group(
                    cs.subrange(p1 + 1, cs.len() as int),
                    InvalidClockDurationString::InvalidSeconds,
                    InvalidClockDurationString::NegativeSeconds,
                ) {
                    Err(e) => Err(e),
                    Ok(sv) => spec_duration_of_groups(0, mv as int, sv as int),
                },
            }
        } else {
            match spec_check_group(
                cs.subrange(0, p1),
                InvalidClockDurationString::InvalidHour,
                InvalidClockDurationString::NegativeHours,
            ) {
                Err(e) => Err(e),
                Ok(hv) => match spec_check_group(
                    cs.subrange(p1 + 1, p2),
                    InvalidClockDurationString::InvalidMinutes,
                    InvalidClockDurationString::NegativeMinutes,
                ) {
                    Err(e) => Err(e),
                    Ok(mv) => match spec_check_group(
                        cs.subrange(p2 + 1, cs.len() as int),
                        InvalidClockDurationString::InvalidSeconds,
                        InvalidClockDurationString::NegativeSeconds,
                    ) {
                        Err(e) => Err(e),
                        Ok(sv) => spec_duration_of_groups(hv as int, mv as int, sv as int),
                    },
                },
            }
        }
    }
}

/// Parses and range-checks one group.
fn check_group(
    s: &str,
    start: usize,
    end: usize,
    invalid: InvalidClockDurationString,
    negative: InvalidClockDurationString,
) -> (r: Result<i64, InvalidClockDurationString>)
    requires
        start as int <= end as int <= s@.len(),
    ensures
        r == spec_check_group(s@.subrange(start as int, end as int), invalid, negative),
        r matches Ok(v) ==> v >= 0,
{
    match parse_group_i64(s, start, end) {
        None => Err(invalid),
        Some(v) => if v < 0 {
            Err(negative)
        } else {
            Ok(v)
        },
    }
}

impl ClockDuration {
    /// Combines checked group magnitudes into a duration.
    fn of_groups(h: i64, m: i64, s: i64) -> (r: Result<ClockDuration, InvalidClockDurationString>)
        requires
            h >= 0,
            m >= 0,
            s >= 0,
        ensures
            r == spec_duration_of_groups(h as int, m as int, s as int),
    {
        let total: i128 = 3600 * h as i128 + 60 * m as i128 + s as i128;
        if total > i64::MAX as i128 {
            Err(InvalidClockDurationString::InvalidFormat)
        } else {
            Ok(ClockDuration::from_hms(h, m, s))
        }
    }

    /// Parses the compact colon-separated duration text: one group is
    /// seconds, two are minutes and seconds, three are hours, minutes
    /// and seconds. Each malformed or negative group is reported as its
    /// own error, in reading order.
    pub fn from_str(s: &str) -> (r: Result<ClockDuration, InvalidClockDurationString>)
        ensures
            r == spec_parse_duration(s@),
    {
        let len = s.unicode_len();
        let p1 = find_colon_from(s, 0, len);
        if p1 == len {
            proof {
                assert(s@.subrange(0, s@.len() as int) =~= s@);
            }
            let sv = match check_group(
                s,
                0,
                len,
                InvalidClockDurationString::InvalidSeconds,
                InvalidClockDurationString::NegativeSeconds,
            ) {
                Ok(v) => v,
                Err(e) => return Err(e),
            };
            Self::of_groups(0, 0, sv)
        } else {
            let p2 = find_colon_from(s, p1 + 1, len);
            if p2 == len {
                let mv = match check_group(
                    s,
                    0,
                    p1,
                    InvalidClockDurationString::InvalidMinutes,
                    InvalidClockDurationString::NegativeMinutes,
                ) {
                    Ok(v) => v,
                    Err(e) => return Err(e),
                };
                let sv = match check_group(
                    s,
                    p1 + 1,
                    len,
                    InvalidClockDurationString::InvalidSeconds,
                    InvalidClockDurationString::NegativeSeconds,
                ) {
                    Ok(v) => v,
                    Err(e) => return Err(e),
                };
                Self::of_groups(0, mv, sv)
            } else {
                let hv = match check_group(
                    s,
                    0,
                    p1,
                    InvalidClockDurationString::InvalidHour,
                    InvalidClockDurationString::NegativeHours,
                ) {
                    Ok(v) => v,
                    Err(e) => return Err(e),
                };
                let mv = match check_group(
                    s,
                    p1 + 1,
                    p2,
                    InvalidClockDurationString::InvalidMinutes,
                    InvalidClockDurationString::NegativeMinutes,
                ) {
                    Ok(v) => v,
                    Err(e) => return Err(e),
                };
                let sv = match check_group(
                    s,
                    p2 + 1,
                    len,
                    InvalidClockDurationString::InvalidSeconds,
                    InvalidClockDurationString::NegativeSeconds,
                ) {
                    Ok(v) => v,
                    Err(e) => return Err(e),
                };
                Self::of_groups(hv, mv, sv)
            }
        }
    }
}

/// The decimal rendering of `n` is a non-empty digit string reading
/// back as `n`.
pub proof fn lemma_dec_props(n: nat)
    ensures
        spec_dec(n).len() >= 1,
        all_digits(spec_dec(n)),
        digits_val(spec_dec(n)) == n,
    decreases n,
{
    if n < 10 {
        let s = spec_dec(n);
        assert(s.drop_last() =~= Seq::<char>::empty());
        assert(digits_val(Seq::<char>::empty()) == 0);
        assert(is_digit(char_of_digit(n as int)));
        assert(char_of_digit(n as int) as int == 48 + n);
        assert(digits_val(s) == n);
    } else {
        lemma_dec_props((n / 10) as nat);
        let s = spec_dec(n);
        let pre = spec_dec((n / 10) as nat);
        let c = char_of_digit((n % 10) as int);
        assert(s == pre.push(c));
        assert(s.drop_last() =~= pre);
        assert(s.last() == c);
        assert(0 <= n % 10 < 10);
        assert(is_digit(c));
        assert forall|i: int| 0 <= i < s.len() implies is_digit(#[trigger] s[i]) by {
            if i < pre.len() {
                assert(s[i] == pre[i]);
            }
        }
        vstd::arithmetic::div_mod::lemma_fundamental_div_mod(n as int, 10);
        assert(digits_val(s) == digits_val(pre) * 10 + digit_val(c));
        assert(digits_val(s) == n);
    }
}

/// The padded rendering of `n` is a non-empty digit string reading back
/// as `n`.
pub proof fn lemma_pad2_props(n: nat)
    ensures
        spec_pad2(n).len() >= 1,
        all_digits(spec_pad2(n)),
        digits_val(spec_pad2(n)) == n,
{
    if n < 10 {
        let s = spec_pad2(n);
        assert(s.drop_last() =~= seq!['0']);
        assert(seq!['0'].drop_last() =~= Seq::<char>::empty());
        assert(digits_val(Seq::<char>::empty()) == 0);
        assert(digits_val(seq!['0']) == 0);
        assert(is_digit('0') && is_digit(char_of_digit(n as int)));
        assert(digits_val(s) == digit_val(char_of_digit(n as int)));
    } else {
        lemma_dec_props(n);
    }
}

/// A bare non-empty digit string parses to its value whenever that
/// value fits.
pub proof fn lemma_parse_digit_group(g: Seq<char>)
    requires
        g.len() >= 1,
        all_digits(g),
        digits_val(g) <= i64::MAX as int,
    ensures
        spec_parse_i64(g) == Some(digits_val(g) as i64),
{
    assert(is_digit(g[0]));
    assert(g[0] != '-' && g[0] != '+');
    lemma_digits_val_nonneg(g);
}

/// Rendering a non-negative whole-second duration as `HH:MM:SS` and
/// parsing the text back yields the same duration: the round trip that
/// `to_text` and `from_str` promise through `spec_duration_text` and
/// `spec_parse_duration`.
pub proof fn lemma_text_round_trip(d: ClockDuration)
    requires
        d.wf(),
        d.nanos == 0,
        0 <= d.secs,
    ensures
        spec_parse_duration(spec_duration_text(d)) == Ok::<
            ClockDuration,
            InvalidClockDurationString,
        >(d),
{
    let secs = d.secs as int;
    let h = d.spec_hours();
    let m = d.spec_mins();
    let s2 = d.spec_secs();
    let q1 = secs / 60;
    vstd::arithmetic::div_mod::lemma_fundamental_div_mod(secs, 60);
    vstd::arithmetic::div_mod::lemma_fundamental_div_mod(q1, 60);
    vstd::arithmetic::div_mod::lemma_div_denominator(secs, 60, 60);
    vstd::arithmetic::div_mod::lemma_div_pos_is_pos(secs, 60);
    vstd::arithmetic::div_mod::lemma_div_pos_is_pos(q1, 60);
    vstd::arithmetic::div_mod::lemma_mod_division_less_than_divisor(secs, 60);
    vstd::arithmetic::div_mod::lemma_mod_division_less_than_divisor(q1, 60);
    assert(h == q1 / 60);
    assert(m == q1 % 60 && s2 == secs % 60);
    assert(0 <= s2 < 60 && 0 <= m < 60 && 0 <= h);
    assert(secs == 3600 * h + 60 * m + s2);
    assert(h <= i64::MAX as int);
    let g1 = spec_pad2(h as nat);
    let g2 = spec_pad2(m as nat);
    let g3 = spec_pad2(s2 as nat);
    lemma_pad2_props(h as nat);
    lemma_pad2_props(m as nat);
    lemma_pad2_props(s2 as nat);
    let text = spec_duration_text(d);
    assert(text == g1 + seq![':'] + g2 + seq![':'] + g3);
    let p1 = g1.len() as int;
    let p2 = p1 + 1 + g2.len() as int;
    let n = text.len() as int;
    assert(text[p1] == ':');
    assert(text[p2] == ':');
    assert(no_colon_before(text, 0, p1)) by {
        assert forall|j: int| 0 <= j < p1 implies #[trigger] text[j] != ':' by {
            assert(text[j] == g1[j]);
            assert(is_digit(g1[j]));
        }
    }
    lemma_find_colon_characterization(text, 0, p1);
    assert(no_colon_before(text, p1 + 1, p2)) by {
        assert forall|j: int| p1 + 1 <= j < p2 implies #[trigger] text[j] != ':' by {
            assert(text[j] == g2[j - (p1 + 1)]);
            assert(is_digit(g2[j - (p1 + 1)]));
        }
    }
    lemma_find_colon_characterization(text, p1 + 1, p2);
    assert(text.subrange(0, p1) =~= g1);
    assert(text.subrange(p1 + 1, p2) =~= g2);
    assert(text.subrange(p2 + 1, n) =~= g3);
    lemma_parse_digit_group(g1);
    lemma_parse_digit_group(g2);
    lemma_parse_digit_group(g3);
    assert(spec_duration_of_groups(h, m, s2) == Ok::<ClockDuration, InvalidClockDurationString>(
        ClockDuration { secs: d.secs, nanos: 0 },
    ));
}

impl ClockDuration {
    /// Renders the duration as zero-padded `HH:MM:SS`; hours are
    /// unbounded, not wrapped to 24.
    pub fn to_text(&self) -> (r: String)
        ensures
            r@ == spec_duration_text(*self),
    {
        let mut s = String::new();
        let h: i64 = self.hours();
        let m: i64 = self.mins() as i64;
        let sec: i64 = self.secs() as i64;
        push_signed_pad2(&mut s, h);
        string_push(&mut s, ':');
        push_signed_pad2(&mut s, m);
        string_push(&mut s, ':');
        push_signed_pad2(&mut s, sec);
        proof {
            assert(s@ =~= spec_duration_text(*self));
        }
        s
    }
}

} // verus!
