use corrupted_clock::timing::{ClockDuration, InvalidClockDurationString};

fn assert_case(input: &str, expected: Result<ClockDuration, InvalidClockDurationString>) {
    let actual = ClockDuration::from_str(input);
    assert_eq!(expected, actual, "Actul input: '{}'", input);
}

#[test]
fn regex_on_duration_input() {
    assert_case(
        "20:12:13",
        Ok(ClockDuration::new_secs_mins_hours(
            Some(20),
            Some(12),
            Some(13),
        )),
    );
    assert_case(
        "01:100",
        Ok(ClockDuration::new_secs_mins_hours(None, Some(1), Some(100))),
    );
    assert_case(
        "234",
        Ok(ClockDuration::new_secs_mins_hours(None, None, Some(234))),
    );
    assert_case("aa", Err(InvalidClockDurationString::InvalidSeconds));
    assert_case("", Err(InvalidClockDurationString::InvalidSeconds));
    assert_case("232:aa", Err(InvalidClockDurationString::InvalidSeconds));
    assert_case("aa:22", Err(InvalidClockDurationString::InvalidMinutes));
    assert_case("aa:22:02", Err(InvalidClockDurationString::InvalidHour));
    assert_case(
        "01:22:-02",
        Err(InvalidClockDurationString::NegativeSeconds),
    );
    assert_case(
        "02:-22:02",
        Err(InvalidClockDurationString::NegativeMinutes),
    );
    assert_case("-1:00:00", Err(InvalidClockDurationString::NegativeHours));
}

#[test]
fn duration_text_round_trip() {
    for (h, m, s) in [(0i64, 0i64, 0i64), (0, 1, 30), (20, 12, 13), (1, 100, 0), (345, 59, 59)] {
        let d = ClockDuration::from_hms(h, m, s);
        let text = d.to_text();
        let back = ClockDuration::from_str(&text).expect("rendered text must parse");
        assert_eq!(d, back, "round trip through '{}'", text);
    }
}

#[test]
fn duration_displays_zero_padded() {
    assert_eq!("00:00:00", ClockDuration::from_hms(0, 0, 0).to_text());
    assert_eq!("00:01:30", ClockDuration::from_hms(0, 0, 90).to_text());
    assert_eq!("02:40:00", ClockDuration::from_hms(1, 100, 0).to_text());
    assert_eq!("20:12:13", ClockDuration::from_hms(20, 12, 13).to_text());
    assert_eq!("123:05:07", ClockDuration::from_hms(123, 5, 7).to_text());
}

#[test]
fn duration_sub_then_add_restores() {
    let a = ClockDuration::from_hms(4, 10, 51);
    let b = ClockDuration::from_hms(1, 0, 3);
    assert_eq!(a, (a - b) + b);
    let c = ClockDuration { secs: 7, nanos: 500_000_000 };
    let d = ClockDuration { secs: 2, nanos: 700_000_000 };
    assert_eq!(ClockDuration { secs: 4, nanos: 800_000_000 }, c - d);
    assert_eq!(c, (c - d) + d);
}

#[test]
fn duration_accessors_split_the_reading() {
    let d = ClockDuration::from_hms(20, 12, 13);
    assert_eq!(20 * 3600 + 12 * 60 + 13, d.total_secs());
    assert_eq!(0, d.nanos_part());
    assert_eq!(20, d.hours());
    assert_eq!(12, d.mins());
    assert_eq!(13, d.secs());
}

#[test]
fn duration_overflowing_total_is_invalid_format() {
    assert_case(
        "9223372036854775807:00:00",
        Err(InvalidClockDurationString::InvalidFormat),
    );
}

#[test]
fn negative_duration_renders_with_signed_fields() {
    let d = ClockDuration::from_hms(0, 0, 0) - ClockDuration::from_hms(0, 1, 30);
    assert_eq!(-90, d.total_secs());
    assert_eq!("00:-1:-30", d.to_text());
}
