use chrono::{TimeZone, Utc};
use corrupted_clock::parsed_date::{InvalidDateFormat, ParsedDate};
use corrupted_clock::timing::UtcDateTime;

fn date(y: i32, mo: u32, d: u32, h: u32, mi: u32, s: u32) -> ParsedDate {
    let ts = Utc
        .with_ymd_and_hms(y, mo, d, h, mi, s)
        .unwrap()
        .timestamp();
    ParsedDate(UtcDateTime::from_timestamp(ts, 0).unwrap())
}

fn assert_case(input: &str, expected: Result<ParsedDate, InvalidDateFormat>) {
    let actual = ParsedDate::from_str(input);
    assert_eq!(expected, actual, "Given input: {}", input);
}

#[test]
fn regex_on_date() {
    assert_case("2022-02-01 02:04:02", Ok(date(2022, 2, 1, 2, 4, 2)));
    assert_case("2022-2-1 2:4:2", Ok(date(2022, 2, 1, 2, 4, 2)));
    assert_case("2022-10-15 00:00:00", Ok(date(2022, 10, 15, 0, 0, 0)));
    assert_case("2022-10-15__00:00:00", Ok(date(2022, 10, 15, 0, 0, 0)));
    assert_case("2022-12-31__23:59:59", Ok(date(2022, 12, 31, 23, 59, 59)));
    assert_case("2022-01-01 00:59:59", Ok(date(2022, 1, 1, 0, 59, 59)));
    assert_case("2022-12-32__23:59:59", Err(InvalidDateFormat::NoDay));
    assert_case("2022-12-00__23:59:59", Err(InvalidDateFormat::NoDay));
    assert_case("2022-00-01__23:59:59", Err(InvalidDateFormat::NoMonth));
    assert_case("2022-13-01__23:59:59", Err(InvalidDateFormat::NoMonth));
    assert_case("2022-01-01 23:60:59", Err(InvalidDateFormat::NoMinutes));
    assert_case("2022-01-01 23:59:60", Err(InvalidDateFormat::NoSeconds));
}

#[test]
fn date_error_kinds_name_the_offending_field() {
    assert_case("no date at all", Err(InvalidDateFormat::InvalidDateFromat));
    assert_case("2022-01-01", Err(InvalidDateFormat::InvalidDateFromat));
    assert_case("2022-01-01 24:00:00", Err(InvalidDateFormat::NoHours));
    assert_case(
        "99999999999-01-01 00:00:00",
        Err(InvalidDateFormat::NoYear),
    );
    // The fields are in range but February has no 30th day.
    assert_case("2021-02-30 00:00:00", Err(InvalidDateFormat::NoValidDate));
}

#[test]
fn leap_day_is_a_valid_date_only_in_leap_years() {
    assert_case("2020-02-29 12:00:00", Ok(date(2020, 2, 29, 12, 0, 0)));
    assert_case("2021-02-29 12:00:00", Err(InvalidDateFormat::NoValidDate));
}
