use chrono::NaiveDateTime;
use corrupted_clock::timing::mocking_time::MockTimeImpl;
use corrupted_clock::timing::{ClockDuration, CountDown, UtcDateTime};

fn new_utc_moment(input: &str) -> UtcDateTime {
    const FMT: &str = "%Y-%m-%d %H:%M:%S";
    let time = NaiveDateTime::parse_from_str(input, FMT).unwrap();
    UtcDateTime::from_timestamp(time.and_utc().timestamp(), 0).unwrap()
}

fn set_up_counte_mock(
    input: &str,
    duration: ClockDuration,
) -> (CountDown<MockTimeImpl>, MockTimeImpl) {
    let time_impl = MockTimeImpl::new(new_utc_moment(input));
    (
        CountDown::new_with_impl(time_impl.clone(), duration),
        time_impl,
    )
}

fn assert_left_time(count_down: &CountDown<MockTimeImpl>, expected: ClockDuration) {
    let left_time = count_down.left_time();
    assert_eq!(expected, left_time);
}

fn hours(h: i64) -> ClockDuration {
    ClockDuration::from_hms(h, 0, 0)
}

#[test]
fn count_down_to_left_time() {
    let intial_time = ClockDuration::new_secs_mins_hours(Some(2), None, None);
    let (count_down, setter) = set_up_counte_mock("2020-02-11 12:00:00", intial_time);
    assert_left_time(&count_down, intial_time);
    setter.add_to_now(hours(1));
    setter.add_to_now(hours(2));
    // Count should be finished now
    assert_left_time(&count_down, ClockDuration::default());
}

#[test]
fn exhausted_count_down_clamps_at_its_budget() {
    let budget = ClockDuration::from_hms(0, 2, 0);
    let (count_down, setter) = set_up_counte_mock("2020-02-11 12:00:00", budget);
    setter.add_to_now(hours(3));
    assert_eq!("00:00:00", count_down.left_time().to_text());
    assert_eq!("00:02:00", count_down.passed().to_text());
}

#[test]
fn count_down_delegates_pausing_to_its_engine() {
    let budget = ClockDuration::from_hms(1, 0, 0);
    let (mut count_down, setter) = set_up_counte_mock("2020-02-11 12:00:00", budget);
    assert!(!count_down.is_paused());
    setter.add_to_now(ClockDuration::from_hms(0, 10, 0));
    count_down.pause();
    assert!(count_down.is_paused());
    setter.add_to_now(hours(5));
    assert_eq!("00:10:00", count_down.passed().to_text());
    assert_eq!("00:50:00", count_down.left_time().to_text());
    count_down.resume();
    assert!(!count_down.is_paused());
    setter.add_to_now(ClockDuration::from_hms(0, 20, 0));
    assert_eq!("00:30:00", count_down.passed().to_text());
    assert_eq!("00:30:00", count_down.left_time().to_text());
    assert_eq!(budget, count_down.count_down_time());
    assert_eq!("05:00:00", count_down.paused_time().to_text());
}

#[test]
fn count_down_reset_restarts_the_engine_and_keeps_the_budget() {
    let budget = ClockDuration::from_hms(0, 30, 0);
    let (mut count_down, setter) = set_up_counte_mock("2020-02-11 12:00:00", budget);
    setter.add_to_now(ClockDuration::from_hms(0, 10, 0));
    count_down.reset();
    assert_eq!("00:00:00", count_down.passed().to_text());
    assert_left_time(&count_down, budget);
    assert_eq!(budget, count_down.count_down_time());
}

#[test]
fn count_down_with_future_start_is_rejected() {
    let budget = ClockDuration::from_hms(0, 2, 0);
    let future = UtcDateTime::from_timestamp(253402300799, 0).unwrap();
    match CountDown::new_with_start(budget, future) {
        Err(e) => assert_eq!(future, e.0),
        Ok(_) => panic!("a start date in the far future must be rejected"),
    }
}
