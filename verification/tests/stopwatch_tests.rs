use chrono::NaiveDateTime;
use corrupted_clock::timing::mocking_time::MockTimeImpl;
use corrupted_clock::timing::{ClockDuration, Stopwatch, UtcDateTime};

fn new_utc_moment(input: &str) -> UtcDateTime {
    const FMT: &str = "%Y-%m-%d %H:%M:%S";
    let time = NaiveDateTime::parse_from_str(input, FMT).unwrap();
    UtcDateTime::from_timestamp(time.and_utc().timestamp(), 0).unwrap()
}

fn new_mocked_stopwatch(input: &str) -> (Stopwatch<MockTimeImpl>, MockTimeImpl) {
    let time_impl = MockTimeImpl::new(new_utc_moment(input));
    (Stopwatch::new_with_impl(time_impl.clone()), time_impl)
}

fn assert_passed(watcher: &Stopwatch<MockTimeImpl>, expected: &str) {
    let passed = watcher.passed().to_text();
    assert_eq!(expected, passed);
}

fn minutes(m: i64) -> ClockDuration {
    ClockDuration::from_hms(0, m, 0)
}

fn hours(h: i64) -> ClockDuration {
    ClockDuration::from_hms(h, 0, 0)
}

#[test]
fn start_watch_and_progress() {
    let (watcher, setter) = new_mocked_stopwatch("2000-11-11 11:11:11");
    let start = watcher.start_moment();
    let later = start
        .checked_add(&(minutes(10) + ClockDuration::from_hms(0, 0, 51)))
        .unwrap();
    setter.set_now(later);
    let passed = watcher.passed().to_text();
    assert_eq!("00:10:51", passed);
}

#[test]
fn reset_watch() {
    let (mut watcher, setter) = new_mocked_stopwatch("2000-01-10 10:00:00");

    setter.add_to_now(minutes(10));
    assert_passed(&watcher, "00:10:00");
    watcher.reset();
    assert_passed(&watcher, "00:00:00");
    setter.add_to_now(minutes(20));
    assert_passed(&watcher, "00:20:00");
}

#[test]
fn pause_and_resume_watch() {
    let (mut watcher, setter) = new_mocked_stopwatch("2000-01-10 10:00:00");

    // Now: 2000-01-10 10:10:51
    setter.add_to_now(minutes(10) + ClockDuration::from_hms(0, 0, 51));
    // Checking if times passed after no pausing or resuming
    assert_passed(&watcher, "00:10:51");

    watcher.pause();
    // Now: 2000-01-10 11:10:51
    setter.add_to_now(hours(1));
    // Checking if one hour is ignored becauses of pause
    assert_passed(&watcher, "00:10:51");
    watcher.resume();
    // Now: 2000-01-10 12:10:51
    setter.add_to_now(hours(1));
    // Checking if new one hour is considered after resume
    assert_passed(&watcher, "01:10:51");

    watcher.pause();
    // Now: 2000-01-10 15:10:51
    setter.add_to_now(hours(3));
    watcher.resume();
    // Now: 2000-01-10 18:10:51
    setter.add_to_now(hours(3));
    assert_passed(&watcher, "04:10:51");
}

#[test]
fn fresh_stopwatch_shows_zero_and_runs() {
    let (watcher, _setter) = new_mocked_stopwatch("2000-01-10 10:00:00");
    assert!(!watcher.is_paused());
    assert_eq!(0, watcher.passed().total_secs());
    assert_eq!(0, watcher.passed().nanos_part());
    assert_eq!(0, watcher.paused_time().total_secs());
}

#[test]
fn pausing_twice_equals_pausing_once() {
    let (mut watcher, setter) = new_mocked_stopwatch("2000-01-10 10:00:00");
    setter.add_to_now(minutes(5));
    watcher.pause();
    let banked = watcher.passed();
    setter.add_to_now(minutes(5));
    watcher.pause();
    assert!(watcher.is_paused());
    assert_eq!(banked, watcher.passed());

    watcher.resume();
    let after_first_resume_paused_total = watcher.paused_time();
    setter.add_to_now(minutes(5));
    watcher.resume();
    assert!(!watcher.is_paused());
    assert_eq!(after_first_resume_paused_total, watcher.paused_time());
}

#[test]
fn ninety_seconds_read_as_one_minute_thirty() {
    let (watcher, setter) = new_mocked_stopwatch("2024-05-01 08:20:40");
    setter.add_to_now(ClockDuration::from_hms(0, 0, 90));
    assert_passed(&watcher, "00:01:30");
}

#[test]
fn paused_time_counts_the_pause_in_progress() {
    let (mut watcher, setter) = new_mocked_stopwatch("2000-01-10 10:00:00");
    setter.add_to_now(minutes(2));
    watcher.pause();
    setter.add_to_now(minutes(7));
    assert_eq!("00:07:00", watcher.paused_time().to_text());
    watcher.resume();
    setter.add_to_now(minutes(4));
    assert_eq!("00:07:00", watcher.paused_time().to_text());
    assert_passed(&watcher, "00:06:00");
}

#[test]
fn start_date_in_future_is_rejected() {
    let now = new_utc_moment("2000-01-10 10:00:00");
    let clock = MockTimeImpl::new(now);
    let future = new_utc_moment("2000-01-10 10:00:01");
    let r = Stopwatch::new_with_impl_and_start_date(clock.clone(), future);
    match r {
        Err(e) => assert_eq!(future, e.0),
        Ok(_) => panic!("a future start date must be rejected"),
    }
    let past = new_utc_moment("1999-12-31 23:59:59");
    let sw = Stopwatch::new_with_impl_and_start_date(clock, past).expect("past start is accepted");
    assert_eq!(past, sw.start_moment());
    assert_eq!(past, sw.created_at());
}
