use chrono::NaiveDateTime;
use corrupted_clock::timing::clock_table::ClockTable;
use corrupted_clock::timing::mocking_time::MockTimeImpl;
use corrupted_clock::timing::{
    ClockCommand, ClockDuration, CountDown, Stopwatch, UtcDateTime,
};

fn new_utc_moment(input: &str) -> UtcDateTime {
    const FMT: &str = "%Y-%m-%d %H:%M:%S";
    let time = NaiveDateTime::parse_from_str(input, FMT).unwrap();
    UtcDateTime::from_timestamp(time.and_utc().timestamp(), 0).unwrap()
}

fn table_with_clock(input: &str) -> (ClockTable<MockTimeImpl>, MockTimeImpl) {
    let clock = MockTimeImpl::new(new_utc_moment(input));
    (ClockTable::new(Vec::new(), Vec::new()), clock)
}

fn minutes(m: i64) -> ClockDuration {
    ClockDuration::from_hms(0, m, 0)
}

#[test]
fn adding_a_taken_name_fails_only_within_its_kind() {
    let (mut table, clock) = table_with_clock("2024-05-01 08:20:40");
    let budget = minutes(2);

    let first = table.add_stopwatch("tea".to_string(), Stopwatch::new_with_impl(clock.clone()));
    assert!(first.is_ok());

    let second = table.add_stopwatch("tea".to_string(), Stopwatch::new_with_impl(clock.clone()));
    match second {
        Err(err) => assert_eq!("tea", err.0),
        Ok(_) => panic!("the second add of the same name must fail"),
    }

    // The countdown namespace is independent: the same name is free there.
    let cross = table.add_count_down(
        "tea".to_string(),
        CountDown::new_with_impl(clock.clone(), budget),
    );
    assert!(cross.is_ok());
    assert!(table.has_stop_watch("tea"));
    assert!(table.has_count_down("tea"));
}

#[test]
fn remove_all_of_one_kind_keeps_the_other() {
    let (mut table, clock) = table_with_clock("2024-05-01 08:20:40");
    let budget = minutes(2);
    table
        .add_stopwatch("a".to_string(), Stopwatch::new_with_impl(clock.clone()))
        .unwrap();
    table
        .add_stopwatch("b".to_string(), Stopwatch::new_with_impl(clock.clone()))
        .unwrap();
    table
        .add_count_down(
            "a".to_string(),
            CountDown::new_with_impl(clock.clone(), budget),
        )
        .unwrap();

    table.remove_all_stopwatches();
    assert!(!table.has_stop_watch("a"));
    assert!(!table.has_stop_watch("b"));
    assert!(table.has_count_down("a"));
    assert_eq!(0, table.all_stopwatches().len());
    assert_eq!(1, table.all_count_downs().len());

    table.remove_all_count_donws();
    assert!(!table.has_count_down("a"));
    assert_eq!(0, table.all_count_downs().len());
}

#[test]
fn removing_reports_whether_the_name_was_there() {
    let (mut table, clock) = table_with_clock("2024-05-01 08:20:40");
    table
        .add_stopwatch("tea".to_string(), Stopwatch::new_with_impl(clock.clone()))
        .unwrap();
    assert!(table.remove_stopwatch("tea"));
    assert!(!table.remove_stopwatch("tea"));
    assert!(!table.remove_count_down("tea"));
}

#[test]
fn lookups_find_only_their_kind() {
    let (mut table, clock) = table_with_clock("2024-05-01 08:20:40");
    table
        .add_stopwatch("tea".to_string(), Stopwatch::new_with_impl(clock.clone()))
        .unwrap();
    assert!(table.get_stopwatch("tea").is_some());
    assert!(table.get_count_down("tea").is_none());
    assert!(table.get_stopwatch("coffee").is_none());
    assert!(table.has_stop_watch("tea"));
    assert!(!table.has_count_down("tea"));
}

#[test]
fn modifying_a_named_stopwatch_pauses_it() {
    let (mut table, clock) = table_with_clock("2024-05-01 08:20:40");
    table
        .add_stopwatch("tea".to_string(), Stopwatch::new_with_impl(clock.clone()))
        .unwrap();
    clock.add_to_now(minutes(3));
    assert!(table.modify_stopwatch("tea", ClockCommand::Pause));
    assert!(!table.modify_stopwatch("coffee", ClockCommand::Pause));
    let sw = table.get_stopwatch("tea").unwrap();
    assert!(sw.is_paused());
    clock.add_to_now(minutes(9));
    assert_eq!("00:03:00", sw.passed().to_text());
}

#[test]
fn modifying_all_count_downs_pauses_each() {
    let (mut table, clock) = table_with_clock("2024-05-01 08:20:40");
    let budget = minutes(30);
    table
        .add_count_down(
            "a".to_string(),
            CountDown::new_with_impl(clock.clone(), budget),
        )
        .unwrap();
    table
        .add_count_down(
            "b".to_string(),
            CountDown::new_with_impl(clock.clone(), budget),
        )
        .unwrap();
    clock.add_to_now(minutes(5));
    table.modify_all_count_downs(ClockCommand::Pause);
    clock.add_to_now(minutes(60));
    for (name, cd) in table.all_count_downs() {
        assert!(cd.is_paused(), "{} must be paused", name);
        assert_eq!("00:05:00", cd.passed().to_text());
        assert_eq!("00:25:00", cd.left_time().to_text());
    }
}
