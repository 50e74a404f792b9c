use chrono::NaiveDateTime;
use corrupted_clock::cli_args::{
    ClockKind, ClockReference, ExistingClockKindReference, ExistingClockReference,
    InvalidArgsClockReference, ManyClockReferenceKind,
};
use corrupted_clock::dispatch::{
    create_entry, delete_reference, get_count_down_or_not_found, get_stopwatch_or_not_found,
    modify_reference, CreateTimerError, NotFoundClockErr,
};
use corrupted_clock::timing::clock_table::ClockTable;
use corrupted_clock::timing::mocking_time::MockTimeImpl;
use corrupted_clock::timing::{ClockCommand, ClockDuration, UtcDateTime};

fn new_utc_moment(input: &str) -> UtcDateTime {
    const FMT: &str = "%Y-%m-%d %H:%M:%S";
    let time = NaiveDateTime::parse_from_str(input, FMT).unwrap();
    UtcDateTime::from_timestamp(time.and_utc().timestamp(), 0).unwrap()
}

fn minutes(m: i64) -> ClockDuration {
    ClockDuration::from_hms(0, m, 0)
}

fn single(name: &str, kind: Option<ClockKind>) -> ExistingClockKindReference {
    ExistingClockKindReference::Single(ClockReference::new(name.to_string(), kind))
}

#[test]
fn create_entry_builds_both_kinds() {
    let clock = MockTimeImpl::new(new_utc_moment("2024-05-01 08:20:40"));
    let mut table: ClockTable<MockTimeImpl> = ClockTable::new(Vec::new(), Vec::new());
    create_entry(&mut table, "work".to_string(), None, None, clock.clone()).unwrap();
    create_entry(
        &mut table,
        "tea".to_string(),
        Some(minutes(2)),
        None,
        clock.clone(),
    )
    .unwrap();
    assert!(table.has_stop_watch("work"));
    assert!(table.has_count_down("tea"));
    assert!(!table.has_count_down("work"));

    match create_entry(&mut table, "work".to_string(), None, None, clock.clone()) {
        Err(CreateTimerError::AlreadyAdded(a)) => assert_eq!("work", a.0),
        _ => panic!("a taken stopwatch name must be refused"),
    }
}

#[test]
fn create_entry_rejects_future_start_dates() {
    let clock = MockTimeImpl::new(new_utc_moment("2024-05-01 08:20:40"));
    let mut table: ClockTable<MockTimeImpl> = ClockTable::new(Vec::new(), Vec::new());
    let future = new_utc_moment("2024-05-01 08:20:41");
    match create_entry(
        &mut table,
        "work".to_string(),
        None,
        Some(future),
        clock.clone(),
    ) {
        Err(CreateTimerError::InFuture(e)) => assert_eq!(future, e.0),
        _ => panic!("a future start date must be refused"),
    }
    let past = new_utc_moment("2024-05-01 08:00:00");
    create_entry(
        &mut table,
        "work".to_string(),
        None,
        Some(past),
        clock.clone(),
    )
    .unwrap();
    let sw = table.get_stopwatch("work").unwrap();
    assert_eq!(past, sw.start_moment());
}

#[test]
fn delete_reference_reports_missing_names() {
    let clock = MockTimeImpl::new(new_utc_moment("2024-05-01 08:20:40"));
    let mut table: ClockTable<MockTimeImpl> = ClockTable::new(Vec::new(), Vec::new());
    create_entry(&mut table, "work".to_string(), None, None, clock.clone()).unwrap();
    create_entry(
        &mut table,
        "tea".to_string(),
        Some(minutes(2)),
        None,
        clock.clone(),
    )
    .unwrap();

    let missing = delete_reference(&mut table, &single("coffee", Some(ClockKind::CountDown)));
    assert_eq!(
        Err(NotFoundClockErr::new(
            "coffee".to_string(),
            ClockKind::CountDown
        )),
        missing
    );

    delete_reference(&mut table, &single("work", None)).unwrap();
    assert!(!table.has_stop_watch("work"));
    assert!(table.has_count_down("tea"));

    delete_reference(
        &mut table,
        &ExistingClockKindReference::All(ManyClockReferenceKind::All),
    )
    .unwrap();
    assert_eq!(0, table.all_stopwatches().len());
    assert_eq!(0, table.all_count_downs().len());
}

#[test]
fn bulk_removal_succeeds_even_on_empty_mappings() {
    let (mut table, _clock) = {
        let clock = MockTimeImpl::new(new_utc_moment("2024-05-01 08:20:40"));
        (ClockTable::<MockTimeImpl>::new(Vec::new(), Vec::new()), clock)
    };
    delete_reference(
        &mut table,
        &ExistingClockKindReference::All(ManyClockReferenceKind::All),
    )
    .unwrap();
    delete_reference(
        &mut table,
        &ExistingClockKindReference::All(ManyClockReferenceKind::Stopwatch),
    )
    .unwrap();
    assert_eq!(0, table.all_stopwatches().len());
}

#[test]
fn modify_reference_drives_the_named_timer() {
    let clock = MockTimeImpl::new(new_utc_moment("2024-05-01 08:20:40"));
    let mut table: ClockTable<MockTimeImpl> = ClockTable::new(Vec::new(), Vec::new());
    create_entry(&mut table, "work".to_string(), None, None, clock.clone()).unwrap();
    clock.add_to_now(minutes(3));
    modify_reference(&mut table, &single("work", None), ClockCommand::Pause).unwrap();
    clock.add_to_now(minutes(60));
    assert_eq!(
        "00:03:00",
        table.get_stopwatch("work").unwrap().passed().to_text()
    );
    modify_reference(
        &mut table,
        &ExistingClockKindReference::All(ManyClockReferenceKind::Stopwatch),
        ClockCommand::Reset,
    )
    .unwrap();
    assert_eq!(
        "00:00:00",
        table.get_stopwatch("work").unwrap().passed().to_text()
    );
    let missing = modify_reference(&mut table, &single("tea", None), ClockCommand::Pause);
    assert_eq!(
        Err(NotFoundClockErr::new("tea".to_string(), ClockKind::StopWatch)),
        missing
    );
}

#[test]
fn get_helpers_report_the_searched_kind() {
    let clock = MockTimeImpl::new(new_utc_moment("2024-05-01 08:20:40"));
    let mut table: ClockTable<MockTimeImpl> = ClockTable::new(Vec::new(), Vec::new());
    create_entry(&mut table, "work".to_string(), None, None, clock.clone()).unwrap();
    assert!(get_stopwatch_or_not_found(&table, "work").is_ok());
    match get_count_down_or_not_found(&table, "work") {
        Err(err) => {
            assert_eq!(ClockKind::CountDown, err.kind);
            assert_eq!("work", err.name);
            assert_eq!("No count down found under the name \"work\"", err.message());
        }
        Ok(_) => panic!("no countdown is registered under that name"),
    }
}

#[test]
fn kind_reference_validates_name_against_bulk_selector() {
    let both = ExistingClockReference {
        name: Some("work".to_string()),
        kind: None,
        all: Some(ManyClockReferenceKind::All),
    };
    assert!(matches!(
        both.kind_reference(),
        Err(InvalidArgsClockReference::AllWithName)
    ));

    let neither = ExistingClockReference {
        name: None,
        kind: None,
        all: None,
    };
    assert!(matches!(
        neither.kind_reference(),
        Err(InvalidArgsClockReference::NoNameForSingle)
    ));

    let named = ExistingClockReference {
        name: Some("work".to_string()),
        kind: Some(ClockKind::CountDown),
        all: None,
    };
    match named.kind_reference() {
        Ok(ExistingClockKindReference::Single(r)) => {
            assert_eq!("work", r.name());
            assert_eq!(ClockKind::CountDown, r.kind());
        }
        _ => panic!("a named reference must validate as a single address"),
    }

    let bulk = ExistingClockReference {
        name: None,
        kind: None,
        all: Some(ManyClockReferenceKind::CountDown),
    };
    match bulk.kind_reference() {
        Ok(ExistingClockKindReference::All(k)) => {
            assert_eq!(ManyClockReferenceKind::CountDown, k)
        }
        _ => panic!("a bulk selector must validate as a bulk address"),
    }
}
