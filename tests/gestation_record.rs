use pregnancy_monitor::gestation::{ChildInfo, GestationType, Timestamp, PROGRESS_FULL};
use pregnancy_monitor::stored::{RecordError, SaveData, StoredChildInfo};

fn at(secs: i64) -> Timestamp {
    Timestamp { secs, nanos: 0 }
}

fn record(count: u8, conception: Option<i64>) -> ChildInfo {
    ChildInfo {
        conception_time: conception.map(at),
        gestation_time: 8_000_000,
        gestation: GestationType::Hours,
        number_of_childern: count,
    }
}

#[test]
fn seconds_per_unit_table() {
    assert_eq!(GestationType::Mins.seconds_per_unit(), 60);
    assert_eq!(GestationType::Hours.seconds_per_unit(), 3600);
    assert_eq!(GestationType::Days.seconds_per_unit(), 86400);
    assert_eq!(GestationType::Weeks.seconds_per_unit(), 604800);
    assert_eq!(GestationType::Months.seconds_per_unit(), 2592000);
    for t in GestationType::variants() {
        assert!(t.seconds_per_unit() > 0);
    }
}

#[test]
fn unit_codes_and_names() {
    assert_eq!(GestationType::try_from(3u8), Ok(GestationType::Months));
    assert!(GestationType::try_from(9u8).is_err());
    assert_eq!(GestationType::from_code_or_hours(9), GestationType::Hours);
    assert_eq!(GestationType::from_code_or_hours(4), GestationType::Mins);
    assert_eq!(u8::from(GestationType::Weeks), 2);
    assert_eq!(i32::from(GestationType::Days), 1);
    assert_eq!(GestationType::Months.to_string(), "Months");
    assert_eq!(GestationType::variants().len(), 5);
}

#[test]
fn default_record() {
    let r = ChildInfo::default();
    assert_eq!(r.conception_time, None);
    assert_eq!(r.gestation_time, 8_000_000);
    assert_eq!(r.gestation, GestationType::Hours);
    assert_eq!(r.number_of_childern, 0);
}

#[test]
fn progress_zero_without_children_or_conception() {
    assert_eq!(record(0, None).progress(at(1_000_000)), 0);
    assert_eq!(record(2, None).progress(at(1_000_000)), 0);
    assert_eq!(record(0, Some(0)).progress(at(1_000_000)), 0);
}

#[test]
fn progress_values() {
    let r = record(1, Some(1_000));
    // eight hours: 28800 seconds
    assert_eq!(r.progress(at(1_000)), 0);
    assert_eq!(r.progress(at(500)), 0);
    assert_eq!(r.progress(at(1_000 + 14_400)), 500_000);
    assert_eq!(r.progress(at(1_000 + 7_200)), 250_000);
    assert_eq!(r.progress(at(1_000 + 28_800)), PROGRESS_FULL);
    assert_eq!(r.progress(at(1_000 + 1_000_000)), PROGRESS_FULL);
    // monotone over a sweep
    let mut last = 0;
    for s in (0..40_000).step_by(997) {
        let p = r.progress(at(s));
        assert!(p >= last && p <= PROGRESS_FULL);
        last = p;
    }
}

#[test]
fn progress_counts_nanoseconds_down() {
    let r = ChildInfo { conception_time: Some(Timestamp { secs: 0, nanos: 500 }), ..record(1, None) };
    assert_eq!(r.progress(Timestamp { secs: 14_400, nanos: 499 }), 499_965);
    assert_eq!(r.progress(Timestamp { secs: 14_400, nanos: 500 }), 500_000);
}

#[test]
fn due_time_adds_whole_seconds() {
    let r = record(1, Some(100));
    assert_eq!(r.due_time(at(5)), at(100 + 28_800));
    let none = record(0, None);
    assert_eq!(none.due_time(at(5)), at(5));
    let frac = ChildInfo { gestation_time: 1_500_001, gestation: GestationType::Mins, ..record(1, Some(0)) };
    assert_eq!(frac.due_time(at(5)), at(90));
}

#[test]
fn larger_count_stamps_missing_conception() {
    let mut r = record(0, None);
    r.child_counter(3, at(42));
    assert_eq!(r.number_of_childern, 3);
    assert_eq!(r.conception_time, Some(at(42)));
    r.child_counter(5, at(99));
    assert_eq!(r.number_of_childern, 5);
    assert_eq!(r.conception_time, Some(at(42)));
    r.child_counter(2, at(100));
    assert_eq!(r.number_of_childern, 5);
    r.child_counter(13, at(100));
    assert_eq!(r.number_of_childern, 5);
}

#[test]
fn removing_children_clears_conception_at_zero_only() {
    let mut r = record(2, Some(7));
    r.remove_child();
    assert_eq!(r.number_of_childern, 1);
    assert_eq!(r.conception_time, Some(at(7)));
    r.remove_child();
    assert_eq!(r.number_of_childern, 0);
    assert_eq!(r.conception_time, None);
    r.remove_child();
    assert_eq!(r.number_of_childern, 0);
}

#[test]
fn adding_children_up_to_twelve() {
    let mut r = record(0, None);
    r.add_child(at(10));
    assert_eq!(r.number_of_childern, 1);
    assert_eq!(r.conception_time, Some(at(10)));
    for _ in 0..20 {
        r.add_child(at(20));
    }
    assert_eq!(r.number_of_childern, 12);
    assert_eq!(r.conception_time, Some(at(10)));
}

#[test]
fn restart_and_length_edits() {
    let mut r = record(1, Some(7));
    r.restart_conception(at(70));
    assert_eq!(r.conception_time, Some(at(70)));
    let mut empty = record(0, None);
    empty.restart_conception(at(70));
    assert_eq!(empty.conception_time, None);
    r.set_gestation_time(0);
    assert_eq!(r.gestation_time, 8_000_000);
    r.set_gestation_time(2_500_000);
    assert_eq!(r.gestation_time, 2_500_000);
    r.set_gestation_type(2);
    assert_eq!(r.gestation, GestationType::Weeks);
    r.set_gestation_type(200);
    assert_eq!(r.gestation, GestationType::Hours);
}

#[test]
fn change_unit_keeps_length() {
    let mut r = record(0, None);
    r.change_unit(GestationType::Days);
    assert_eq!(r.gestation, GestationType::Days);
    assert_eq!(r.gestation_time, 333_333);
    r.change_unit(GestationType::Mins);
    assert_eq!(r.gestation_time, 479_999_520);
    let mut tiny = ChildInfo { gestation_time: 1, gestation: GestationType::Mins, ..record(0, None) };
    tiny.change_unit(GestationType::Months);
    assert_eq!(tiny.gestation_time, 1);
    assert_eq!(tiny.gestation, GestationType::Mins);
}

#[test]
fn change_unit_refuses_length_out_of_range() {
    let long = ChildInfo {
        gestation_time: 1_000_000_000_000_000_000,
        gestation: GestationType::Months,
        ..record(0, None)
    };
    let mut r = long;
    r.change_unit(GestationType::Mins);
    assert_eq!(r, long);
    r.change_unit(GestationType::Weeks);
    assert_eq!(r, long);
    let mut big = ChildInfo { gestation_time: 1_000_000_000_000, gestation: GestationType::Months, ..record(0, None) };
    big.change_unit(GestationType::Mins);
    assert_eq!(big.gestation, GestationType::Mins);
    assert_eq!(big.gestation_time, 43_200_000_000_000_000);
}

#[test]
fn record_round_trip_keeps_instant() {
    let r = ChildInfo {
        conception_time: Some(Timestamp { secs: 1_704_164_645, nanos: 123_000_000 }),
        gestation_time: 2_500_000,
        gestation: GestationType::Days,
        number_of_childern: 2,
    };
    let s = r.serialize();
    assert_eq!(s.conception_time.as_deref(), Some("2024-01-02T03:04:05.123+00:00"));
    assert_eq!(ChildInfo::deserialize(&s), Ok(r));
    let none = record(0, None);
    assert_eq!(ChildInfo::deserialize(&none.serialize()), Ok(none));
}

#[test]
fn round_trip_at_year_zero_and_leap_second() {
    let first = ChildInfo { conception_time: Some(Timestamp { secs: -62_167_219_200, nanos: 0 }), ..record(1, None) };
    let s = first.serialize();
    assert_eq!(s.conception_time.as_deref(), Some("0000-01-01T00:00:00+00:00"));
    assert_eq!(ChildInfo::deserialize(&s), Ok(first));
    let leap = ChildInfo {
        conception_time: Some(Timestamp { secs: 1_483_228_799, nanos: 1_500_000_000 }),
        ..record(1, None)
    };
    let s = leap.serialize();
    assert_eq!(s.conception_time.as_deref(), Some("2016-12-31T23:59:60.500+00:00"));
    assert_eq!(ChildInfo::deserialize(&s), Ok(leap));
    assert_eq!(Timestamp::new(1_483_228_800, 1_500_000_000), None);
    assert!(Timestamp::new(-1, 1_000_000_000).is_some());
    assert_eq!(Timestamp::new(-62_167_219_201, 0), None);
}

#[test]
fn stored_time_with_offset_names_same_instant() {
    let s = StoredChildInfo {
        conception_time: Some("2024-01-02T05:04:05+02:00".to_string()),
        gestation_time: 8_000_000,
        gestation: GestationType::Hours,
        number_of_childern: 1,
    };
    let r = ChildInfo::deserialize(&s).unwrap();
    assert_eq!(r.conception_time, Some(Timestamp { secs: 1_704_164_645, nanos: 0 }));
}

#[test]
fn stored_record_errors() {
    let bad_time = StoredChildInfo {
        conception_time: Some("yesterday".to_string()),
        gestation_time: 8_000_000,
        gestation: GestationType::Hours,
        number_of_childern: 1,
    };
    assert_eq!(ChildInfo::deserialize(&bad_time), Err(RecordError::BadConceptionTime));
    let too_many = StoredChildInfo { conception_time: None, number_of_childern: 13, ..bad_time.clone() };
    assert_eq!(ChildInfo::deserialize(&too_many), Err(RecordError::OutOfRange));
    let no_length = StoredChildInfo { conception_time: None, gestation_time: 0, number_of_childern: 0, ..bad_time };
    assert_eq!(ChildInfo::deserialize(&no_length), Err(RecordError::OutOfRange));
}

#[test]
fn save_store_keeps_one_record_per_avatar() {
    let mut store = SaveData::new();
    let a = "avtr_a".to_string();
    let b = "avtr_b".to_string();
    assert_eq!(store.get(&a), None);
    store.store_record(&a, record(1, Some(5)));
    store.store_record(&b, record(0, None));
    store.store_record(&a, record(2, Some(5)));
    assert_eq!(store.avatar_ids.len(), 2);
    assert_eq!(store.get(&a), Some(record(2, Some(5))));
    assert_eq!(store.get(&b), Some(record(0, None)));
}
