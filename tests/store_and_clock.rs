use notifychecker::clock::{local_clock, ClockTime, StopTime};
use notifychecker::store::{SampleStore, Time};

fn sample(hour: u8, minute: u8, ms: u64) -> Time {
    Time { real_time: ClockTime::new(hour, minute).unwrap(), response_time: ms }
}

#[test]
fn same_timestamp_keeps_first_sample() {
    let mut store = SampleStore::new();
    assert!(store.record(sample(10, 5, 120)));
    assert!(!store.record(sample(10, 5, 80)));
    assert_eq!(store.len(), 1);
    assert_eq!(store.export(), vec![sample(10, 5, 120)]);
}

#[test]
fn export_twice_gives_same_sequence() {
    let mut store = SampleStore::new();
    store.record(sample(9, 0, 1));
    store.record(sample(9, 5, 2));
    store.record(sample(9, 10, 3));
    let first = store.export();
    let second = store.export();
    assert_eq!(first, second);
    assert_eq!(first, vec![sample(9, 0, 1), sample(9, 5, 2), sample(9, 10, 3)]);
}

#[test]
fn empty_store_exports_nothing() {
    let store = SampleStore::new();
    assert_eq!(store.len(), 0);
    assert!(store.export().is_empty());
}

#[test]
fn timestamp_is_two_digit_hour_and_minute() {
    assert_eq!(ClockTime::new(0, 0).unwrap().timestamp(), "00:00");
    assert_eq!(ClockTime::new(9, 5).unwrap().timestamp(), "09:05");
    assert_eq!(ClockTime::new(23, 59).unwrap().timestamp(), "23:59");
}

#[test]
fn clock_time_rejects_out_of_range() {
    assert!(ClockTime::new(24, 0).is_none());
    assert!(ClockTime::new(0, 60).is_none());
    assert_eq!(ClockTime::from_second_of_day(86399), ClockTime::new(23, 59).unwrap());
    assert_eq!(ClockTime::from_second_of_day(3725), ClockTime::new(1, 2).unwrap());
}

#[test]
fn local_clock_is_bangkok_time() {
    // 1970-01-01 00:00:00 UTC is 07:00 in Bangkok.
    assert_eq!(local_clock(0), ClockTime::new(7, 0));
    // 2023-11-14 22:13:20 UTC is 05:13 the next day in Bangkok.
    assert_eq!(local_clock(1_700_000_000), ClockTime::new(5, 13));
    assert_eq!(local_clock(i64::MAX), None);
}

#[test]
fn stop_time_parses_two_digit_fields() {
    assert_eq!(StopTime::parse("10", "30"), Some(StopTime { hour: 10, minute: 30 }));
    assert_eq!(StopTime::parse("24", "00"), Some(StopTime { hour: 24, minute: 0 }));
    assert_eq!(StopTime::parse("25", "00"), None);
    assert_eq!(StopTime::parse("10", "60"), None);
    assert_eq!(StopTime::parse("1", "30"), None);
    assert_eq!(StopTime::parse("10", "3x"), None);
    assert_eq!(StopTime::parse("", ""), None);
    assert_eq!(StopTime::parse("100", "00"), None);
}

#[test]
fn stop_time_matches_clock_exactly() {
    let stop = StopTime::parse("10", "30").unwrap();
    assert!(stop.reached(ClockTime::new(10, 30).unwrap()));
    assert!(!stop.reached(ClockTime::new(10, 31).unwrap()));
    assert!(!stop.reached(ClockTime::new(11, 30).unwrap()));
}
