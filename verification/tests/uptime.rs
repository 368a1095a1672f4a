use conga::clock::Moment;
use conga::structs::AppState;
use conga::uptime::format_uptime;

#[test]
fn uptime_of_zero_seconds() {
    assert_eq!(format_uptime(0), "00 00:00:00");
}

#[test]
fn uptime_fields_are_two_wide() {
    assert_eq!(format_uptime(1), "00 00:00:01");
    assert_eq!(format_uptime(59), "00 00:00:59");
    assert_eq!(format_uptime(60), "00 00:01:00");
    assert_eq!(format_uptime(3_599), "00 00:59:59");
    assert_eq!(format_uptime(3_600), "00 01:00:00");
    assert_eq!(format_uptime(86_399), "00 23:59:59");
    assert_eq!(format_uptime(86_400), "01 00:00:00");
    assert_eq!(format_uptime(93_784), "01 02:03:04");
    assert_eq!(format_uptime(9 * 86_400 + 10 * 3_600 + 11 * 60 + 12), "09 10:11:12");
}

#[test]
fn uptime_days_grow_beyond_two_digits() {
    assert_eq!(format_uptime(99 * 86_400), "99 00:00:00");
    assert_eq!(format_uptime(100 * 86_400 + 1), "100 00:00:01");
    assert_eq!(format_uptime(12_345 * 86_400 + 23 * 3_600 + 59 * 60 + 59), "12345 23:59:59");
    assert_eq!(format_uptime(i64::MAX), "106751991167300 15:30:07");
}

#[test]
fn uptime_of_a_clock_set_back() {
    assert_eq!(format_uptime(-1), "00 00:00:-1");
    assert_eq!(format_uptime(-61), "00 00:-1:-1");
    assert_eq!(format_uptime(-93_784), "-1 -2:-3:-4");
    assert_eq!(format_uptime(-(12 * 86_400 + 13 * 3_600 + 14 * 60 + 15)), "-12 -13:-14:-15");
    assert_eq!(format_uptime(i64::MIN), "-106751991167300 -15:-30:-8");
}

#[test]
fn uptime_matches_std_formatting() {
    for seconds in [0i64, 5, 10, 61, 3_661, 86_400, 172_799, 1_000_000, -5, -10, -3_661, -90_000] {
        let days = seconds / 86_400;
        let hours = (seconds / 3_600) % 24;
        let minutes = (seconds / 60) % 60;
        let secs = seconds % 60;
        assert_eq!(
            format_uptime(seconds),
            format!("{days:02} {hours:02}:{minutes:02}:{secs:02}")
        );
    }
}

#[test]
fn moment_is_limited_to_its_range() {
    let range: i64 = 0x4_0000_0000_0000;
    assert!(Moment::new(0, 0).is_some());
    assert!(Moment::new(1_700_000_000, 999_999_999).is_some());
    assert!(Moment::new(range - 1, u32::MAX).is_some());
    assert!(Moment::new(-range + 1, 0).is_some());
    assert!(Moment::new(range, 0).is_none());
    assert!(Moment::new(-range, 0).is_none());
    assert!(Moment::new(i64::MAX, 0).is_none());
    assert!(Moment::new(i64::MIN, 0).is_none());
}

#[test]
fn moment_epoch_seconds() {
    assert_eq!(Moment::new(1_700_000_000, 5).unwrap().epoch_seconds(), 1_700_000_000);
    assert_eq!(Moment::new(-3, 5).unwrap().epoch_seconds(), -3);
    let range: i64 = 0x4_0000_0000_0000;
    assert_eq!(Moment::new(range - 1, 0).unwrap().epoch_seconds(), range - 1);
    assert_eq!(Moment::new(1 - range, 0).unwrap().epoch_seconds(), 1 - range);
}

#[test]
fn seconds_since_rounds_toward_zero() {
    let at = |secs: i64, nanos: u32| Moment::new(secs, nanos).unwrap();
    assert_eq!(at(10, 0).seconds_since(&at(10, 0)), 0);
    assert_eq!(at(11, 0).seconds_since(&at(10, 0)), 1);
    assert_eq!(at(11, 100_000_000).seconds_since(&at(10, 900_000_000)), 0);
    assert_eq!(at(11, 900_000_000).seconds_since(&at(10, 900_000_000)), 1);
    assert_eq!(at(12, 899_999_999).seconds_since(&at(10, 900_000_000)), 1);
    assert_eq!(at(10, 900_000_000).seconds_since(&at(11, 100_000_000)), 0);
    assert_eq!(at(10, 0).seconds_since(&at(11, 0)), -1);
    assert_eq!(at(10, 0).seconds_since(&at(11, 999_999_999)), -1);
    assert_eq!(at(10, 0).seconds_since(&at(12, 0)), -2);
    let range: i64 = 0x4_0000_0000_0000;
    assert_eq!(at(range - 1, 0).seconds_since(&at(-range + 1, 0)), 2 * range - 2);
    assert_eq!(at(-range + 1, 0).seconds_since(&at(range - 1, 0)), -(2 * range - 2));
}

#[test]
fn uptime_at_counts_from_the_start() {
    let state = AppState::started_at(Moment::new(1_000, 500_000_000).unwrap(), Vec::new());
    assert_eq!(state.uptime_at(&Moment::new(1_000, 500_000_000).unwrap()), "00 00:00:00");
    assert_eq!(state.uptime_at(&Moment::new(1_001, 499_999_999).unwrap()), "00 00:00:00");
    assert_eq!(state.uptime_at(&Moment::new(1_001, 500_000_000).unwrap()), "00 00:00:01");
    assert_eq!(state.uptime_at(&Moment::new(1_000 + 93_784, 600_000_000).unwrap()), "01 02:03:04");
}

#[test]
fn uptime_of_a_fresh_state_is_small() {
    let state = AppState::new(vec!["k1".to_string()]);
    assert_eq!(state.api_keys, vec!["k1".to_string()]);
    assert!(state.item_queue.is_empty());
    let text = state.uptime();
    assert!(text == "00 00:00:00" || text == "00 00:00:01", "{}", text);
}
