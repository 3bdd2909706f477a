use realtime_notifs::delta::get_telemetry_delta;
use realtime_notifs::timebase::{
    day_number_from_civil, parse_date, parse_hhmm, parse_timestamp, weekday_of_day, Timestamp,
};

#[test]
fn parse_timestamp_known_value() {
    // 2024-01-01 is day 19723 since 1970-01-01.
    let t = parse_timestamp("2024-01-01T10:00:00").unwrap();
    assert_eq!(t.secs, 19723 * 86400 + 10 * 3600);
}

#[test]
fn parse_timestamp_matches_chrono() {
    let samples = [
        "1970-01-01T00:00:00",
        "2000-02-29T23:59:59",
        "2024-01-01T10:00:00",
        "2025-12-25T00:00:00",
        "2100-03-01T12:30:45",
    ];
    for s in samples {
        let t = parse_timestamp(s).unwrap();
        let c = chrono::NaiveDateTime::parse_from_str(s, "%Y-%m-%dT%H:%M:%S").unwrap();
        assert_eq!(t.secs as i64, c.and_utc().timestamp());
    }
}

#[test]
fn parse_timestamp_rejects_malformed() {
    assert!(parse_timestamp("").is_none());
    assert!(parse_timestamp("2024-01-01 10:00:00").is_none());
    assert!(parse_timestamp("2024-13-01T10:00:00").is_none());
    assert!(parse_timestamp("2024-02-30T10:00:00").is_none());
    assert!(parse_timestamp("2024-01-01T24:00:00").is_none());
    assert!(parse_timestamp("2023-02-29T00:00:00").is_none());
    assert!(parse_timestamp("2024-01-01T10:00").is_none());
}

#[test]
fn leap_year_day_accepted() {
    assert!(parse_timestamp("2024-02-29T00:00:00").is_some());
    assert!(parse_timestamp("2000-02-29T00:00:00").is_some());
    assert!(parse_timestamp("2100-02-29T00:00:00").is_none());
    assert!(parse_timestamp("1972-02-29T00:00:00").is_some());
}

#[test]
fn parse_hhmm_values() {
    assert_eq!(parse_hhmm("00:00"), Some(0));
    assert_eq!(parse_hhmm("23:59"), Some(23 * 3600 + 59 * 60));
    assert_eq!(parse_hhmm("08:30"), Some(8 * 3600 + 30 * 60));
    assert!(parse_hhmm("24:00").is_none());
    assert!(parse_hhmm("12:60").is_none());
    assert!(parse_hhmm("1230").is_none());
}

#[test]
fn weekday_of_known_days() {
    // 1970-01-01 was a Thursday (index 3, Monday being 0).
    assert_eq!(weekday_of_day(0), 3);
    // 2024-01-01 was a Monday.
    assert_eq!(weekday_of_day(day_number_from_civil(2024, 1, 1)), 0);
    // 2025-12-25 is a Thursday.
    assert_eq!(weekday_of_day(day_number_from_civil(2025, 12, 25)), 3);
}

#[test]
fn parse_date_known_value() {
    assert_eq!(parse_date("1970-01-01"), Some(0));
    assert_eq!(parse_date("2024-01-01"), Some(19723));
    assert!(parse_date("2024-1-01").is_none());
}

#[test]
fn delta_negative_step_clamps_to_zero() {
    let prev = Timestamp { secs: 1000 };
    let curr = Timestamp { secs: 900 };
    let (delta, disc, _) = get_telemetry_delta(&curr, Some(&prev), 180);
    assert_eq!(delta, 0);
    assert!(disc);
}

#[test]
fn delta_large_gap_clamps_to_cap() {
    let prev = Timestamp { secs: 1000 };
    let curr = Timestamp { secs: 5000 };
    let (delta, disc, _) = get_telemetry_delta(&curr, Some(&prev), 180);
    assert_eq!(delta, 180);
    assert!(disc);
}

#[test]
fn delta_no_previous_reading() {
    let curr = Timestamp { secs: 5000 };
    let (delta, disc, new_day) = get_telemetry_delta(&curr, None, 180);
    assert_eq!(delta, 0);
    assert!(disc);
    assert!(new_day);
}

#[test]
fn delta_same_day_and_rollover() {
    let prev = Timestamp { secs: 19723 * 86400 + 23 * 3600 };
    let same_day = Timestamp { secs: 19723 * 86400 + 23 * 3600 + 60 };
    let next_day = Timestamp { secs: 19724 * 86400 + 60 };
    let (d1, disc1, nd1) = get_telemetry_delta(&same_day, Some(&prev), 180);
    assert_eq!(d1, 60);
    assert!(!disc1);
    assert!(!nd1);
    let (_, _, nd2) = get_telemetry_delta(&next_day, Some(&prev), 180);
    assert!(nd2);
}
