use slq::text::chars_of;
use slq::wait::{
    check_timestamp_shape, clock_time, compute_wait, format_time, human, string_to_date,
    wait_for, wait_time, wait_until, LocalTimestamp, TimeParseError, WaitResult,
    HOME_UTC_OFFSET_SECONDS, TIMESTAMP_FORMAT,
};

/// 2025-11-02T11:14:02 read as UTC, in seconds since the epoch.
const EXPECTED_AS_UTC: i64 = 1_762_082_042;

#[test]
fn a_timestamp_reads_as_wall_clock_seconds_hour_and_minute() {
    let reading = string_to_date("2025-11-02T11:14:02");
    assert_eq!(
        reading,
        Some(LocalTimestamp { wall_seconds: EXPECTED_AS_UTC, hour: 11, minute: 14 })
    );
    assert_eq!(
        string_to_date("1970-01-01T00:00:00"),
        Some(LocalTimestamp { wall_seconds: 0, hour: 0, minute: 0 })
    );
    assert_eq!(
        string_to_date("2024-02-29T23:59:59"),
        Some(LocalTimestamp { wall_seconds: 1_709_251_199, hour: 23, minute: 59 })
    );
}

#[test]
fn timestamps_off_the_pattern_are_rejected() {
    for text in [
        "",
        "garbage",
        "2025-11-02",
        "11:14:02",
        "2025-11-02 11:14:02",
        "2025-11-02T11:14",
        "2025-11-02T11:14:02Z",
        "2025-11-02T11:14:02+01:00",
        "2025-11-02T11:14:02.500",
        "2025-11-02T11:14:0x",
        "2025-1-2T11:14:02",
        "+2025-11-02T11:14:02",
        "-2025-11-02T11:14:02",
        " 2025-11-02T11:14:02",
        "2025/11/02T11:14:02",
        "2025-11-02t11:14:02",
    ] {
        assert_eq!(string_to_date(text), None, "{}", text);
    }
}

#[test]
fn timestamps_that_name_no_real_moment_are_rejected() {
    for text in [
        "2025-13-02T11:14:02",
        "2025-00-02T11:14:02",
        "2025-02-30T11:14:02",
        "2025-02-29T11:14:02",
        "2025-11-00T11:14:02",
        "2025-11-02T24:00:00",
        "2025-11-02T11:60:02",
        "2025-11-02T11:14:60",
    ] {
        assert_eq!(string_to_date(text), None, "{}", text);
    }
}

#[test]
fn the_shape_check_looks_at_every_position() {
    assert!(check_timestamp_shape(&chars_of("2025-11-02T11:14:02")));
    assert!(check_timestamp_shape(&chars_of("0000-00-00T99:99:99")));
    assert!(!check_timestamp_shape(&chars_of("2025-11-02T11:14:0")));
    assert!(!check_timestamp_shape(&chars_of("2025-11-02T11:14:022")));
    let good: Vec<char> = chars_of("2025-11-02T11:14:02");
    for i in 0..good.len() {
        let mut bad = good.clone();
        bad[i] = 'x';
        assert!(!check_timestamp_shape(&bad), "position {}", i);
    }
}

#[test]
fn the_format_is_the_fixed_pattern() {
    assert_eq!(TIMESTAMP_FORMAT, "[year]-[month]-[day]T[hour]:[minute]:[second]");
    assert_eq!(HOME_UTC_OFFSET_SECONDS, 3600);
}

#[test]
fn human_writes_seconds_below_a_minute() {
    assert_eq!(human(0), "0s");
    assert_eq!(human(1), "1s");
    assert_eq!(human(59), "59s");
}

#[test]
fn human_writes_whole_minutes_below_an_hour() {
    assert_eq!(human(60), "1m");
    assert_eq!(human(90), "1m");
    assert_eq!(human(119), "1m");
    assert_eq!(human(120), "2m");
    assert_eq!(human(3599), "59m");
}

#[test]
fn human_writes_hours_and_minutes_from_an_hour_on() {
    assert_eq!(human(3600), "1h 0m");
    assert_eq!(human(3661), "1h 1m");
    assert_eq!(human(7199), "1h 59m");
    assert_eq!(human(86_400), "24h 0m");
    assert_eq!(human(360_000 + 59 * 60 + 59), "100h 59m");
}

#[test]
fn human_takes_the_largest_duration() {
    assert_eq!(human(u128::MAX), "94522879700260684295381835397713392h 4m");
}

#[test]
fn wait_is_counted_on_the_home_clock() {
    let reading = LocalTimestamp { wall_seconds: EXPECTED_AS_UTC, hour: 11, minute: 14 };
    assert_eq!(wait_until(&reading, EXPECTED_AS_UTC - 3600 - 90, 3600), "1m");
    assert_eq!(wait_until(&reading, EXPECTED_AS_UTC - 3600 - 3661, 3600), "1h 1m");
    assert_eq!(wait_until(&reading, EXPECTED_AS_UTC - 3600 - 1, 3600), "1s");
    assert_eq!(wait_until(&reading, EXPECTED_AS_UTC - 90, 0), "1m");
    assert_eq!(wait_until(&reading, EXPECTED_AS_UTC - 90, 3600), "now");
    assert_eq!(wait_until(&reading, EXPECTED_AS_UTC - 90, 7200), "now");
    assert_eq!(wait_until(&reading, EXPECTED_AS_UTC - 90, -3600), "1h 1m");
}

#[test]
fn a_moment_that_has_come_or_passed_shows_as_now() {
    let reading = LocalTimestamp { wall_seconds: EXPECTED_AS_UTC, hour: 11, minute: 14 };
    let arrival = EXPECTED_AS_UTC - 3600;
    assert_eq!(wait_until(&reading, arrival, 3600), "now");
    assert_eq!(wait_until(&reading, arrival + 1, 3600), "now");
    assert_eq!(wait_until(&reading, arrival + 86_400, 3600), "now");
    assert_eq!(wait_until(&reading, i64::MAX, 3600), "now");
    assert_eq!(wait_time("2025-11-02T11:14:02", arrival, 3600), "now");
    assert_eq!(wait_time("2025-11-02T11:14:02", arrival + 500, 3600), "now");
}

#[test]
fn extreme_instants_do_not_overflow() {
    let reading = LocalTimestamp { wall_seconds: i64::MAX, hour: 0, minute: 0 };
    assert_eq!(wait_until(&reading, i64::MIN, i32::MIN), "5124095576626954h 14m");
    let reading = LocalTimestamp { wall_seconds: i64::MIN, hour: 0, minute: 0 };
    assert_eq!(wait_until(&reading, i64::MAX, i32::MAX), "now");
}

#[test]
fn format_time_pads_both_fields() {
    assert_eq!(format_time(&LocalTimestamp { wall_seconds: 0, hour: 0, minute: 0 }), "00:00");
    assert_eq!(format_time(&LocalTimestamp { wall_seconds: 0, hour: 9, minute: 5 }), "09:05");
    assert_eq!(format_time(&LocalTimestamp { wall_seconds: 0, hour: 23, minute: 59 }), "23:59");
}

#[test]
fn compute_wait_gives_wait_and_clock() {
    let now = EXPECTED_AS_UTC - 3600 - 90;
    assert_eq!(
        compute_wait("2025-11-02T11:14:02", now, 3600),
        Ok(WaitResult { wait: "1m".to_string(), clock: "11:14".to_string() })
    );
    assert_eq!(
        compute_wait("2025-11-02T11:14:02", now - 3571, 3600),
        Ok(WaitResult { wait: "1h 1m".to_string(), clock: "11:14".to_string() })
    );
    assert_eq!(
        compute_wait("2025-11-02T00:30:00", 1_762_043_400 - 7200, 3600),
        Ok(WaitResult { wait: "1h 0m".to_string(), clock: "00:30".to_string() })
    );
}

#[test]
fn compute_wait_returns_the_rejected_text() {
    assert_eq!(
        compute_wait("tomorrow", 0, 3600),
        Err(TimeParseError { rejected: "tomorrow".to_string() })
    );
    assert_eq!(
        compute_wait("2025-02-30T11:14:02", 0, 3600),
        Err(TimeParseError { rejected: "2025-02-30T11:14:02".to_string() })
    );
}

#[test]
fn wait_for_follows_the_reading() {
    let reading = LocalTimestamp { wall_seconds: 1000, hour: 0, minute: 16 };
    assert_eq!(
        wait_for("x", Some(reading), 910, 0),
        Ok(WaitResult { wait: "1m".to_string(), clock: "00:16".to_string() })
    );
    assert_eq!(wait_for("x", None, 910, 0), Err(TimeParseError { rejected: "x".to_string() }));
}

#[test]
fn unreadable_timestamps_show_as_unknown() {
    assert_eq!(wait_time("soon", 0, 3600), "unknown");
    assert_eq!(clock_time("soon"), "unknown");
    assert_eq!(clock_time("2025-11-02T11:14:02"), "11:14");
    assert_eq!(wait_time("2025-11-02T11:14:02", EXPECTED_AS_UTC - 3600 - 59, 3600), "59s");
}
