use screencast::error::AppError;
use screencast::utils::{format_duration, format_seconds, push_decimal};
use std::time::Duration;

#[test]
fn seconds_only() {
    assert_eq!(format_duration(Duration::from_secs(0)), "0s");
    assert_eq!(format_duration(Duration::from_secs(1)), "1s");
    assert_eq!(format_duration(Duration::from_secs(59)), "59s");
}

#[test]
fn minutes_and_seconds() {
    assert_eq!(format_duration(Duration::from_secs(60)), "1m 0s");
    assert_eq!(format_duration(Duration::from_secs(61)), "1m 1s");
    assert_eq!(format_duration(Duration::from_secs(3599)), "59m 59s");
}

#[test]
fn hours_minutes_and_seconds() {
    assert_eq!(format_duration(Duration::from_secs(3600)), "1h 0m 0s");
    assert_eq!(format_duration(Duration::from_secs(3661)), "1h 1m 1s");
    assert_eq!(format_duration(Duration::from_secs(86399)), "23h 59m 59s");
    assert_eq!(format_duration(Duration::from_secs(360000)), "100h 0m 0s");
}

#[test]
fn sub_second_part_is_dropped() {
    assert_eq!(format_duration(Duration::from_millis(999)), "0s");
    assert_eq!(format_duration(Duration::from_millis(59_999)), "59s");
    assert_eq!(format_duration(Duration::new(60, 999_999_999)), "1m 0s");
}

#[test]
fn longest_duration() {
    assert_eq!(format_duration(Duration::from_secs(u64::MAX)), "5124095576030431h 0m 15s");
    assert_eq!(format_seconds(u64::MAX), "5124095576030431h 0m 15s");
}

#[test]
fn format_seconds_matches_format_duration() {
    for seconds in [0u64, 9, 10, 59, 60, 600, 3599, 3600, 36_000, 123_456] {
        assert_eq!(format_seconds(seconds), format_duration(Duration::from_secs(seconds)));
    }
}

#[test]
fn push_decimal_appends_the_numeral() {
    let mut text = String::from("n=");
    push_decimal(&mut text, 0);
    assert_eq!(text, "n=0");
    push_decimal(&mut text, 907);
    assert_eq!(text, "n=0907");
    let mut text = String::new();
    push_decimal(&mut text, u64::MAX);
    assert_eq!(text, "18446744073709551615");
    let mut text = String::new();
    push_decimal(&mut text, 1000);
    assert_eq!(text, "1000");
}

#[test]
fn error_messages_name_the_part() {
    assert_eq!(AppError::CaptureError("no display".to_string()).message(), "Capture error: no display");
    assert_eq!(AppError::NetworkError("reset".to_string()).message(), "Network error: reset");
    assert_eq!(AppError::InputError("closed".to_string()).message(), "Input error: closed");
    assert_eq!(AppError::InputError(String::new()).message(), "Input error: ");
}

#[test]
fn io_error_becomes_a_network_error() {
    let io = std::io::Error::new(std::io::ErrorKind::Other, "socket gone");
    match AppError::from(io) {
        AppError::NetworkError(m) => assert_eq!(m, "socket gone"),
        other => panic!("expected a network error, got {:?}", other),
    }
}
