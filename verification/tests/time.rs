use fusabi_stdlib_ext::error::HostErrorKind;
use fusabi_stdlib_ext::time::duration::{
    days_to_seconds, hours_to_seconds, millis_to_seconds, minutes_to_seconds, seconds_to_millis,
    Duration,
};
use fusabi_stdlib_ext::time::{format_time, format_timestamp, now, now_millis, parse_time, sleep};
use fusabi_stdlib_ext::value::Value;

fn clock() -> Option<Duration> {
    match std::time::SystemTime::now().duration_since(std::time::UNIX_EPOCH) {
        Ok(d) => Some(Duration::new(d.as_secs(), d.subsec_nanos())),
        Err(_) => None,
    }
}

#[test]
fn test_now() {
    let result = now(clock());

    let timestamp = result.as_int().unwrap();
    assert!(timestamp > 0);
    assert!(timestamp > 1700000000); // After Nov 2023
}

#[test]
fn test_now_millis() {
    let result = now_millis(clock());

    let timestamp = result.as_int().unwrap();
    assert!(timestamp > 0);
    assert!(timestamp > 1700000000000); // After Nov 2023 in millis
}

#[test]
fn test_format_time() {
    // Test with a known timestamp (Jan 1, 2024 00:00:00 UTC)
    let result = format_time(&[Value::Int(1704067200)]).unwrap();
    let formatted = result.as_str().unwrap();

    assert!(formatted.contains("2024"));
}

#[test]
fn test_sleep_validation() {
    // Negative sleep should fail
    let result = sleep(&[Value::Int(-100)]);
    assert!(result.is_err());
}

#[test]
fn test_duration_helpers() {
    assert_eq!(seconds_to_millis(5), 5000);
    assert_eq!(millis_to_seconds(5000), 5);
    assert_eq!(minutes_to_seconds(2), 120);
    assert_eq!(hours_to_seconds(1), 3600);
    assert_eq!(days_to_seconds(1), 86400);
}

#[test]
fn test_time_now() {
    let result = now(clock());
    let timestamp = result.as_int().unwrap();
    assert!(timestamp > 1700000000); // After Nov 2023
}

#[test]
fn test_time_now_millis() {
    let result = now_millis(clock());
    let timestamp = result.as_int().unwrap();
    assert!(timestamp > 1700000000000); // After Nov 2023 in millis
}

#[test]
fn test_time_format() {
    let result = format_time(&[Value::Int(1704067200)]); // Jan 1, 2024
    assert!(result.is_ok());
    assert!(result.unwrap().as_str().unwrap().contains("2024"));
}

#[test]
fn now_takes_the_reading_of_the_clock() {
    assert_eq!(now(Some(Duration::from_secs(1704067200))), Value::Int(1704067200));
    assert_eq!(now(None), Value::Int(0));
    assert_eq!(now_millis(Some(Duration::new(12, 345_678_901))), Value::Int(12345));
    assert_eq!(now_millis(None), Value::Int(0));
    // beyond the signed range the number wraps around
    assert_eq!(now(Some(Duration::from_secs(u64::MAX))), Value::Int(-1));
}

#[test]
fn format_timestamp_is_exact() {
    assert_eq!(format_timestamp(0, ""), "1970-01-01 00:00:00");
    assert_eq!(format_timestamp(1704067200, "%Y"), "2024-01-14 00:00:00");
    assert_eq!(format_timestamp(86399, "x"), "1970-01-01 23:59:59");
    assert_eq!(format_timestamp(86400 * 364 + 3661, "x"), "1970-13-05 01:01:01");
    assert_eq!(
        format_time(&[Value::Int(59), Value::String("%H".to_string())]).unwrap(),
        Value::String("1970-01-01 00:00:59".to_string())
    );
    // a negative timestamp is read as the unsigned number with the same bits
    let secs = (-1i64) as u64;
    let days = secs / 86400;
    let expected = format!(
        "{:04}-{:02}-{:02} {:02}:{:02}:{:02}",
        1970 + days / 365,
        (days % 365) / 30 + 1,
        (days % 365) % 30 + 1,
        (secs % 86400) / 3600,
        (secs % 3600) / 60,
        secs % 60
    );
    assert_eq!(format_timestamp(-1, "x"), expected);
}

#[test]
fn sleep_asks_for_the_span() {
    assert_eq!(sleep(&[Value::Int(1500)]).unwrap(), Duration::from_millis(1500));
    assert_eq!(sleep(&[Value::Int(0)]).unwrap(), Duration::from_secs(0));
    let e = sleep(&[]).unwrap_err();
    assert_eq!(e.kind, HostErrorKind::HostFunction);
    assert_eq!(e.message, "time.sleep: missing milliseconds argument");
    let e = sleep(&[Value::String("1".to_string())]).unwrap_err();
    assert_eq!(e.message, "time.sleep: missing milliseconds argument");
    let e = sleep(&[Value::Int(-1)]).unwrap_err();
    assert_eq!(e.message, "time.sleep: milliseconds must be non-negative");
}

#[test]
fn format_and_parse_report_missing_arguments() {
    assert_eq!(
        format_time(&[]).unwrap_err().message,
        "time.format: missing timestamp argument"
    );
    assert_eq!(
        parse_time(&[]).unwrap_err().message,
        "time.parse: missing time string argument"
    );
    assert_eq!(
        parse_time(&[Value::String("2024-01-01".to_string())]).unwrap_err().message,
        "time.parse: parsing '2024-01-01' not yet implemented"
    );
}

#[test]
fn duration_parts_and_order() {
    let d = Duration::from_millis(2500);
    assert_eq!(d.as_secs(), 2);
    assert_eq!(d.subsec_nanos(), 500_000_000);
    assert_eq!(d.as_millis(), 2500);
    assert_eq!(Duration::from_nanos(1_000_000_001), Duration::new(1, 1));
    // whole seconds among the nanoseconds are carried over
    assert_eq!(Duration::new(1, 2_500_000_000), Duration::from_millis(3500));
    assert_eq!(Duration::new(0, u32::MAX), Duration::from_nanos(4_294_967_295));
    assert!(Duration::from_secs(1).at_most(&Duration::from_millis(1001)));
    assert!(!Duration::from_millis(1001).at_most(&Duration::from_secs(1)));
    assert!(Duration::from_secs(1).at_most(&Duration::from_secs(1)));
    assert_eq!(Duration::from_secs(3).min(Duration::from_secs(2)), Duration::from_secs(2));
    assert_eq!(Duration::from_secs(2).min(Duration::from_secs(3)), Duration::from_secs(2));
    assert_eq!(Duration::from_millis(1500).debug_text(), "1.5s");
}

#[test]
fn unit_conversions_round_toward_zero() {
    assert_eq!(millis_to_seconds(1999), 1);
    assert_eq!(millis_to_seconds(-1999), -1);
    assert_eq!(millis_to_seconds(-1), 0);
    assert_eq!(millis_to_seconds(i64::MIN), i64::MIN / 1000);
    assert_eq!(millis_to_seconds(i64::MAX), i64::MAX / 1000);
    assert_eq!(seconds_to_millis(-2), -2000);
    assert_eq!(days_to_seconds(-1), -86400);
}
