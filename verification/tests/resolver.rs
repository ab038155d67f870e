use std::time::{SystemTime, UNIX_EPOCH};
use uptime::resolver::{
    elapsed_since_boot, fallback, get_uptime, read_counter, resolve_uptime, UPTIME_UNKNOWN,
};

#[test]
fn the_counter_wins_over_the_boot_time() {
    assert_eq!(resolve_uptime(Some("12345.67"), None, None, 1_700_000_000), 1234567);
    assert_eq!(
        resolve_uptime(Some("12345.67"), Some(1_600_000_000), None, 1_700_000_000),
        1234567
    );
    assert_eq!(
        resolve_uptime(Some("12345.67 99.0\n"), Some(1_600_000_000), Some(55), 1_700_000_000),
        1234567
    );
    assert_eq!(get_uptime(Some("12345.67"), None, None), 1234567);
    assert_eq!(get_uptime(Some("12345.67"), Some(1_600_000_000), Some(9)), 1234567);
}

#[test]
fn without_a_counter_the_boot_time_is_used() {
    let t: i64 = 1_600_000_000;
    assert_eq!(resolve_uptime(None, Some(t), None, t + 3661), 366100);
    assert_eq!(resolve_uptime(Some("no number"), Some(t), None, t + 3661), 366100);
    assert_eq!(resolve_uptime(Some(""), Some(t), Some(77), t + 3661), 366100);
}

#[test]
fn the_boot_time_is_held_against_the_clock() {
    let now = SystemTime::now().duration_since(UNIX_EPOCH).unwrap().as_secs() as i64;
    let uptime = get_uptime(None, Some(now - 3661), None);
    assert!(uptime >= 366100 - 100);
    assert!(uptime <= 366100 + 100);
    assert_eq!(uptime % 100, 0);
}

#[test]
fn without_any_source_the_uptime_is_unknown() {
    assert_eq!(resolve_uptime(None, None, None, 1_700_000_000), -1);
    assert_eq!(get_uptime(None, None, None), -1);
    assert_eq!(get_uptime(Some("garbage"), None, None), UPTIME_UNKNOWN);
    assert_eq!(UPTIME_UNKNOWN, -1);
}

#[test]
fn the_tick_count_comes_last() {
    assert_eq!(resolve_uptime(None, None, Some(123456), 1_700_000_000), 123456);
    assert_eq!(get_uptime(None, None, Some(123456)), 123456);
    assert_eq!(resolve_uptime(None, Some(10), Some(123456), 20), 1000);
    assert_eq!(fallback(None, Some(5), 0), 5);
    assert_eq!(fallback(None, None, 0), -1);
}

#[test]
fn a_clock_before_the_boot_gives_a_negative_uptime() {
    assert_eq!(resolve_uptime(None, Some(2000), None, 1000), -100000);
    assert_eq!(elapsed_since_boot(2000, 1000), Some(-100000));
}

#[test]
fn a_negative_counter_is_handed_on() {
    assert_eq!(resolve_uptime(Some("-5.00"), Some(1), Some(2), 3), -500);
}

#[test]
fn elapsed_time_is_in_hundredths() {
    assert_eq!(elapsed_since_boot(0, 0), Some(0));
    assert_eq!(elapsed_since_boot(100, 101), Some(100));
    assert_eq!(elapsed_since_boot(1_600_000_000, 1_600_003_661), Some(366100));
}

#[test]
fn elapsed_time_beyond_the_range_is_nothing() {
    assert_eq!(elapsed_since_boot(i64::MIN, i64::MAX), None);
    assert_eq!(elapsed_since_boot(0, i64::MAX), None);
    assert_eq!(elapsed_since_boot(0, i64::MAX / 100), Some(i64::MAX / 100 * 100));
    assert_eq!(elapsed_since_boot(0, i64::MAX / 100 + 1), None);
    assert_eq!(elapsed_since_boot(1, i64::MIN), None);
    assert_eq!(resolve_uptime(None, Some(0), None, i64::MAX), -1);
    assert_eq!(resolve_uptime(None, Some(0), Some(4), i64::MAX), -1);
}

#[test]
fn a_missing_counter_reads_as_nothing() {
    assert_eq!(read_counter(None), None);
    assert_eq!(read_counter(Some("7.25")), Some(725));
    assert_eq!(read_counter(Some("seven")), None);
}
