use rsfb::harvest::{collectable, elapsed_secs, enough, is_collect_time};

const SEC: i64 = 1_000_000_000;

#[test]
fn elapsed_whole_seconds() {
    assert_eq!(elapsed_secs(0, 5 * SEC + 999_999_999), 5);
    assert_eq!(elapsed_secs(10 * SEC, 3 * SEC), 0);
    assert_eq!(elapsed_secs(7, 7), 0);
    assert_eq!(elapsed_secs(i64::MIN, i64::MAX), 18_446_744_073);
}

#[test]
fn collectable_without_update_is_last_reported() {
    assert_eq!(collectable(42, 1000, 100, None, 0, false), 42);
}

#[test]
fn collectable_grows_per_hour_up_to_limit() {
    // Two hours at 30 per hour from 10: 70.
    assert_eq!(collectable(10, 30, 1000, Some(0), 2 * 3600 * SEC, false), 70);
    // Capped at the limit.
    assert_eq!(collectable(10, 30, 50, Some(0), 2 * 3600 * SEC, false), 50);
    // No limit: no cap.
    assert_eq!(collectable(10, 30, 0, Some(0), 2 * 3600 * SEC, false), 70);
    // Half an hour at 30 per hour: 15.
    assert_eq!(collectable(0, 30, 0, Some(0), 1800 * SEC, false), 15);
}

#[test]
fn slow_production_is_a_twenty_fourth() {
    // 48 hours at 3600 per hour makes 172800; slow makes 7200.
    assert_eq!(collectable(0, 3600, 0, Some(0), 48 * 3600 * SEC, true), 7200);
}

#[test]
fn collect_time_rules() {
    let min = 60 * SEC;
    assert!(is_collect_time(None, 0, 30));
    // Within two minutes after the update.
    assert!(is_collect_time(Some(0), 119 * SEC, 30));
    // Between two minutes and the interval: not yet.
    assert!(!is_collect_time(Some(0), 2 * min, 30));
    assert!(!is_collect_time(Some(0), 29 * min, 30));
    // From the interval on.
    assert!(is_collect_time(Some(0), 30 * min, 30));
    assert!(is_collect_time(Some(0), 31 * min, 30));
}

#[test]
fn enough_is_at_least_the_ratio() {
    // 500 thousandths of 1000 is 500.
    assert!(enough(500, 1000, 500));
    assert!(!enough(499, 1000, 500));
    // Rounding: 333 thousandths of 10 is 3.33.
    assert!(!enough(3, 10, 333));
    assert!(enough(4, 10, 333));
    assert!(enough(0, 0, 500));
}
