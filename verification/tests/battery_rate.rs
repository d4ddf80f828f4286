use headsetcontrol_tray::battery_rate::{remaining_percent, BatteryRateTracker, RateSample};

const SEC: u64 = 1_000_000_000;

#[test]
fn first_reading_only_sets_the_baseline() {
    let mut t = BatteryRateTracker::new();
    assert_eq!(t.update(80, false, 0), None);
}

#[test]
fn level_change_yields_a_sample() {
    let mut t = BatteryRateTracker::new();
    assert_eq!(t.update(80, false, 0), None);
    assert_eq!(t.update(80, false, 30 * SEC), None);
    assert_eq!(
        t.update(78, false, 120 * SEC),
        Some(RateSample { charging: false, elapsed_nanos: 120 * SEC, percent_delta: 2 })
    );
    // The next sample measures from the last change, not from the last reading.
    assert_eq!(
        t.update(77, false, 180 * SEC),
        Some(RateSample { charging: false, elapsed_nanos: 60 * SEC, percent_delta: 1 })
    );
}

#[test]
fn charging_flip_resets_the_baseline() {
    let mut t = BatteryRateTracker::new();
    assert_eq!(t.update(50, false, 0), None);
    assert_eq!(t.update(51, true, 10 * SEC), None);
    assert_eq!(
        t.update(55, true, 50 * SEC),
        Some(RateSample { charging: true, elapsed_nanos: 40 * SEC, percent_delta: 4 })
    );
}

#[test]
fn clock_going_backwards_counts_as_no_time() {
    let mut t = BatteryRateTracker::new();
    assert_eq!(t.update(50, false, 100), None);
    assert_eq!(t.update(49, false, 50), Some(RateSample { charging: false, elapsed_nanos: 0, percent_delta: 1 }));
}

#[test]
fn extreme_levels_measure_exactly() {
    let mut t = BatteryRateTracker::new();
    assert_eq!(t.update(i32::MIN, false, 0), None);
    assert_eq!(
        t.update(i32::MAX, false, 1),
        Some(RateSample { charging: false, elapsed_nanos: 1, percent_delta: u32::MAX })
    );
}

#[test]
fn remaining_percent_values() {
    assert_eq!(remaining_percent(30, false), 30);
    assert_eq!(remaining_percent(30, true), 70);
    assert_eq!(remaining_percent(100, true), 0);
    assert_eq!(remaining_percent(120, true), 0);
    assert_eq!(remaining_percent(0, false), 0);
    assert_eq!(remaining_percent(-5, false), 0);
    assert_eq!(remaining_percent(i32::MIN, true), 2_147_483_748);
}
