use std::time::Duration;

use air_sensors::backoff::Backoff;
use air_sensors::tasks::{beat_is_due, FallDetector};
use air_sensors::types::{Labeled, Tick, Timestamped};

#[test]
fn backoff_grows_up_to_the_ceiling() {
    let mut backoff = Backoff::new(Duration::from_millis(500), Duration::from_secs(5 * 60));
    assert_eq!(backoff.get(), Duration::from_millis(500));
    backoff.multiply(2);
    assert_eq!(backoff.get(), Duration::from_secs(1));
    for _ in 0..20 {
        backoff.multiply(2);
    }
    assert_eq!(backoff.get(), Duration::from_secs(300));
    backoff.reset();
    assert_eq!(backoff.get(), Duration::from_millis(500));
}

#[test]
fn backoff_at_exact_ceiling() {
    let mut backoff = Backoff::new(Duration::from_secs(150), Duration::from_secs(300));
    backoff.multiply(2);
    assert_eq!(backoff.get(), Duration::from_secs(300));
    backoff.multiply(1);
    assert_eq!(backoff.get(), Duration::from_secs(300));
}

#[test]
fn fall_needs_four_low_readings_in_a_row() {
    let mut d = FallDetector::new();
    assert!(!d.observe(true));
    assert!(!d.observe(true));
    assert!(!d.observe(true));
    assert!(!d.observe(false));
    assert_eq!(d.low_readings(), 0);
    assert!(!d.observe(true));
    assert!(!d.observe(true));
    assert!(!d.observe(true));
    assert!(d.observe(true));
    assert!(d.observe(true));
    assert!(!d.observe(false));
}

#[test]
fn beats_every_n() {
    let due: Vec<usize> = (0..12).filter(|t| beat_is_due(*t, 3)).collect();
    assert_eq!(due, vec![0, 3, 6, 9]);
    assert!(beat_is_due(7, 1));
}

#[test]
fn stamped_and_labeled() {
    let tick = Tick { unix_time: Duration::from_secs(12) };
    let t = Timestamped::new(tick, Labeled::new(1, 42u32));
    assert_eq!(t.timestamp.unix_time, Duration::from_secs(12));
    assert_eq!(t.data.label, 1);
    assert_eq!(t.data.data, 42);
}

#[test]
fn fall_reported_with_fourth_low_reading_in_a_row() {
    let readings = [true, true, false, true, true, true, true, false, true];
    let mut d = FallDetector::new();
    let reports: Vec<bool> = readings.iter().map(|b| d.observe(*b)).collect();
    assert_eq!(
        reports,
        vec![false, false, false, false, false, false, true, false, false]
    );
}
