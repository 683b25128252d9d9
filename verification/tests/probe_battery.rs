use supervisor::battery::battery_percentage;
use supervisor::probe::{Probe, ProbeStep};

#[test]
fn probe_fresh_state() {
    let p = Probe::new();
    assert_eq!(p.failures, 0);
    assert!(p.live);
}

#[test]
fn probe_success_produces_reading() {
    let mut p = Probe::new();
    assert_eq!(p.step(true), ProbeStep::Produce);
    assert_eq!(p.failures, 0);
    assert!(p.live);
}

#[test]
fn probe_two_failures_are_silent() {
    let mut p = Probe::new();
    assert_eq!(p.step(false), ProbeStep::Retry);
    assert!(p.live);
    assert_eq!(p.failures, 1);
    assert_eq!(p.step(false), ProbeStep::Retry);
    assert!(p.live);
    assert_eq!(p.failures, 2);
}

#[test]
fn probe_third_failure_terminates() {
    let mut p = Probe::new();
    assert_eq!(p.step(false), ProbeStep::Retry);
    assert_eq!(p.step(false), ProbeStep::Retry);
    assert_eq!(p.step(false), ProbeStep::Fail);
    assert!(!p.live);
    assert_eq!(p.failures, 3);
}

#[test]
fn probe_success_resets_failure_counter() {
    // Two consecutive failures, then a success: the counter is back to
    // zero, so tripping the probe needs three more failures, not one.
    let mut p = Probe::new();
    assert_eq!(p.step(false), ProbeStep::Retry);
    assert_eq!(p.step(false), ProbeStep::Retry);
    assert_eq!(p.step(true), ProbeStep::Produce);
    assert_eq!(p.failures, 0);
    assert_eq!(p.step(false), ProbeStep::Retry);
    assert_eq!(p.step(false), ProbeStep::Retry);
    assert_eq!(p.step(false), ProbeStep::Fail);
    assert!(!p.live);
}

#[test]
fn battery_empty_threshold_maps_to_zero() {
    // Pack voltage of three cells at the empty threshold.
    assert_eq!(battery_percentage(3 * 3500), 0);
    // Anything below it as well.
    assert_eq!(battery_percentage(3 * 3400), 0);
    assert_eq!(battery_percentage(0), 0);
}

#[test]
fn battery_full_threshold_maps_to_hundred() {
    assert_eq!(battery_percentage(3 * 4050), 100);
    assert_eq!(battery_percentage(3 * 4100), 100);
    assert_eq!(battery_percentage(u16::MAX), 100);
}

#[test]
fn battery_midpoint_maps_linearly() {
    // A cell at 3775 mV sits halfway between 3500 and 4050.
    assert_eq!(battery_percentage(3 * 3775), 50);
    // A cell at 3610 mV: (110 * 100) / 550 = 20.
    assert_eq!(battery_percentage(3 * 3610), 20);
}

#[test]
fn battery_is_monotonic_over_samples() {
    let mut last = 0;
    let mut mv: u16 = 10000;
    while mv <= 13000 {
        let pct = battery_percentage(mv);
        assert!(pct >= last);
        last = pct;
        mv += 50;
    }
}
