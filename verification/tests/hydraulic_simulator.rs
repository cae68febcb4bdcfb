use clepsydra::hydraulic_simulator::{KeyedValues, SimulatorLedger};

#[test]
fn keyed_values_read_back_what_was_set() {
    let mut v = KeyedValues::new();
    assert_eq!(v.get("KD1"), None);
    v.set("KD1", 5);
    v.set("KD2", -7);
    v.set("KD1", 9);
    assert_eq!(v.get("KD1"), Some(9));
    assert_eq!(v.get("KD2"), Some(-7));
    assert_eq!(v.get("KD3"), None);
}

#[test]
fn elapsed_time_counts_from_the_previous_reading() {
    let mut l = SimulatorLedger::new();
    // A first reading counts as just now, so the minimum applies.
    assert_eq!(l.elapsed("KD1", 10_000, 1_000), Some(1_000));
    assert_eq!(l.elapsed("KD1", 13_500, 1_000), Some(3_500));
    assert_eq!(l.elapsed("KD1", 13_700, 1_000), Some(1_000));
    assert_eq!(l.elapsed("KD2", 20_000, 500), Some(500));
    assert_eq!(l.elapsed("KD2", 20_000 + i64::MAX / 2, 500), Some(i64::MAX / 2));
}

#[test]
fn errors_accumulate_by_vessel() {
    let mut l = SimulatorLedger::new();
    // -4% over 2.5 s: -0.1 s.
    assert_eq!(l.accumulate("KD1", -4_000_000, 2_500), Some(-100_000));
    // +2% over 1 s: +0.02 s.
    assert_eq!(l.accumulate("KD1", 2_000_000, 1_000), Some(-80_000));
    assert_eq!(l.accumulate("KD2", 1_000_000, 1_000), Some(10_000));
    assert_eq!(l.daily_error("KD1"), -80_000);
    assert_eq!(l.daily_error("KD2"), 10_000);
    assert_eq!(l.daily_error("KD3"), 0);
}

#[test]
fn unrepresentable_errors_change_nothing() {
    let mut l = SimulatorLedger::new();
    l.accumulate("KD1", 1_000_000, 1_000);
    assert_eq!(l.accumulate("KD1", i64::MAX, i64::MAX), None);
    assert_eq!(l.daily_error("KD1"), 10_000);
}
