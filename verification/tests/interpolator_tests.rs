use evdotool::interpolator::Interpolator;
use evdotool::time_util::Time;

// A stored velocity of `v` means `v` sub-units per microsecond with
// SCALE = 1_000_000 sub-units per unit, i.e. `v` whole units per second.

#[test]
fn fixed_velocity_is_exact_over_even_ticks() {
    let mut interp = Interpolator::new(Time::from_micros(0));
    interp.update(Time::from_micros(0), 3);
    // After half a second: 1.5 units wanted, 1 emitted, 0.5 carried.
    assert_eq!(interp.interpolate(Time::from_micros(500_000)), 1);
    // After the full second: the carry tops the total up to exactly 3.
    assert_eq!(interp.interpolate(Time::from_micros(1_000_000)), 2);
}

#[test]
fn fixed_velocity_is_exact_over_uneven_ticks() {
    let mut interp = Interpolator::new(Time::from_micros(0));
    interp.update(Time::from_micros(0), 7);
    let mut sum: i64 = 0;
    sum += interp.interpolate(Time::from_micros(100_000));
    sum += interp.interpolate(Time::from_micros(333_333));
    sum += interp.interpolate(Time::from_micros(1_000_000));
    // 7 units per second over exactly one second: drift under one unit,
    // and with these timestamps the total lands exactly.
    assert_eq!(sum, 7);
}

#[test]
fn drift_stays_under_one_unit() {
    let mut interp = Interpolator::new(Time::from_micros(0));
    interp.update(Time::from_micros(0), 9);
    let ticks: Vec<i64> = vec![8_000, 16_000, 24_000, 33_000, 41_000, 50_000, 58_333];
    let mut sum: i64 = 0;
    for t in &ticks {
        sum += interp.interpolate(Time::from_micros(*t));
    }
    // Exact movement in sub-units over the whole interval.
    let exact: i64 = 9 * 58_333;
    let emitted: i64 = sum * 1_000_000;
    assert!((exact - emitted).abs() < 1_000_000);
}

#[test]
fn negative_velocity_truncates_toward_zero() {
    let mut interp = Interpolator::new(Time::from_micros(0));
    interp.update(Time::from_micros(0), -3);
    // -1.5 units wanted: -1 emitted, -0.5 carried.
    assert_eq!(interp.interpolate(Time::from_micros(500_000)), -1);
    assert_eq!(interp.interpolate(Time::from_micros(1_000_000)), -2);
}

#[test]
fn zero_velocity_emits_zero() {
    let mut interp = Interpolator::new(Time::from_micros(0));
    interp.update(Time::from_micros(0), 5);
    assert_eq!(interp.interpolate(Time::from_micros(300_000)), 1);
    interp.update(Time::from_micros(300_000), 0);
    assert_eq!(interp.interpolate(Time::from_micros(600_000)), 0);
    assert_eq!(interp.interpolate(Time::from_micros(900_000)), 0);
}

#[test]
fn update_alone_emits_nothing_until_interpolate() {
    let mut interp = Interpolator::new(Time::from_micros(0));
    interp.update(Time::from_micros(0), 1_000);
    // A velocity change produces no output by itself; the next step
    // integrates over the whole elapsed interval.
    assert_eq!(interp.interpolate(Time::from_micros(10_000)), 10);
}

#[test]
fn time_since_and_back_by() {
    let a = Time::from_micros(10_000);
    let b = Time::from_micros(4_000);
    assert_eq!(a.since(b), 6_000);
    assert_eq!(a.back_by(4_000), Time::from_micros(6_000));
}

#[test]
fn time_from_clock_parts() {
    assert_eq!(Time::from_parts(2, 500_000_000), Time::from_micros(2_500_000));
    assert_eq!(Time::from_parts(0, 999), Time::from_micros(0));
    // Out-of-range readings clamp instead of wrapping.
    assert_eq!(Time::from_parts(-5, 0), Time::from_micros(0));
    assert_eq!(Time::from_parts(i64::MAX, 0), Time::from_micros(100_000_000_000_000));
}

#[test]
fn time_to_protocol_parts() {
    assert_eq!(Time::from_micros(2_500_000).to_parts(), (2, 500_000));
    assert_eq!(Time::from_micros(999).to_parts(), (0, 999));
    // Negative instants split with a nonnegative microsecond part.
    assert_eq!(Time::from_micros(-1).to_parts(), (-1, 999_999));
    assert_eq!(Time::from_micros(-2_000_000).to_parts(), (-2, 0));
}
