use flow_speed::InvalidDomainError;
use flow_speed::Ratio;
use flow_speed::speed_through_transit;
use flow_speed::velocity;

/// The rational `num / den`.
fn rat(num: i128, den: i128) -> Ratio {
    Ratio::new(num, den)
}

/// The nearest rational with denominator 4096, within the input bound of the
/// library functions.
fn approx(x: f64) -> Ratio {
    Ratio::new((x * 4096.0).round() as i128, 4096)
}

fn value(r: &Ratio) -> f64 {
    r.num as f64 / r.den as f64
}

#[test]
fn free_flow_returns_base_speed() {
    let cases = [
        (rat(1, 1), rat(1, 1), rat(13, 20)),
        (rat(7, 2), rat(1, 1), rat(1, 2)),
        (rat(0, 1), rat(2, 1), rat(13, 20)),
        (rat(1, 1), rat(0, 1), rat(0, 1)),
        (rat(100, 1), rat(16, 10), rat(64, 100)),
    ];
    for (projection_area, width, density) in cases {
        let r = speed_through_transit(projection_area, width, density, rat(0, 1)).unwrap();
        assert_eq!(r.num, 100 * r.den);
    }
}

#[test]
fn velocity_with_zero_log_returns_initial_speed() {
    let r = velocity(rat(100, 1), rat(59, 200), rat(13, 20), rat(13, 20), rat(0, 1)).unwrap();
    assert_eq!(r.num, 100 * r.den);
}

#[test]
fn velocity_exact_formula() {
    // v0 * (1 - a * ln_ratio) with v0 = 100, a = 59/200, ln_ratio = 303/4096:
    // exactly 80132300 / 819200.
    let r = velocity(rat(100, 1), rat(59, 200), rat(13, 20), rat(7, 10), rat(303, 4096)).unwrap();
    assert_eq!(r.num * 819200, 80132300 * r.den);
}

#[test]
fn velocity_rejects_zero_reference_density() {
    let r = velocity(rat(100, 1), rat(59, 200), rat(0, 1), rat(1, 1), rat(0, 1));
    assert!(matches!(r, Err(InvalidDomainError)));
}

#[test]
fn velocity_rejects_negative_reference_density() {
    let r = velocity(rat(100, 1), rat(59, 200), rat(-1, 2), rat(1, 1), rat(0, 1));
    assert!(matches!(r, Err(InvalidDomainError)));
}

#[test]
fn velocity_rejects_nonpositive_density() {
    let r = velocity(rat(100, 1), rat(59, 200), rat(13, 20), rat(0, 1), rat(0, 1));
    assert!(matches!(r, Err(InvalidDomainError)));
    let r = velocity(rat(100, 1), rat(59, 200), rat(13, 20), rat(-3, 4), rat(0, 1));
    assert!(matches!(r, Err(InvalidDomainError)));
}

#[test]
fn speed_rejects_zero_reduced_density() {
    // Congested regime entered with a zero projection area: the final
    // division is undefined and must fail, not return a silent value.
    let r = speed_through_transit(rat(0, 1), rat(1, 1), rat(7, 10), rat(303, 4096));
    assert!(matches!(r, Err(InvalidDomainError)));
}

#[test]
fn narrow_opening_ceiling() {
    // d = 0.9, width = 1.0 < 1.6: q = 2.5 + 3.75 = 6.25, speed = 6.25 / 0.9.
    let r = speed_through_transit(rat(1, 1), rat(1, 1), rat(9, 10), approx((0.9f64 / 0.65).ln()))
        .unwrap();
    assert_eq!(r.num * 36, 250 * r.den);
    assert!((value(&r) - 6.25 / 0.9).abs() < 1e-12);
}

#[test]
fn wide_opening_ceiling() {
    // d = 0.9, width = 2.0 >= 1.6: q = 8.5, speed = 8.5 / 0.9.
    let r = speed_through_transit(rat(1, 1), rat(2, 1), rat(9, 10), approx((0.9f64 / 0.65).ln()))
        .unwrap();
    assert_eq!(r.num * 9, 85 * r.den);
    assert!((value(&r) - 8.5 / 0.9).abs() < 1e-12);
}

#[test]
fn jam_boundary_switch() {
    // Just below the jam threshold the speed comes from the velocity-based
    // flow intensity; exactly at d = 0.9 it switches to the width ceiling.
    let below_ln = approx((0.89f64 / 0.65).ln());
    let below = speed_through_transit(rat(1, 1), rat(2, 1), rat(89, 100), below_ln).unwrap();
    let expected = (100.0 * (1.0 - 0.295 * value(&below_ln))) * (1.25 - 0.5 * 0.89);
    assert!((value(&below) - expected).abs() < 1e-9);
    assert!(value(&below) > 70.0);

    let at = speed_through_transit(rat(1, 1), rat(2, 1), rat(9, 10), approx((0.9f64 / 0.65).ln()))
        .unwrap();
    assert_eq!(at.num * 9, 85 * at.den);
    assert!(value(&at) < 10.0);
}

#[test]
fn concrete_congested_example() {
    // projection_area = 1, width = 1, density = 0.7: d = 0.7, m = 0.9,
    // velocity ~ 97.84, and the speed is their product, about 88.06.
    let ln_ratio = approx((0.7f64 / 0.65).ln());
    let r = speed_through_transit(rat(1, 1), rat(1, 1), rat(7, 10), ln_ratio).unwrap();
    let expected = (100.0 * (1.0 - 0.295 * value(&ln_ratio))) * 0.9;
    assert!((value(&r) - expected).abs() < 1e-9);
    assert!((value(&r) - 88.06).abs() < 0.1);
}

#[test]
fn multiplier_stays_one_below_knee() {
    // d = 0.35 <= 0.5, so the congestion multiplier is 1 and the speed equals
    // the velocity value exactly: 80132300 / 819200 for this logarithm.
    let r = speed_through_transit(rat(1, 2), rat(1, 1), rat(7, 10), rat(303, 4096)).unwrap();
    assert_eq!(r.num * 819200, 80132300 * r.den);
}

#[test]
fn speed_nonincreasing_in_density() {
    // Sampled grid: for fixed projection area and width, increasing the
    // density above 0.65 never increases the speed, across the knee of the
    // congestion multiplier and into the jam regime.
    let mut previous = f64::INFINITY;
    for i in 0..118i128 {
        let n: i128 = 66 + 2 * i;
        let density = rat(n, 100);
        let ln_ratio = approx((n as f64 / 100.0 / 0.65).ln());
        let r = speed_through_transit(rat(1, 1), rat(1, 1), density, ln_ratio).unwrap();
        let v = value(&r);
        assert!(v <= previous + 1e-9);
        previous = v;
    }
}
