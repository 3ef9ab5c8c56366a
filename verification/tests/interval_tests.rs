use raytracer::interval::{Interval, INTENSITY_MAX_BITS};
use raytracer::scalar::Scalar;

fn at(x: f64) -> Scalar {
    Scalar::from_bits(x.to_bits())
}

fn range(min: f64, max: f64) -> Interval {
    Interval::new(at(min), at(max))
}

fn samples() -> Vec<f64> {
    vec![
        f64::NEG_INFINITY,
        -1e300,
        -2.0,
        -1.0,
        -0.5,
        -0.0,
        0.0,
        1e-300,
        0.001,
        0.25,
        0.999,
        1.0,
        1.5,
        2.0,
        1e300,
        f64::INFINITY,
        f64::NAN,
    ]
}

fn clamp_by_hand(min: f64, max: f64, x: f64) -> f64 {
    if x < min {
        min
    } else if x > max {
        max
    } else {
        x
    }
}

#[test]
fn new_keeps_both_ends() {
    let r = range(-1.0, 2.5);
    assert_eq!(r.min, at(-1.0));
    assert_eq!(r.max, at(2.5));
}

#[test]
fn contains_is_closed() {
    let r = range(1.0, 2.0);
    assert!(r.contains(at(1.0)));
    assert!(r.contains(at(2.0)));
    assert!(r.contains(at(1.5)));
    assert!(!r.contains(at(0.9999999)));
    assert!(!r.contains(at(2.0000001)));
    assert!(!r.contains(at(f64::NAN)));
}

#[test]
fn surrounds_is_open() {
    let r = range(1.0, 2.0);
    assert!(!r.surrounds(at(1.0)));
    assert!(!r.surrounds(at(2.0)));
    assert!(r.surrounds(at(1.5)));
    assert!(r.surrounds(at(1.0 + f64::EPSILON)));
    assert!(!r.surrounds(at(f64::NAN)));
}

#[test]
fn tests_agree_with_the_hardware() {
    for min in samples() {
        for max in samples() {
            let r = range(min, max);
            for x in samples() {
                assert_eq!(r.contains(at(x)), x >= min && x <= max);
                assert_eq!(r.surrounds(at(x)), x > min && x < max);
                assert_eq!(r.clamp(at(x)).to_bits(), clamp_by_hand(min, max, x).to_bits());
            }
        }
    }
}

#[test]
fn surrounded_numbers_are_contained() {
    for min in samples() {
        for max in samples() {
            let r = range(min, max);
            for x in samples() {
                if r.surrounds(at(x)) {
                    assert!(r.contains(at(x)));
                }
            }
        }
    }
}

#[test]
fn clamp_picks_the_nearest_end() {
    let r = range(0.0, 0.999);
    assert_eq!(r.clamp(at(-3.0)), at(0.0));
    assert_eq!(r.clamp(at(7.0)), at(0.999));
    assert_eq!(r.clamp(at(0.5)), at(0.5));
    assert_eq!(r.clamp(at(0.999)), at(0.999));
    assert_eq!(r.clamp(at(f64::INFINITY)), at(0.999));
    assert_eq!(r.clamp(at(f64::NEG_INFINITY)), at(0.0));
}

#[test]
fn clamp_lets_nan_and_minus_zero_through() {
    let r = range(0.0, 0.999);
    assert!(r.clamp(at(f64::NAN)).is_nan());
    assert_eq!(r.clamp(at(-0.0)).to_bits(), (-0.0f64).to_bits());
}

#[test]
fn clamped_numbers_are_contained() {
    for x in samples() {
        if !x.is_nan() {
            let r = range(-1.0, 1.5);
            assert!(r.contains(r.clamp(at(x))));
        }
    }
}

#[test]
fn empty_holds_nothing() {
    let e = Interval::empty();
    assert_eq!(e.min, at(f64::INFINITY));
    assert_eq!(e.max, at(f64::NEG_INFINITY));
    for x in samples() {
        assert!(!e.contains(at(x)));
        assert!(!e.surrounds(at(x)));
    }
}

#[test]
fn intensity_interval_runs_from_zero_to_just_below_one() {
    let r = Interval::intensity_interval();
    assert_eq!(r.min.to_bits(), 0.000f64.to_bits());
    assert_eq!(r.max.to_bits(), 0.999f64.to_bits());
    assert_eq!(INTENSITY_MAX_BITS, 0.999f64.to_bits());
    assert!(r.contains(at(0.0)));
    assert!(r.contains(at(0.999)));
    assert!(!r.contains(at(1.0)));
}
