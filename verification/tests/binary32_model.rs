//! Cross-checks of the bit-pattern model against the machine's own f32
//! comparisons.

use plot_series::binary32::Binary32;

fn b(x: f32) -> Binary32 {
    Binary32 { bits: x.to_bits() }
}

fn samples() -> Vec<f32> {
    vec![
        0.0,
        -0.0,
        1.0,
        -1.0,
        0.5,
        -0.5,
        3.5,
        -3.5,
        45000.5,
        1.0e-40,
        -1.0e-40,
        f32::MAX,
        f32::MIN,
        f32::MIN_POSITIVE,
        f32::INFINITY,
        f32::NEG_INFINITY,
        f32::NAN,
    ]
}

#[test]
fn lt_matches_float_comparison() {
    for &x in samples().iter() {
        for &y in samples().iter() {
            assert_eq!(
                b(x).lt(b(y)),
                x < y,
                "lt disagrees with < on ({x}, {y})"
            );
        }
    }
}

#[test]
fn is_zero_matches_float_comparison() {
    for &x in samples().iter() {
        assert_eq!(b(x).is_zero(), x == 0.0, "is_zero disagrees on {x}");
    }
}

#[test]
fn is_nan_matches_float_classification() {
    for &x in samples().iter() {
        assert_eq!(b(x).is_nan(), x.is_nan(), "is_nan disagrees on {x}");
    }
}

#[test]
fn zero_is_positive_zero_pattern() {
    let z = Binary32::zero();
    assert_eq!(z.bits, 0.0f32.to_bits());
    assert!(z.is_zero());
}

#[test]
fn negative_zero_is_zero() {
    assert!(b(-0.0).is_zero());
    assert!(!b(-0.0).lt(b(0.0)));
    assert!(!b(0.0).lt(b(-0.0)));
}
