use film_grain::ieee::Float64;

fn of(value: f64) -> Float64 {
    Float64 { bits: value.to_bits() }
}

#[test]
fn positive_agrees_with_comparison() {
    let samples: [f64; 14] = [
        0.0,
        -0.0,
        5e-324,
        -5e-324,
        f64::MIN_POSITIVE,
        25.0,
        -25.0,
        0.3,
        f64::MAX,
        f64::MIN,
        f64::INFINITY,
        f64::NEG_INFINITY,
        f64::NAN,
        -f64::NAN,
    ];
    for v in samples {
        assert_eq!(of(v).positive(), v > 0.0, "value {v:?}");
    }
}

#[test]
fn zero_of_either_sign_is_not_positive() {
    assert!(!Float64 { bits: 0 }.positive());
    assert!(!Float64 { bits: 0x8000_0000_0000_0000 }.positive());
}

#[test]
fn smallest_subnormal_is_positive() {
    assert!(Float64 { bits: 1 }.positive());
}

#[test]
fn infinity_is_positive_and_the_next_pattern_is_not() {
    assert!(Float64 { bits: 0x7ff0_0000_0000_0000 }.positive());
    assert!(!Float64 { bits: 0x7ff0_0000_0000_0001 }.positive());
    assert!(!Float64 { bits: 0x7fff_ffff_ffff_ffff }.positive());
}

#[test]
fn every_negative_pattern_is_refused() {
    let mut bits: u64 = 0x8000_0000_0000_0000;
    for _ in 0..64 {
        assert!(!Float64 { bits }.positive());
        bits = bits.wrapping_mul(3).wrapping_add(1) | 0x8000_0000_0000_0000;
    }
}

#[test]
fn patterns_compare_as_bits() {
    assert_eq!(of(1.5), of(1.5));
    assert_ne!(of(0.0), of(-0.0));
}
