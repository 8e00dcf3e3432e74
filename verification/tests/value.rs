use womp::value::{clamp, is_below, not_a_number, rank_of, INFINITY_BITS, SIGN_BIT};

fn table() -> Vec<f32> {
    vec![
        0.0,
        -0.0,
        1.0,
        -1.0,
        0.5,
        -0.5,
        25.0,
        24.999998,
        900.0,
        900.00006,
        1.0e-40,
        -1.0e-40,
        f32::MIN_POSITIVE,
        f32::MAX,
        f32::MIN,
        f32::INFINITY,
        f32::NEG_INFINITY,
        f32::NAN,
        f32::from_bits(0xFFC0_0001),
        f32::from_bits(0x7F80_0001),
    ]
}

#[test]
fn rank_of_known_patterns() {
    assert_eq!(rank_of(0x0000_0000), 0);
    assert_eq!(rank_of(0x8000_0000), 0);
    assert_eq!(rank_of(1.0f32.to_bits()), 0x3F80_0000);
    assert_eq!(rank_of((-1.0f32).to_bits()), -0x3F80_0000);
    assert_eq!(rank_of(0x0000_0001), 1);
    assert_eq!(rank_of(0x8000_0001), -1);
    assert_eq!(rank_of(u32::MAX), -0x7FFF_FFFF);
    assert_eq!(rank_of(0x7FFF_FFFF), 0x7FFF_FFFF);
}

#[test]
fn sign_and_infinity_patterns() {
    assert_eq!(SIGN_BIT, (-0.0f32).to_bits());
    assert_eq!(INFINITY_BITS, f32::INFINITY.to_bits());
}

#[test]
fn not_a_number_agrees_with_floats() {
    for x in table() {
        assert_eq!(not_a_number(x.to_bits()), x.is_nan(), "{:?}", x);
    }
    assert!(!not_a_number(0x7F80_0000));
    assert!(not_a_number(0x7F80_0001));
    assert!(!not_a_number(0xFF80_0000));
    assert!(not_a_number(0xFF80_0001));
    assert!(not_a_number(0xFFFF_FFFF));
}

#[test]
fn is_below_agrees_with_float_order() {
    for a in table() {
        for b in table() {
            assert_eq!(is_below(a.to_bits(), b.to_bits()), a < b, "{:?} < {:?}", a, b);
        }
    }
}

#[test]
fn zeros_are_not_below_each_other() {
    assert!(!is_below(0x0000_0000, 0x8000_0000));
    assert!(!is_below(0x8000_0000, 0x0000_0000));
}

#[test]
fn clamp_agrees_with_float_clamp() {
    let bounds =
        [(25.0f32, 900.0f32), (0.0, 20.0), (0.0, 100.0), (-1.0, 1.0), (-0.0, 0.0), (3.0, 3.0)];
    for (min, max) in bounds {
        for x in table() {
            let got = f32::from_bits(clamp(x.to_bits(), min.to_bits(), max.to_bits()));
            let want = x.clamp(min, max);
            assert_eq!(got.to_bits(), want.to_bits(), "{:?} into [{:?}, {:?}]", x, min, max);
        }
    }
}

#[test]
fn clamp_exact_values() {
    let min = 25.0f32.to_bits();
    let max = 900.0f32.to_bits();
    assert_eq!(clamp(10.0f32.to_bits(), min, max), 0x41C8_0000);
    assert_eq!(clamp(1000.0f32.to_bits(), min, max), 0x4461_0000);
    assert_eq!(clamp(100.0f32.to_bits(), min, max), 0x42C8_0000);
    assert_eq!(clamp(min, min, max), min);
    assert_eq!(clamp(max, min, max), max);
}

#[test]
fn clamp_passes_nan_through_bit_for_bit() {
    let min = (-1.0f32).to_bits();
    let max = 1.0f32.to_bits();
    assert_eq!(clamp(0x7FC0_0000, min, max), 0x7FC0_0000);
    assert_eq!(clamp(0x7F80_0001, min, max), 0x7F80_0001);
    assert_eq!(clamp(0xFFC1_2345, min, max), 0xFFC1_2345);
}

#[test]
fn clamp_pulls_infinities_in() {
    let min = (-1.0f32).to_bits();
    let max = 1.0f32.to_bits();
    assert_eq!(clamp(f32::INFINITY.to_bits(), min, max), max);
    assert_eq!(clamp(f32::NEG_INFINITY.to_bits(), min, max), min);
}

#[test]
fn clamp_is_idempotent() {
    let min = 0.0f32.to_bits();
    let max = 20.0f32.to_bits();
    for x in table() {
        let once = clamp(x.to_bits(), min, max);
        assert_eq!(clamp(once, min, max), once);
    }
}
