use str_similarity::double::{to_whole, HIDDEN, ONE, SIGN};

fn expected(x: f64) -> Option<i64> {
    if x.fract() == 0.0 {
        Some(x as i64)
    } else {
        None
    }
}

#[test]
fn constants_are_the_patterns_they_name() {
    assert_eq!(ONE, 1.0f64.to_bits());
    assert_eq!(SIGN, (-0.0f64).to_bits());
    assert_eq!(HIDDEN, 1u64 << 52);
}

#[test]
fn whole_numbers_are_found() {
    assert_eq!(to_whole(0.0f64.to_bits()), Some(0));
    assert_eq!(to_whole((-0.0f64).to_bits()), Some(0));
    assert_eq!(to_whole(1.0f64.to_bits()), Some(1));
    assert_eq!(to_whole((-1.0f64).to_bits()), Some(-1));
    assert_eq!(to_whole(2.0f64.to_bits()), Some(2));
    assert_eq!(to_whole(3.0f64.to_bits()), Some(3));
    assert_eq!(to_whole(1024.0f64.to_bits()), Some(1024));
    assert_eq!(to_whole((-123456789.0f64).to_bits()), Some(-123456789));
    assert_eq!(to_whole(9007199254740992.0f64.to_bits()), Some(9007199254740992));
    assert_eq!(to_whole(9007199254740994.0f64.to_bits()), Some(9007199254740994));
    assert_eq!(to_whole(4611686018427387904.0f64.to_bits()), Some(4611686018427387904));
}

#[test]
fn numbers_with_a_fractional_part_are_not_whole() {
    assert_eq!(to_whole(0.5f64.to_bits()), None);
    assert_eq!(to_whole(0.857f64.to_bits()), None);
    assert_eq!(to_whole(1.5f64.to_bits()), None);
    assert_eq!(to_whole((-2.25f64).to_bits()), None);
    assert_eq!(to_whole(4503599627370495.5f64.to_bits()), None);
    assert_eq!(to_whole(f64::MIN_POSITIVE.to_bits()), None);
    assert_eq!(to_whole(1u64), None);
    assert_eq!(to_whole(f64::EPSILON.to_bits()), None);
    assert_eq!(to_whole(0.9999999999999999f64.to_bits()), None);
    assert_eq!(to_whole(1.0000000000000002f64.to_bits()), None);
}

#[test]
fn infinities_and_nan_are_not_whole() {
    assert_eq!(to_whole(f64::INFINITY.to_bits()), None);
    assert_eq!(to_whole(f64::NEG_INFINITY.to_bits()), None);
    assert_eq!(to_whole(f64::NAN.to_bits()), None);
    assert_eq!(to_whole(0x7ff0_0000_0000_0001), None);
    assert_eq!(to_whole(0xfff8_0000_0000_0000), None);
}

#[test]
fn whole_numbers_outside_i64_go_to_its_nearest_end() {
    assert_eq!(to_whole(9223372036854775808.0f64.to_bits()), Some(i64::MAX));
    assert_eq!(to_whole((-9223372036854775808.0f64).to_bits()), Some(i64::MIN));
    assert_eq!(to_whole(1e300f64.to_bits()), Some(i64::MAX));
    assert_eq!(to_whole((-1e300f64).to_bits()), Some(i64::MIN));
    assert_eq!(to_whole(f64::MAX.to_bits()), Some(i64::MAX));
    assert_eq!(to_whole(f64::MIN.to_bits()), Some(i64::MIN));
    assert_eq!(to_whole(9223372036854774784.0f64.to_bits()), Some(9223372036854774784));
}

#[test]
fn to_whole_agrees_with_the_hardware_on_a_sweep() {
    let mut bits: u64 = 0x9e37_79b9_7f4a_7c15;
    for _ in 0..200_000 {
        bits ^= bits << 13;
        bits ^= bits >> 7;
        bits ^= bits << 17;
        let x = f64::from_bits(bits);
        assert_eq!(to_whole(bits), expected(x), "pattern {bits:#x}");
    }
    for e in 0..2048u64 {
        let fractions =
            [0u64, 1, 2, 3, 1 << 20, 1 << 51, (1 << 52) - 1, 0x8_0000_0000_0000, 0xc_0000_0000_0000];
        for f in fractions {
            for s in [0u64, 1] {
                let bits = (s << 63) | (e << 52) | f;
                let x = f64::from_bits(bits);
                assert_eq!(to_whole(bits), expected(x), "pattern {bits:#x}");
            }
        }
    }
    for n in -2000i64..2000 {
        let x = n as f64 / 8.0;
        assert_eq!(to_whole(x.to_bits()), expected(x));
    }
}
