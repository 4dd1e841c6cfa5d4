use nelly::double::{
    ceiling_within, floor_within, nearest_u32, parts, sign_bit, whole_as_i32, Parts,
};

const LIMIT: u64 = u32::MAX as u64;

fn samples() -> Vec<f64> {
    let mut values = vec![
        0.0,
        0.25,
        0.49999999999999994,
        0.5,
        0.75,
        1.0,
        1.5,
        2.5,
        10.5,
        100.0,
        799.9999999,
        2147483646.5,
        2147483647.0,
        2147483647.5,
        2147483648.0,
        4294967294.5,
        4294967295.0,
        4294967295.5,
        4294967296.0,
        4503599627370495.5,
        4503599627370496.0,
        9007199254740991.0,
        9007199254740992.0,
        4611686018427387904.0,
        9223372036854775808.0,
        18446744073709551616.0,
        1e300,
        f64::MAX,
        f64::MIN_POSITIVE,
        5e-324,
        2.2250738585072009e-308,
        f64::INFINITY,
        f64::NAN,
    ];
    let negatives: Vec<f64> = values.iter().map(|v| -*v).collect();
    values.extend(negatives);
    values
}

#[test]
fn ceiling_agrees_with_std() {
    for x in samples() {
        let rounded = x.ceil();
        let expected = if rounded.is_finite() && rounded >= 0.0 && rounded <= u32::MAX as f64 {
            Some(rounded as u64)
        } else {
            None
        };
        assert_eq!(ceiling_within(x.to_bits(), LIMIT), expected, "ceiling of {x}");
    }
}

#[test]
fn floor_agrees_with_std() {
    for x in samples() {
        let rounded = x.floor();
        let expected = if rounded.is_finite() && rounded >= 0.0 && rounded <= u32::MAX as f64 {
            Some(rounded as u64)
        } else {
            None
        };
        assert_eq!(floor_within(x.to_bits(), LIMIT), expected, "floor of {x}");
    }
}

#[test]
fn nearest_agrees_with_std() {
    for x in samples() {
        assert_eq!(nearest_u32(x.to_bits()), x.round() as u32, "nearest of {x}");
    }
}

#[test]
fn whole_as_i32_agrees_with_std() {
    for x in samples() {
        let expected = if x.fract() != 0.0 { None } else { Some(x as i32) };
        assert_eq!(whole_as_i32(x.to_bits()), expected, "whole of {x}");
    }
}

#[test]
fn sign_bit_agrees_with_std() {
    for x in samples() {
        assert_eq!(sign_bit(x.to_bits()), x.is_sign_negative(), "sign of {x}");
    }
}

#[test]
fn ceiling_of_ten_and_a_half_is_eleven() {
    assert_eq!(ceiling_within(10.5f64.to_bits(), LIMIT), Some(11));
}

#[test]
fn floor_of_ten_and_a_half_is_ten() {
    assert_eq!(floor_within(10.5f64.to_bits(), LIMIT), Some(10));
}

#[test]
fn ceiling_of_minus_a_half_is_zero_but_its_floor_is_negative() {
    assert_eq!(ceiling_within((-0.5f64).to_bits(), LIMIT), Some(0));
    assert_eq!(floor_within((-0.5f64).to_bits(), LIMIT), None);
}

#[test]
fn limit_is_inclusive() {
    assert_eq!(ceiling_within(7.0f64.to_bits(), 7), Some(7));
    assert_eq!(ceiling_within(7.5f64.to_bits(), 7), None);
    assert_eq!(floor_within(7.5f64.to_bits(), 7), Some(7));
    assert_eq!(floor_within(8.0f64.to_bits(), 7), None);
}

#[test]
fn halves_round_away_from_zero() {
    assert_eq!(nearest_u32(0.5f64.to_bits()), 1);
    assert_eq!(nearest_u32(1.5f64.to_bits()), 2);
    assert_eq!(nearest_u32(2.5f64.to_bits()), 3);
    assert_eq!(nearest_u32(2.4999f64.to_bits()), 2);
}

#[test]
fn parts_of_six_and_three_quarters() {
    assert_eq!(
        parts(6.75f64.to_bits()),
        Some(Parts { negative: false, whole: Some(6), fractional: true, half_or_more: true })
    );
}

#[test]
fn parts_of_minus_two() {
    assert_eq!(
        parts((-2.0f64).to_bits()),
        Some(Parts { negative: true, whole: Some(2), fractional: false, half_or_more: false })
    );
}

#[test]
fn parts_of_a_huge_number_have_no_whole() {
    assert_eq!(
        parts(1e30f64.to_bits()),
        Some(Parts { negative: false, whole: None, fractional: false, half_or_more: false })
    );
}

#[test]
fn parts_of_what_is_not_finite() {
    assert_eq!(parts(f64::INFINITY.to_bits()), None);
    assert_eq!(parts(f64::NEG_INFINITY.to_bits()), None);
    assert_eq!(parts(f64::NAN.to_bits()), None);
}

#[test]
fn whole_values_saturate() {
    assert_eq!(whole_as_i32(1e12f64.to_bits()), Some(i32::MAX));
    assert_eq!(whole_as_i32((-1e12f64).to_bits()), Some(i32::MIN));
    assert_eq!(whole_as_i32((-2147483648.0f64).to_bits()), Some(i32::MIN));
    assert_eq!(whole_as_i32((-2147483647.0f64).to_bits()), Some(-2147483647));
}

#[test]
fn limits_up_to_the_largest_integer_are_taken() {
    let big = 9223372036854775808.0f64;
    assert_eq!(ceiling_within(big.to_bits(), u64::MAX), Some(1 << 63));
    assert_eq!(floor_within(big.to_bits(), u64::MAX), Some(1 << 63));
    assert_eq!(floor_within(18446744073709549568.0f64.to_bits(), u64::MAX), Some(18446744073709549568));
    assert_eq!(ceiling_within(18446744073709551616.0f64.to_bits(), u64::MAX), None);
    assert_eq!(floor_within(big.to_bits(), (1 << 63) - 1), None);
    assert_eq!(
        parts(big.to_bits()),
        Some(Parts { negative: false, whole: Some(1 << 63), fractional: false, half_or_more: false })
    );
}
