use xzbbox::text::push_decimal;
use xzbbox::Binary64;

fn agree_with_the_machine(value: f64) {
    let v = Binary64::from_bits(value.to_bits());
    assert_eq!(v.to_bits(), value.to_bits());
    assert_eq!(v.is_non_negative(), value >= 0.0, "is_non_negative of {value:e}");
    assert_eq!(v.exceeds_i32_max(), value > i32::MAX as f64, "exceeds_i32_max of {value:e}");
    assert_eq!(v.to_i32(), value as i32, "to_i32 of {value:e}");
}

#[test]
fn chosen_values_agree_with_the_machine() {
    let values = [
        0.0,
        f64::from_bits(1),
        f64::from_bits(0x000f_ffff_ffff_ffff),
        f64::MIN_POSITIVE,
        0.1,
        0.5,
        0.999_999_999_999_999_9,
        1.0,
        1.000_000_000_000_000_2,
        1.5,
        2.0,
        123.4,
        322.5,
        1323.5,
        1073741823.5,
        1073741824.0,
        2147483646.0,
        2147483646.999_999_8,
        2147483647.0,
        2147483647.000_000_2,
        2147483647.5,
        2147483648.0,
        2147483648.5,
        2147483657.0,
        3287238791.395,
        4294967296.0,
        4503599627370496.0,
        9007199254740992.0,
        123948761293874123.2398,
        1e300,
        f64::MAX,
        f64::INFINITY,
        f64::NAN,
        f64::from_bits(0x7ff0_0000_0000_0001),
        f64::from_bits(0x7fff_ffff_ffff_ffff),
    ];
    for &value in values.iter() {
        agree_with_the_machine(value);
        agree_with_the_machine(-value);
    }
}

#[test]
fn exact_answers_for_chosen_values() {
    let v = |x: f64| Binary64::from_bits(x.to_bits());
    assert!(v(-0.0).is_non_negative());
    assert!(!v(-f64::from_bits(1)).is_non_negative());
    assert!(!v(f64::NAN).is_non_negative());
    assert!(!v(2147483647.0).exceeds_i32_max());
    assert!(v(2147483647.5).exceeds_i32_max());
    assert!(!v(f64::NAN).exceeds_i32_max());
    assert!(!v(f64::NEG_INFINITY).exceeds_i32_max());
    assert_eq!(v(123.4).to_i32(), 123);
    assert_eq!(v(-123.9).to_i32(), -123);
    assert_eq!(v(2147483647.5).to_i32(), i32::MAX);
    assert_eq!(v(-2147483648.0).to_i32(), i32::MIN);
    assert_eq!(v(-2147483647.5).to_i32(), -2147483647);
    assert_eq!(v(-1e300).to_i32(), i32::MIN);
    assert_eq!(v(f64::INFINITY).to_i32(), i32::MAX);
    assert_eq!(v(f64::NAN).to_i32(), 0);
}

#[test]
fn every_exponent_agrees_with_the_machine() {
    let fractions = [0u64, 1, 0x8_0000_0000_0000, 0xf_ffff_ffff_ffff, 0xf_ffff_ffc0_0000, 0x3_1415_9265_3589];
    for exponent in 0u64..0x800 {
        for &fraction in fractions.iter() {
            for sign in 0u64..2 {
                let bits = (sign << 63) | (exponent << 52) | fraction;
                agree_with_the_machine(f64::from_bits(bits));
            }
        }
    }
}

#[test]
fn scattered_patterns_agree_with_the_machine() {
    let mut state: u64 = 0x9e37_79b9_7f4a_7c15;
    for _ in 0..200_000 {
        state = state.wrapping_mul(6364136223846793005).wrapping_add(1442695040888963407);
        agree_with_the_machine(f64::from_bits(state));
        // The same fraction near the exponents where the answers change.
        let near = (state & 0x800f_ffff_ffff_ffff) | ((1020 + (state >> 52) % 40) << 52);
        agree_with_the_machine(f64::from_bits(near));
    }
}

#[test]
fn decimal_text_agrees_with_the_machine() {
    let values = [0, 1, 9, 10, 11, 99, 100, 101, 12345, 1234567890, i32::MAX, -1, -9, -10, -100, -2147483647, i32::MIN];
    for &value in values.iter() {
        let mut out = String::from("x=");
        push_decimal(&mut out, value);
        assert_eq!(out, format!("x={value}"));
    }
}
