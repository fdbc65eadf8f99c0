use cms_types::double::{of_i64, of_magnitude, to_i32, to_i64};
use cms_types::value::Number;

fn samples() -> Vec<f64> {
    vec![
        0.0,
        -0.0,
        0.5,
        -0.5,
        0.999_999_999_999,
        1.0,
        -1.0,
        1.5,
        -1.5,
        2.0,
        255.0,
        255.9,
        256.0,
        1e10,
        -1e10,
        2147483647.0,
        2147483647.5,
        2147483648.0,
        -2147483648.0,
        -2147483648.9,
        -2147483649.0,
        4294967296.0,
        9007199254740991.0,
        9007199254740992.0,
        9007199254740993.0,
        9.223372036854775e18,
        9223372036854775807.0,
        9223372036854775808.0,
        -9223372036854775808.0,
        -9.3e18,
        1e19,
        1e300,
        -1e300,
        5e-324,
        2.2250738585072014e-308,
        f64::MAX,
        f64::MIN,
        f64::MIN_POSITIVE,
        f64::INFINITY,
        f64::NEG_INFINITY,
        f64::NAN,
        -f64::NAN,
        f64::EPSILON,
        123456.789,
        -123456.789,
        4503599627370496.5,
        4503599627370497.0,
    ]
}

#[test]
fn double_to_i64_is_the_cast() {
    for x in samples() {
        assert_eq!(to_i64(x.to_bits()), x as i64, "for {x}");
    }
}

#[test]
fn double_to_i32_is_the_cast() {
    for x in samples() {
        assert_eq!(to_i32(x.to_bits()), x as i32, "for {x}");
    }
}

#[test]
fn double_to_i64_over_many_exponents() {
    let mut e: u64 = 0;
    while e < 2048 {
        for fraction in [0u64, 1, 0x8_0000_0000_0000, 0xF_FFFF_FFFF_FFFF, 0x5_5555_5555_5555] {
            for sign in [0u64, 1u64] {
                let bits = (sign << 63) | (e << 52) | fraction;
                let x = f64::from_bits(bits);
                assert_eq!(to_i64(bits), x as i64, "for bits {bits:#x}");
                assert_eq!(to_i32(bits), x as i32, "for bits {bits:#x}");
            }
        }
        e += 1;
    }
}

fn whole_samples() -> Vec<i64> {
    let mut v = vec![
        0i64,
        1,
        -1,
        2,
        3,
        255,
        256,
        65535,
        1 << 52,
        (1 << 53) - 1,
        1 << 53,
        (1 << 53) + 1,
        (1 << 53) + 2,
        (1 << 53) + 3,
        (1 << 54) + 1,
        (1 << 54) + 2,
        (1 << 54) + 3,
        (1 << 54) + 5,
        (1 << 54) + 6,
        (1 << 54) + 7,
        i64::MAX,
        i64::MAX - 1,
        i64::MAX - 511,
        i64::MAX - 512,
        i64::MAX - 513,
        i64::MIN,
        i64::MIN + 1,
        1234567890123456789,
        -1234567890123456789,
        999_999_999_999_999_999,
    ];
    let negatives: Vec<i64> = v.iter().filter(|x| **x > 0).map(|x| -*x).collect();
    v.extend(negatives);
    v
}

#[test]
fn double_of_i64_is_the_cast() {
    for i in whole_samples() {
        assert_eq!(of_i64(i), (i as f64).to_bits(), "for {i}");
    }
}

#[test]
fn double_of_magnitude_is_the_cast() {
    for u in [
        0u64,
        1,
        255,
        u64::MAX,
        u64::MAX - 1,
        u64::MAX - 1023,
        u64::MAX - 1024,
        u64::MAX - 1025,
        u64::MAX - 2047,
        u64::MAX - 2048,
        1 << 63,
        (1 << 63) + 1024,
        (1 << 63) + 1025,
        (1 << 63) + 3072,
        (3 << 62) + 12345,
    ] {
        assert_eq!(of_magnitude(false, u), (u as f64).to_bits(), "for {u}");
        if u != 0 {
            assert_eq!(of_magnitude(true, u), (-(u as f64)).to_bits(), "for -{u}");
        }
    }
}

#[test]
fn double_of_magnitude_of_zero_is_plus_zero() {
    assert_eq!(of_magnitude(false, 0), 0);
    assert_eq!(of_magnitude(true, 0), 0);
}

#[test]
fn number_convert_i64_of_each_variant() {
    assert_eq!(Number::Byte(200).convert_i64(), 200);
    assert_eq!(Number::Integer(-7).convert_i64(), -7);
    assert_eq!(Number::Integer(i64::MIN).convert_i64(), i64::MIN);
    assert_eq!(Number::Float(2.75f64.to_bits()).convert_i64(), 2);
    assert_eq!(Number::Float((-2.75f64).to_bits()).convert_i64(), -2);
    assert_eq!(Number::Float(f64::NAN.to_bits()).convert_i64(), 0);
    assert_eq!(Number::Float(1e30f64.to_bits()).convert_i64(), i64::MAX);
    assert_eq!(Number::Float((-1e30f64).to_bits()).convert_i64(), i64::MIN);
}

#[test]
fn number_convert_f64_of_each_variant() {
    assert_eq!(f64::from_bits(Number::Byte(200).convert_f64()), 200.0);
    assert_eq!(f64::from_bits(Number::Integer(-7).convert_f64()), -7.0);
    assert_eq!(
        Number::Integer(i64::MAX).convert_f64(),
        (i64::MAX as f64).to_bits()
    );
    assert_eq!(f64::from_bits(Number::Float(0.1f64.to_bits()).convert_f64()), 0.1);
}

#[test]
fn number_convert_i32_of_each_variant() {
    assert_eq!(Number::Byte(200).convert_i32(), 200);
    assert_eq!(Number::Integer(-7).convert_i32(), -7);
    assert_eq!(Number::Integer(4294967297).convert_i32(), 4294967297i64 as i32);
    assert_eq!(Number::Integer(2147483648).convert_i32(), 2147483648i64 as i32);
    assert_eq!(Number::Integer(i64::MIN).convert_i32(), i64::MIN as i32);
    assert_eq!(Number::Float(3e9f64.to_bits()).convert_i32(), i32::MAX);
    assert_eq!(Number::Float((-3e9f64).to_bits()).convert_i32(), i32::MIN);
    assert_eq!(Number::Float(17.9f64.to_bits()).convert_i32(), 17);
}

#[test]
fn number_into_u8_only_of_a_byte() {
    assert_eq!(Number::Byte(9).into_u8(), Ok(9));
    assert!(Number::Integer(9).into_u8().is_err());
    assert!(Number::Float(9.0f64.to_bits()).into_u8().is_err());
}

#[test]
fn number_default_is_integer_zero() {
    assert!(matches!(Number::default(), Number::Integer(0)));
}
