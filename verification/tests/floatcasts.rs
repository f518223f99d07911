//! Casts from float sources and the float-to-float narrowing, at their
//! boundaries and on special values.

use cast::Error;
use cast::floatbits::i32_from_f64_bits;
use cast::floatbits::i64_from_f64_bits;
use cast::floatbits::i8_from_f64_bits;
use cast::floatbits::narrow_f64_to_f32_check;
use cast::floatbits::promote_f32_bits_to_f64_bits;
use cast::floatbits::u64_from_f64_bits;
use cast::floatbits::u8_from_f32_bits;
use cast::floatbits::u8_from_f64_bits;
use cast::floatbits::usize_from_f64_bits;

#[test]
fn float_in_range_truncates() {
    assert_eq!(u8_from_f64_bits(0.0f64.to_bits()), Ok(0u8));
    assert_eq!(u8_from_f64_bits(127.0f64.to_bits()), Ok(127u8));
    assert_eq!(u8_from_f64_bits(254.99f64.to_bits()), Ok(254u8));
    assert_eq!(i8_from_f64_bits((-0.5f64).to_bits()), Ok(0i8));
    assert_eq!(i8_from_f64_bits((-127.9f64).to_bits()), Ok(-127i8));
    assert_eq!(i64_from_f64_bits((-123456789.0f64).to_bits()), Ok(-123456789i64));
    assert_eq!(u8_from_f32_bits(200.75f32.to_bits()), Ok(200u8));
}

#[test]
fn float_boundaries() {
    // Exactly the destination's bounds succeed.
    assert_eq!(u8_from_f64_bits(255.0f64.to_bits()), Ok(255u8));
    assert_eq!(i8_from_f64_bits((-128.0f64).to_bits()), Ok(-128i8));
    // The least step beyond either bound fails.
    assert_eq!(u8_from_f64_bits(255.5f64.to_bits()), Err(Error::Overflow));
    assert_eq!(u8_from_f64_bits(256.0f64.to_bits()), Err(Error::Overflow));
    assert_eq!(u8_from_f64_bits((-0.5f64).to_bits()), Err(Error::Underflow));
    assert_eq!(i8_from_f64_bits((-128.5f64).to_bits()), Err(Error::Underflow));
    assert_eq!(i8_from_f64_bits(128.0f64.to_bits()), Err(Error::Overflow));
    // 2^63 is one past the largest signed 64-bit value: it overflows even
    // though the host's saturating float cast would not say so.
    assert_eq!(i64_from_f64_bits(9223372036854775808.0f64.to_bits()), Err(Error::Overflow));
    assert_eq!(i64_from_f64_bits((-9223372036854775808.0f64).to_bits()), Ok(i64::MIN));
    // 2^64 is one past the largest unsigned 64-bit value.
    assert_eq!(u64_from_f64_bits(18446744073709551616.0f64.to_bits()), Err(Error::Overflow));
    // The largest float at or below the unsigned 64-bit maximum fits.
    assert_eq!(u64_from_f64_bits(18446744073709549568.0f64.to_bits()), Ok(18446744073709549568u64));
}

#[test]
fn float_extremes() {
    assert_eq!(u8_from_f64_bits(1.0e300f64.to_bits()), Err(Error::Overflow));
    assert_eq!(u8_from_f64_bits((-1.0e300f64).to_bits()), Err(Error::Underflow));
    assert_eq!(i64_from_f64_bits(f64::MAX.to_bits()), Err(Error::Overflow));
    assert_eq!(i64_from_f64_bits(f64::MIN.to_bits()), Err(Error::Underflow));
    // Subnormal values truncate to zero.
    assert_eq!(u8_from_f64_bits(f64::from_bits(1).to_bits()), Ok(0u8));
    assert_eq!(i8_from_f64_bits((-f64::from_bits(0x000f_ffff_ffff_ffff)).to_bits()), Ok(0i8));
}

#[test]
fn float_specials_to_integer() {
    assert_eq!(u8_from_f64_bits(f64::NAN.to_bits()), Err(Error::NaN));
    assert_eq!(i64_from_f64_bits(f64::NAN.to_bits()), Err(Error::NaN));
    assert_eq!(u8_from_f64_bits(f64::INFINITY.to_bits()), Err(Error::Infinite));
    assert_eq!(u8_from_f64_bits(f64::NEG_INFINITY.to_bits()), Err(Error::Infinite));
    assert_eq!(usize_from_f64_bits(f64::NEG_INFINITY.to_bits()), Err(Error::Infinite));
}

#[test]
fn matches_float_comparisons_for_i32() {
    // For a 32-bit destination the bounds are exact as 64-bit floats, so
    // comparing against them in float arithmetic is itself exact; the
    // bit-level evaluator must agree with that reference on any value.
    let values = [
        0.0f64,
        -0.0,
        0.25,
        -0.75,
        1.0,
        -1.0,
        12345.678,
        -98765.432,
        2147483646.5,
        2147483647.0,
        2147483647.5,
        2147483648.0,
        -2147483648.0,
        -2147483648.5,
        -2147483649.0,
        1.0e18,
        -1.0e18,
        f64::MAX,
        f64::MIN,
        f64::MIN_POSITIVE,
        f64::from_bits(1),
        f64::NAN,
        f64::INFINITY,
        f64::NEG_INFINITY,
    ];
    for v in values {
        let expected = if v.is_nan() {
            Err(Error::NaN)
        } else if v.is_infinite() {
            Err(Error::Infinite)
        } else if v < i32::MIN as f64 {
            Err(Error::Underflow)
        } else if v > i32::MAX as f64 {
            Err(Error::Overflow)
        } else {
            Ok(v as i32)
        };
        assert_eq!(i32_from_f64_bits(v.to_bits()), expected, "value {v}");
    }
}

#[test]
fn widening_to_f64_is_lossless() {
    // The bit-level widening agrees with the host's exact float widening,
    // on normal, subnormal, zero and extreme values.
    let values = [
        0.0f32,
        -0.0f32,
        1.0f32,
        1.5f32,
        -2.75f32,
        123456.789f32,
        f32::MAX,
        f32::MIN,
        f32::MIN_POSITIVE,
        f32::from_bits(1),
        f32::from_bits(0x0012_3456),
        -f32::from_bits(7),
    ];
    for v in values {
        let widened = f64::from_bits(promote_f32_bits_to_f64_bits(v.to_bits()));
        assert_eq!(widened, v as f64);
        assert_eq!(widened.to_bits(), (v as f64).to_bits());
    }
    let nan = f64::from_bits(promote_f32_bits_to_f64_bits((0f32 / 0f32).to_bits()));
    assert!(nan.is_nan());
    let pinf = f64::from_bits(promote_f32_bits_to_f64_bits(f32::INFINITY.to_bits()));
    assert_eq!(pinf, f64::INFINITY);
    let ninf = f64::from_bits(promote_f32_bits_to_f64_bits(f32::NEG_INFINITY.to_bits()));
    assert_eq!(ninf, f64::NEG_INFINITY);
    // A widened value always passes the check of the narrowing back.
    for v in values {
        assert_eq!(narrow_f64_to_f32_check(promote_f32_bits_to_f64_bits(v.to_bits())), Ok(()));
    }
}

#[test]
fn narrowing_to_f32_boundaries() {
    // Every value whose magnitude stays at or below the largest finite
    // 32-bit float passes the narrowing check.
    assert_eq!(narrow_f64_to_f32_check(0.0f64.to_bits()), Ok(()));
    assert_eq!(narrow_f64_to_f32_check((f32::MAX as f64).to_bits()), Ok(()));
    assert_eq!(narrow_f64_to_f32_check((f32::MIN as f64).to_bits()), Ok(()));
    // The least 64-bit float above that magnitude fails, on either side.
    let just_above = f64::from_bits((f32::MAX as f64).to_bits() + 1);
    assert_eq!(narrow_f64_to_f32_check(just_above.to_bits()), Err(Error::Overflow));
    assert_eq!(narrow_f64_to_f32_check((-just_above).to_bits()), Err(Error::Underflow));
    assert_eq!(narrow_f64_to_f32_check(f64::MAX.to_bits()), Err(Error::Overflow));
    assert_eq!(narrow_f64_to_f32_check(f64::MIN.to_bits()), Err(Error::Underflow));
    // Special values pass, being representable in the narrower kind.
    assert_eq!(narrow_f64_to_f32_check(f64::NAN.to_bits()), Ok(()));
    assert_eq!(narrow_f64_to_f32_check(f64::INFINITY.to_bits()), Ok(()));
    assert_eq!(narrow_f64_to_f32_check(f64::NEG_INFINITY.to_bits()), Ok(()));
}
