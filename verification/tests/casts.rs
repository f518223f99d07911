//! Checked casts across the kind pairs: the promotion, half-promotion and
//! float special-value behaviour, on concrete values.

use cast::Error;
use cast::From;
use cast::floatbits::i16_from_f32_bits;
use cast::floatbits::i32_from_f32_bits;
use cast::floatbits::i64_from_f32_bits;
use cast::floatbits::i8_from_f32_bits;
use cast::floatbits::narrow_f64_to_f32_check;
use cast::floatbits::promote_f32_bits_to_f64_bits;
use cast::floatbits::u16_from_f32_bits;
use cast::floatbits::u32_from_f32_bits;
use cast::floatbits::u64_from_f32_bits;
use cast::floatbits::u8_from_f32_bits;
use cast::floatbits::u8_from_f64_bits;

#[test]
fn promotion() {
    assert_eq!(i8::cast(0i8), 0i8);
    assert_eq!(i16::cast(0i8), 0i16);
    assert_eq!(i32::cast(0i8), 0i32);
    assert_eq!(i64::cast(0i8), 0i64);

    assert_eq!(i16::cast(0i16), 0i16);
    assert_eq!(i32::cast(0i16), 0i32);
    assert_eq!(i64::cast(0i16), 0i64);

    assert_eq!(i32::cast(0i32), 0i32);
    assert_eq!(i64::cast(0i32), 0i64);

    assert_eq!(i64::cast(0i64), 0i64);

    assert_eq!(u8::cast(0u8), 0u8);
    assert_eq!(u16::cast(0u8), 0u16);
    assert_eq!(u32::cast(0u8), 0u32);
    assert_eq!(u64::cast(0u8), 0u64);
    assert_eq!(i16::cast(0u8), 0i16);
    assert_eq!(i32::cast(0u8), 0i32);
    assert_eq!(i64::cast(0u8), 0i64);

    assert_eq!(u16::cast(0u16), 0u16);
    assert_eq!(u32::cast(0u16), 0u32);
    assert_eq!(u64::cast(0u16), 0u64);
    assert_eq!(i32::cast(0u16), 0i32);
    assert_eq!(i64::cast(0u16), 0i64);

    assert_eq!(u32::cast(0u32), 0u32);
    assert_eq!(u64::cast(0u32), 0u64);
    assert_eq!(i64::cast(0u32), 0i64);

    assert_eq!(u64::cast(0u64), 0u64);

    // The float-to-float widening runs on the bit pattern; the identity
    // promotions of a float kind to itself are the values unchanged.
    assert_eq!(0f32 as f32, 0f32);
    assert_eq!(f64::from_bits(promote_f32_bits_to_f64_bits(0f32.to_bits())), 0f64);

    assert_eq!(0f64 as f64, 0f64);
}

#[test]
fn half_promotion() {
    assert_eq!(u8::cast(1i8), Ok(1u8));
    assert_eq!(u16::cast(1i8), Ok(1u16));
    assert_eq!(u32::cast(1i8), Ok(1u32));
    assert_eq!(u64::cast(1i8), Ok(1u64));

    assert_eq!(u8::cast(-1i8), Err(Error::Underflow));
    assert_eq!(u16::cast(-1i8), Err(Error::Underflow));
    assert_eq!(u32::cast(-1i8), Err(Error::Underflow));
    assert_eq!(u64::cast(-1i8), Err(Error::Underflow));

    assert_eq!(u16::cast(1i16), Ok(1u16));
    assert_eq!(u32::cast(1i16), Ok(1u32));
    assert_eq!(u64::cast(1i16), Ok(1u64));

    assert_eq!(u16::cast(-1i16), Err(Error::Underflow));
    assert_eq!(u32::cast(-1i16), Err(Error::Underflow));
    assert_eq!(u64::cast(-1i16), Err(Error::Underflow));

    assert_eq!(u32::cast(1i32), Ok(1u32));
    assert_eq!(u64::cast(1i32), Ok(1u64));

    assert_eq!(u32::cast(-1i32), Err(Error::Underflow));
    assert_eq!(u64::cast(-1i32), Err(Error::Underflow));

    assert_eq!(u64::cast(1i64), Ok(1u64));

    assert_eq!(u64::cast(-1i64), Err(Error::Underflow));
}

#[test]
fn nan() {
    let nan32 = (0f32 / 0f32).to_bits();
    assert_eq!(u8_from_f32_bits(nan32), Err(Error::NaN));
    assert_eq!(u16_from_f32_bits(nan32), Err(Error::NaN));
    assert_eq!(u32_from_f32_bits(nan32), Err(Error::NaN));
    assert_eq!(u64_from_f32_bits(nan32), Err(Error::NaN));
    assert_eq!(i8_from_f32_bits(nan32), Err(Error::NaN));
    assert_eq!(i16_from_f32_bits(nan32), Err(Error::NaN));
    assert_eq!(i32_from_f32_bits(nan32), Err(Error::NaN));
    assert_eq!(i64_from_f32_bits(nan32), Err(Error::NaN));

    assert!(((0f32 / 0f32) as f32).is_nan());
    assert!(((0f32 / 0f32) as f64).is_nan());

    let nan64 = (0f64 / 0f64).to_bits();
    assert_eq!(narrow_f64_to_f32_check(nan64), Ok(()));
    assert!(((0f64 / 0f64) as f32).is_nan());
    assert!(((0f64 / 0f64) as f64).is_nan());
}

#[test]
fn neg_inf() {
    assert_eq!((-1f32 / 0f32) as f32, -1f32 / 0f32);
    assert_eq!((-1f32 / 0f32) as f64, -1f64 / 0f64);

    let ninf64 = (-1f64 / 0f64).to_bits();
    assert_eq!(narrow_f64_to_f32_check(ninf64), Ok(()));
    assert_eq!((-1f64 / 0f64) as f32, -1f32 / 0f32);
    assert_eq!((-1f64 / 0f64) as f64, -1f64 / 0f64);
}

#[test]
fn plus_inf() {
    assert_eq!((1f32 / 0f32) as f32, 1f32 / 0f32);
    assert_eq!((1f32 / 0f32) as f64, 1f64 / 0f64);

    let pinf64 = (1f64 / 0f64).to_bits();
    assert_eq!(narrow_f64_to_f32_check(pinf64), Ok(()));
    assert_eq!((1f64 / 0f64) as f32, 1f32 / 0f32);
    assert_eq!((1f64 / 0f64) as f64, 1f64 / 0f64);
}

#[test]
fn scenario_negative_to_unsigned() {
    assert_eq!(u8::cast(-1i8), Err(Error::Underflow));
}

#[test]
fn scenario_overflowing_narrowing() {
    assert_eq!(u8::cast(256i16), Err(Error::Overflow));
}

#[test]
fn scenario_in_range_narrowing() {
    assert_eq!(u8::cast(127i8), Ok(127u8));
}

#[test]
fn scenario_nan_to_integer() {
    assert_eq!(u8_from_f32_bits((0.0f32 / 0.0f32).to_bits()), Err(Error::NaN));
}

#[test]
fn scenario_infinity_to_integer() {
    assert_eq!(u8_from_f32_bits((1.0f32 / 0.0f32).to_bits()), Err(Error::Infinite));
}

#[test]
fn scenario_infinity_narrowed_to_f32() {
    assert_eq!(narrow_f64_to_f32_check((1.0f64 / 0.0f64).to_bits()), Ok(()));
    assert_eq!((1.0f64 / 0.0f64) as f32, f32::INFINITY);
}

#[test]
fn scenario_infallible_promotion() {
    assert_eq!(u16::cast(0u8), 0u16);
}

#[test]
fn negative_zero_to_integer() {
    // The negative-zero bit pattern is not below zero: it casts to 0.
    assert_eq!(u8_from_f64_bits((-0.0f64).to_bits()), Ok(0u8));
}
