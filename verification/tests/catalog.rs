//! The type catalog, the classification table and the integer evaluator on
//! concrete values.

use cast::Error;
use cast::From;
use cast::classify::CastCategory;
use cast::classify::classify;
use cast::eval::cast_int;
use cast::kinds::PlatformWidth;
use cast::kinds::ScalarKind;
use cast::kinds::native_width;

const ALL_KINDS: [ScalarKind; 12] = [
    ScalarKind::I8,
    ScalarKind::I16,
    ScalarKind::I32,
    ScalarKind::I64,
    ScalarKind::U8,
    ScalarKind::U16,
    ScalarKind::U32,
    ScalarKind::U64,
    ScalarKind::F32,
    ScalarKind::F64,
    ScalarKind::NativeInt,
    ScalarKind::NativeUint,
];

#[test]
fn classification_is_total() {
    // Every ordered pair of the twelve kinds, resolved under either platform
    // width, classifies without a panic into one of the six categories.
    for w in [PlatformWidth::W32, PlatformWidth::W64] {
        for s in ALL_KINDS {
            for d in ALL_KINDS {
                let _ = classify(s.resolve(w), d.resolve(w));
            }
        }
    }
}

#[test]
fn classification_samples() {
    assert_eq!(classify(ScalarKind::I8, ScalarKind::I16), CastCategory::Promotion);
    assert_eq!(classify(ScalarKind::U8, ScalarKind::I16), CastCategory::Promotion);
    assert_eq!(classify(ScalarKind::I64, ScalarKind::F32), CastCategory::Promotion);
    assert_eq!(classify(ScalarKind::I8, ScalarKind::U8), CastCategory::HalfPromotion);
    assert_eq!(classify(ScalarKind::I32, ScalarKind::U64), CastCategory::HalfPromotion);
    assert_eq!(classify(ScalarKind::U16, ScalarKind::I16), CastCategory::NarrowFromUnsigned);
    assert_eq!(classify(ScalarKind::U64, ScalarKind::U32), CastCategory::NarrowFromUnsigned);
    assert_eq!(classify(ScalarKind::I16, ScalarKind::I8), CastCategory::NarrowFromSigned);
    assert_eq!(classify(ScalarKind::I64, ScalarKind::U32), CastCategory::NarrowFromSigned);
    assert_eq!(classify(ScalarKind::F32, ScalarKind::U8), CastCategory::FromFloat);
    assert_eq!(classify(ScalarKind::F64, ScalarKind::I64), CastCategory::FromFloat);
    assert_eq!(classify(ScalarKind::F64, ScalarKind::F32), CastCategory::FloatNarrow);
    assert_eq!(classify(ScalarKind::F32, ScalarKind::F64), CastCategory::Promotion);
    assert_eq!(classify(ScalarKind::F32, ScalarKind::F32), CastCategory::Promotion);
}

#[test]
fn native_kinds_resolve() {
    assert_eq!(ScalarKind::NativeInt.resolve(PlatformWidth::W32), ScalarKind::I32);
    assert_eq!(ScalarKind::NativeInt.resolve(PlatformWidth::W64), ScalarKind::I64);
    assert_eq!(ScalarKind::NativeUint.resolve(PlatformWidth::W32), ScalarKind::U32);
    assert_eq!(ScalarKind::NativeUint.resolve(PlatformWidth::W64), ScalarKind::U64);
    assert_eq!(ScalarKind::I8.resolve(PlatformWidth::W32), ScalarKind::I8);
    assert_eq!(ScalarKind::F64.resolve(PlatformWidth::W64), ScalarKind::F64);
    let w = native_width();
    if usize::BITS == 32 {
        assert_eq!(w, PlatformWidth::W32);
    } else {
        assert_eq!(w, PlatformWidth::W64);
    }
}

#[test]
fn ranges_are_exact() {
    assert_eq!(ScalarKind::I8.range_of(), (-128, 127));
    assert_eq!(ScalarKind::I16.range_of(), (-32768, 32767));
    assert_eq!(ScalarKind::I32.range_of(), (-2147483648, 2147483647));
    assert_eq!(ScalarKind::I64.range_of(), (i64::MIN as i128, i64::MAX as i128));
    assert_eq!(ScalarKind::U8.range_of(), (0, 255));
    assert_eq!(ScalarKind::U16.range_of(), (0, 65535));
    assert_eq!(ScalarKind::U32.range_of(), (0, 4294967295));
    assert_eq!(ScalarKind::U64.range_of(), (0, u64::MAX as i128));
}

#[test]
fn evaluator_boundaries() {
    // At exactly the destination's bounds the cast succeeds; one step
    // outside it fails with the matching error kind.
    let pairs = [
        (ScalarKind::I64, ScalarKind::I8),
        (ScalarKind::I64, ScalarKind::I16),
        (ScalarKind::I64, ScalarKind::I32),
        (ScalarKind::I64, ScalarKind::U8),
        (ScalarKind::I64, ScalarKind::U16),
        (ScalarKind::I64, ScalarKind::U32),
        (ScalarKind::U64, ScalarKind::U8),
    ];
    for (s, d) in pairs {
        let (min, max) = d.range_of();
        if s == ScalarKind::I64 || min >= 0 {
            assert_eq!(cast_int(s, d, min), Ok(min));
        }
        assert_eq!(cast_int(s, d, max), Ok(max));
        if s == ScalarKind::I64 && min > ScalarKind::I64.range_of().0 {
            assert_eq!(cast_int(s, d, min - 1), Err(Error::Underflow));
        }
        assert_eq!(cast_int(s, d, max + 1), Err(Error::Overflow));
    }
    // The signed bound of a signed destination, from an unsigned source
    // kind, lies below that source's own range; only the upper boundary
    // applies there.
    assert_eq!(cast_int(ScalarKind::U64, ScalarKind::I8, 127), Ok(127));
    assert_eq!(cast_int(ScalarKind::U64, ScalarKind::I8, 128), Err(Error::Overflow));
    // An unsigned source below an unsigned destination's minimum does not
    // exist; a signed one step below zero underflows.
    assert_eq!(cast_int(ScalarKind::I64, ScalarKind::U32, -1), Err(Error::Underflow));
}

#[test]
fn promotion_round_trips() {
    // A promoted value casts back to its source kind unchanged.
    assert_eq!(i64::cast(200u8), 200i64);
    assert_eq!(u8::cast(200i64), Ok(200u8));
    assert_eq!(i32::cast(-30000i16), -30000i32);
    assert_eq!(i16::cast(-30000i32), Ok(-30000i16));
    assert_eq!(u64::cast(7u16), 7u64);
    assert_eq!(u16::cast(7u64), Ok(7u16));
}

#[test]
fn narrowing_round_trips() {
    // An in-range narrowing keeps the value, and widening it back
    // reproduces the source exactly.
    assert_eq!(i8::cast(-128i64), Ok(-128i8));
    assert_eq!(i64::cast(-128i8), -128i64);
    assert_eq!(u16::cast(65535u64), Ok(65535u16));
    assert_eq!(u64::cast(65535u16), 65535u64);
    assert_eq!(u8::cast(100i64), Ok(100u8));
    assert_eq!(i64::cast(100u8), 100i64);
}

#[test]
fn native_width_casts() {
    assert_eq!(usize::cast(5u8), 5usize);
    assert_eq!(isize::cast(-9i16), -9isize);
    assert_eq!(usize::cast(-1i8), Err(Error::Underflow));
    assert_eq!(usize::cast(40000u16), 40000usize);
    assert_eq!(isize::cast(-1i64), Ok(-1isize));
    assert_eq!(u64::cast(3usize), 3u64);
    assert_eq!(i8::cast(-77isize), Ok(-77i8));
    assert_eq!(i8::cast(1000isize), Err(Error::Overflow));
    assert_eq!(u32::cast(77usize), Ok(77u32));
}
