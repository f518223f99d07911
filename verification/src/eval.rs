//! The cast evaluator for integer sources: classification followed by the
//! category's range check, on a value wide enough to hold every integer kind
//! exactly.

use vstd::prelude::*;

use crate::Error;
use crate::classify::CastCategory;
use crate::classify::classify;
use crate::classify::spec_classify;
use crate::kinds::ScalarKind;

verus! {

/// Outcome of casting the integer value `v` of kind `src` to kind `dst`,
/// as a spec-level function: the value itself on success (an in-range
/// integer cast never alters the value), or the error kind that the
/// category's check reports.  Underflow is checked before overflow.
pub open spec fn spec_cast_int(src: ScalarKind, dst: ScalarKind, v: int) -> Result<int, Error>
    recommends
        src.is_concrete() && src.is_int(),
        dst.is_concrete() && dst.is_int(),
        src.in_range(v),
{
    match spec_classify(src, dst) {
        CastCategory::Promotion => Ok(v),
        CastCategory::HalfPromotion => if v < 0 {
            Err(Error::Underflow)
        } else {
            Ok(v)
        },
        CastCategory::NarrowFromUnsigned => if v > dst.max_value() {
            Err(Error::Overflow)
        } else {
            Ok(v)
        },
        CastCategory::NarrowFromSigned => if v < dst.min_value() {
            Err(Error::Underflow)
        } else if v > dst.max_value() {
            Err(Error::Overflow)
        } else {
            Ok(v)
        },
        _ => Err(Error::NaN),
    }
}

/// `HalfPromotion` check: a negative value underflows an unsigned
/// destination; any other value is representable.
fn check_half_promotion(v: i128) -> (r: Result<i128, Error>)
    ensures
        r == if v < 0 {
            Err::<i128, Error>(Error::Underflow)
        } else {
            Ok::<i128, Error>(v)
        },
{
    if v < 0 {
        Err(Error::Underflow)
    } else {
        Ok(v)
    }
}

/// `NarrowFromUnsigned` check: the source is never negative, so only the
/// destination's maximum can be exceeded.
fn check_narrow_from_unsigned(v: i128, max: i128) -> (r: Result<i128, Error>)
    ensures
        r == if v > max {
            Err::<i128, Error>(Error::Overflow)
        } else {
            Ok::<i128, Error>(v)
        },
{
    if v > max {
        Err(Error::Overflow)
    } else {
        Ok(v)
    }
}

/// `NarrowFromSigned` check: underflow of the destination's minimum is
/// reported before overflow of its maximum.
fn check_narrow_from_signed(v: i128, min: i128, max: i128) -> (r: Result<i128, Error>)
    ensures
        r == if v < min {
            Err::<i128, Error>(Error::Underflow)
        } else if v > max {
            Err::<i128, Error>(Error::Overflow)
        } else {
            Ok::<i128, Error>(v)
        },
{
    if v < min {
        Err(Error::Underflow)
    } else if v > max {
        Err(Error::Overflow)
    } else {
        Ok(v)
    }
}

/// Cast the value `v`, representable in the concrete integer kind `src`, to
/// the concrete integer kind `dst`: look the pair's category up and run that
/// category's check.
pub fn cast_int(src: ScalarKind, dst: ScalarKind, v: i128) -> (r: Result<i128, Error>)
    requires
        src.is_concrete() && src.is_int(),
        dst.is_concrete() && dst.is_int(),
        src.in_range(v as int),
    ensures
        match r {
            Ok(out) => spec_cast_int(src, dst, v as int) == Ok::<int, Error>(out as int)
                && dst.in_range(out as int),
            Err(e) => spec_cast_int(src, dst, v as int) == Err::<int, Error>(e),
        },
{
    let (min, max) = dst.range_of();
    match classify(src, dst) {
        CastCategory::Promotion => Ok(v),
        CastCategory::HalfPromotion => check_half_promotion(v),
        CastCategory::NarrowFromUnsigned => check_narrow_from_unsigned(v, max),
        CastCategory::NarrowFromSigned => check_narrow_from_signed(v, min, max),
        _ => {
            proof {
                lemma_promotion_in_range(src, dst, v as int);
            }
            unreached()
        },
    }
}

/// A value representable in an integer source kind whose pair with the
/// destination is a `Promotion` is representable in the destination too:
/// integer promotions are lossless.
proof fn lemma_promotion_in_range(src: ScalarKind, dst: ScalarKind, v: int)
    requires
        src.is_concrete() && src.is_int(),
        dst.is_concrete() && dst.is_int(),
        src.in_range(v),
    ensures
        spec_classify(src, dst) !is FromFloat,
        spec_classify(src, dst) !is FloatNarrow,
        spec_classify(src, dst) is Promotion ==> dst.in_range(v),
        spec_classify(src, dst) is HalfPromotion && v >= 0 ==> dst.in_range(v),
{
}

/// Casting between concrete integer kinds succeeds, with the value kept
/// exactly, whenever the value is representable in the destination --
/// whatever the category of the pair.
pub proof fn lemma_cast_exact_when_representable(src: ScalarKind, dst: ScalarKind, v: int)
    requires
        src.is_concrete() && src.is_int(),
        dst.is_concrete() && dst.is_int(),
        src.in_range(v),
        dst.in_range(v),
    ensures
        spec_cast_int(src, dst, v) == Ok::<int, Error>(v),
{
}

/// Promotion between integer kinds is lossless and infallible, and casting
/// the result back to the source kind reproduces the original value exactly.
pub proof fn lemma_promotion_round_trip(src: ScalarKind, dst: ScalarKind, v: int)
    requires
        src.is_concrete() && src.is_int(),
        dst.is_concrete() && dst.is_int(),
        spec_classify(src, dst) is Promotion,
        src.in_range(v),
    ensures
        spec_cast_int(src, dst, v) == Ok::<int, Error>(v),
        spec_cast_int(dst, src, v) == Ok::<int, Error>(v),
{
    lemma_promotion_in_range(src, dst, v);
    lemma_cast_exact_when_representable(src, dst, v);
    lemma_cast_exact_when_representable(dst, src, v);
}

/// Round trip for in-range narrowing: when the value of a narrowing cast lies
/// within the destination's bounds, the cast succeeds with the value itself,
/// and casting the result back to the (wider) source kind reproduces it.
pub proof fn lemma_narrowing_round_trip(src: ScalarKind, dst: ScalarKind, v: int)
    requires
        src.is_concrete() && src.is_int(),
        dst.is_concrete() && dst.is_int(),
        spec_classify(src, dst) is NarrowFromSigned || spec_classify(src, dst)
            is NarrowFromUnsigned,
        src.in_range(v),
        dst.in_range(v),
    ensures
        spec_cast_int(src, dst, v) == Ok::<int, Error>(v),
        spec_cast_int(dst, src, v) == Ok::<int, Error>(v),
{
    lemma_cast_exact_when_representable(src, dst, v);
    lemma_cast_exact_when_representable(dst, src, v);
}

/// A cast between integer kinds fails exactly on the values outside the
/// destination's range: `Underflow` below its minimum, `Overflow` above its
/// maximum.
pub proof fn lemma_cast_int_errors(src: ScalarKind, dst: ScalarKind, v: int)
    requires
        src.is_concrete() && src.is_int(),
        dst.is_concrete() && dst.is_int(),
        src.in_range(v),
    ensures
        spec_cast_int(src, dst, v) == if v < dst.min_value() {
            Err::<int, Error>(Error::Underflow)
        } else if v > dst.max_value() {
            Err::<int, Error>(Error::Overflow)
        } else {
            Ok::<int, Error>(v)
        },
{
}

/// Boundary exactness: a cast at exactly the destination's minimum or
/// maximum succeeds; one step below the minimum underflows, one step above
/// the maximum overflows (taken in the wider source kind).
pub proof fn lemma_boundary_exactness(src: ScalarKind, dst: ScalarKind)
    requires
        src.is_concrete() && src.is_int(),
        dst.is_concrete() && dst.is_int(),
    ensures
        src.in_range(dst.min_value()) ==> spec_cast_int(src, dst, dst.min_value())
            == Ok::<int, Error>(dst.min_value()),
        src.in_range(dst.max_value()) ==> spec_cast_int(src, dst, dst.max_value())
            == Ok::<int, Error>(dst.max_value()),
        src.in_range(dst.min_value() - 1) ==> spec_cast_int(src, dst, dst.min_value() - 1)
            == Err::<int, Error>(Error::Underflow),
        src.in_range(dst.max_value() + 1) ==> spec_cast_int(src, dst, dst.max_value() + 1)
            == Err::<int, Error>(Error::Overflow),
{
    if src.in_range(dst.min_value()) {
        lemma_cast_int_errors(src, dst, dst.min_value());
    }
    if src.in_range(dst.max_value()) {
        lemma_cast_int_errors(src, dst, dst.max_value());
    }
    if src.in_range(dst.min_value() - 1) {
        lemma_cast_int_errors(src, dst, dst.min_value() - 1);
    }
    if src.in_range(dst.max_value() + 1) {
        lemma_cast_int_errors(src, dst, dst.max_value() + 1);
    }
}

} // verus!
