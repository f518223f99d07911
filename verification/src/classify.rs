//! Classification of an ordered pair of concrete scalar kinds into one of the
//! six conversion categories.
//!
//! The classification is a pure, total function of the two kinds: it never
//! depends on a runtime value, and every ordered pair of concrete kinds falls
//! into exactly one category.

use vstd::prelude::*;

use crate::kinds::ScalarKind;
use crate::kinds::PlatformWidth;

verus! {

/// The six conversion categories.  Which one applies to a conversion is a
/// function of the (source kind, destination kind) pair alone, with native
/// kinds already resolved.
#[derive(Clone, Copy, Debug, PartialEq, Eq, Structural)]
pub enum CastCategory {
    /// Every source value is representable exactly in the destination
    /// (integer widening to a float counts as such by design precedent,
    /// even where the float's mantissa is narrower than the integer).
    Promotion,
    /// Signed integer to an unsigned integer of at least the same width:
    /// every non-negative source value fits, every negative one underflows.
    HalfPromotion,
    /// Unsigned integer to an integer kind that cannot hold its top values.
    NarrowFromUnsigned,
    /// Signed integer to an integer kind with a strictly narrower width.
    NarrowFromSigned,
    /// Float source to any integer destination.
    FromFloat,
    /// The one float-to-float narrowing: 64-bit float to 32-bit float.
    FloatNarrow,
}

/// Condition for `Promotion`: the destination is a float able to take the
/// source (every kind but a 64-bit float converts to every float kind; a
/// 64-bit float only to itself), or an integer kind of the same signedness
/// and at least the source's width, or an unsigned integer widened into a
/// strictly wider signed kind, or the destination equals the source.
pub open spec fn is_promotion_pair(src: ScalarKind, dst: ScalarKind) -> bool
    recommends
        src.is_concrete() && dst.is_concrete(),
{
    ||| (dst.is_float() && !(src is F64 && dst is F32))
    ||| (src.is_signed_int() && dst.is_signed_int() && dst.width() >= src.width())
    ||| (src.is_unsigned_int() && dst.is_unsigned_int() && dst.width() >= src.width())
    ||| (src.is_unsigned_int() && dst.is_signed_int() && dst.width() > src.width())
}

/// Condition for `HalfPromotion`: signed integer source, unsigned integer
/// destination of at least the source's width.
pub open spec fn is_half_promotion_pair(src: ScalarKind, dst: ScalarKind) -> bool
    recommends
        src.is_concrete() && dst.is_concrete(),
{
    src.is_signed_int() && dst.is_unsigned_int() && dst.width() >= src.width()
}

/// Condition for `NarrowFromUnsigned`: unsigned integer source, and an
/// integer destination of strictly smaller width, or a signed destination of
/// no greater width.
pub open spec fn is_narrow_from_unsigned_pair(src: ScalarKind, dst: ScalarKind) -> bool
    recommends
        src.is_concrete() && dst.is_concrete(),
{
    src.is_unsigned_int() && ((dst.is_int() && dst.width() < src.width()) || (
    dst.is_signed_int() && dst.width() <= src.width()))
}

/// Condition for `NarrowFromSigned`: signed integer source, integer
/// destination of strictly smaller width (of either signedness).
pub open spec fn is_narrow_from_signed_pair(src: ScalarKind, dst: ScalarKind) -> bool
    recommends
        src.is_concrete() && dst.is_concrete(),
{
    src.is_signed_int() && dst.is_int() && dst.width() < src.width()
}

/// Condition for `FromFloat`: float source, any integer destination.
pub open spec fn is_from_float_pair(src: ScalarKind, dst: ScalarKind) -> bool
    recommends
        src.is_concrete() && dst.is_concrete(),
{
    src.is_float() && dst.is_int()
}

/// Condition for `FloatNarrow`: exactly the 64-bit float to 32-bit float
/// conversion.
pub open spec fn is_float_narrow_pair(src: ScalarKind, dst: ScalarKind) -> bool {
    src is F64 && dst is F32
}

/// The classification table as a spec-level function.  Defined only over
/// concrete kinds: native-width kinds are resolved before classification.
pub open spec fn spec_classify(src: ScalarKind, dst: ScalarKind) -> CastCategory
    recommends
        src.is_concrete() && dst.is_concrete(),
{
    if dst.is_float() {
        if src is F64 && dst is F32 {
            CastCategory::FloatNarrow
        } else {
            CastCategory::Promotion
        }
    } else if src.is_float() {
        CastCategory::FromFloat
    } else if src.is_signed_int() {
        if dst.is_signed_int() {
            if dst.width() >= src.width() {
                CastCategory::Promotion
            } else {
                CastCategory::NarrowFromSigned
            }
        } else {
            if dst.width() >= src.width() {
                CastCategory::HalfPromotion
            } else {
                CastCategory::NarrowFromSigned
            }
        }
    } else {
        if dst.is_signed_int() {
            if dst.width() > src.width() {
                CastCategory::Promotion
            } else {
                CastCategory::NarrowFromUnsigned
            }
        } else {
            if dst.width() >= src.width() {
                CastCategory::Promotion
            } else {
                CastCategory::NarrowFromUnsigned
            }
        }
    }
}

/// Look up the conversion category for a pair of concrete kinds.
pub fn classify(src: ScalarKind, dst: ScalarKind) -> (c: CastCategory)
    requires
        src.is_concrete(),
        dst.is_concrete(),
    ensures
        c == spec_classify(src, dst),
{
    if dst == ScalarKind::F32 || dst == ScalarKind::F64 {
        if src == ScalarKind::F64 && dst == ScalarKind::F32 {
            CastCategory::FloatNarrow
        } else {
            CastCategory::Promotion
        }
    } else if src == ScalarKind::F32 || src == ScalarKind::F64 {
        CastCategory::FromFloat
    } else {
        let (src_signed, src_width) = int_shape(src);
        let (dst_signed, dst_width) = int_shape(dst);
        if src_signed {
            if dst_signed {
                if dst_width >= src_width {
                    CastCategory::Promotion
                } else {
                    CastCategory::NarrowFromSigned
                }
            } else {
                if dst_width >= src_width {
                    CastCategory::HalfPromotion
                } else {
                    CastCategory::NarrowFromSigned
                }
            }
        } else {
            if dst_signed {
                if dst_width > src_width {
                    CastCategory::Promotion
                } else {
                    CastCategory::NarrowFromUnsigned
                }
            } else {
                if dst_width >= src_width {
                    CastCategory::Promotion
                } else {
                    CastCategory::NarrowFromUnsigned
                }
            }
        }
    }
}

/// Signedness and width of a concrete fixed-width integer kind.
fn int_shape(k: ScalarKind) -> (r: (bool, u32))
    requires
        k.is_concrete(),
        k.is_int(),
    ensures
        r.0 == k.is_signed_int(),
        r.1 as nat == k.width(),
{
    match k {
        ScalarKind::I8 => (true, 8),
        ScalarKind::I16 => (true, 16),
        ScalarKind::I32 => (true, 32),
        ScalarKind::I64 => (true, 64),
        ScalarKind::U8 => (false, 8),
        ScalarKind::U16 => (false, 16),
        ScalarKind::U32 => (false, 32),
        _ => (false, 64),
    }
}

/// Totality and unambiguity of the classification: for every ordered pair of
/// the twelve scalar kinds, under either platform width, the resolved pair
/// satisfies the condition of exactly one of the six categories, and the
/// classifier returns that category.
pub proof fn lemma_classification_total(w: PlatformWidth, src: ScalarKind, dst: ScalarKind)
    ensures
        ({
            let s = src.spec_resolve(w);
            let d = dst.spec_resolve(w);
            let c = spec_classify(s, d);
            &&& s.is_concrete() && d.is_concrete()
            &&& is_promotion_pair(s, d) <==> c is Promotion
            &&& is_half_promotion_pair(s, d) <==> c is HalfPromotion
            &&& is_narrow_from_unsigned_pair(s, d) <==> c is NarrowFromUnsigned
            &&& is_narrow_from_signed_pair(s, d) <==> c is NarrowFromSigned
            &&& is_from_float_pair(s, d) <==> c is FromFloat
            &&& is_float_narrow_pair(s, d) <==> c is FloatNarrow
        }),
{
}

} // verus!
