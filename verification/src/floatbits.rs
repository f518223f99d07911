//! The cast evaluator for floating-point sources, working on IEEE-754 bit
//! patterns.
//!
//! A float kind cannot stand in verified code, but its bit pattern can, and
//! every question the evaluator asks of a float -- is it a NaN, is it an
//! infinity, is it negative, how does its magnitude compare with an integer
//! bound, what is its integer part -- is a pure function of the bits.  A
//! finite value with bit pattern `b` is `(-1)^sign(b) * mantissa(b) *
//! 2^exponent(b)`; for an integer bound `n >= 0` the magnitude `m * 2^e`
//! exceeds `n` exactly when its integer part exceeds `n`, or equals `n` with
//! a fractional part left over.  All checks below are phrased, and proved,
//! in those terms.

use vstd::prelude::*;

use vstd::arithmetic::div_mod::lemma_basic_div;
use vstd::arithmetic::div_mod::lemma_fundamental_div_mod;
use vstd::arithmetic::div_mod::lemma_mod_bound;
use vstd::arithmetic::div_mod::lemma_small_mod;
use vstd::arithmetic::mul::lemma_mul_inequality;
use vstd::arithmetic::mul::lemma_mul_inequality_converse;
use vstd::arithmetic::power2::lemma_pow2_adds;
use vstd::arithmetic::power2::lemma_pow2_pos;
use vstd::arithmetic::power2::lemma_pow2_strictly_increases;
use vstd::arithmetic::power2::lemma_pow2_unfold;
use vstd::arithmetic::power2::lemma2_to64;
use vstd::arithmetic::power2::lemma2_to64_rest;
use vstd::arithmetic::power2::pow2;

use crate::Error;
use crate::kinds::ScalarKind;

verus! {

/// Sign bit of a 64-bit float's bit pattern.
pub open spec fn f64_sign(b: u64) -> bool {
    (b >> 63) == 1
}

/// Biased exponent field (11 bits) of a 64-bit float's bit pattern.
pub open spec fn f64_exp_field(b: u64) -> u64 {
    (b >> 52) & 0x7ff
}

/// Fraction field (52 bits) of a 64-bit float's bit pattern.
pub open spec fn f64_frac_field(b: u64) -> u64 {
    b & 0xf_ffff_ffff_ffff
}

/// A 64-bit float is a NaN when its exponent field is all ones and its
/// fraction field is not zero.
pub open spec fn f64_is_nan(b: u64) -> bool {
    f64_exp_field(b) == 0x7ff && f64_frac_field(b) != 0
}

/// A 64-bit float is an infinity when its exponent field is all ones and its
/// fraction field is zero.
pub open spec fn f64_is_infinite(b: u64) -> bool {
    f64_exp_field(b) == 0x7ff && f64_frac_field(b) == 0
}

/// Integer significand of a finite 64-bit float: the fraction field, with
/// the hidden bit added for normal values.
pub open spec fn f64_mantissa(b: u64) -> u64 {
    if f64_exp_field(b) == 0 {
        f64_frac_field(b)
    } else {
        (f64_frac_field(b) + 0x10_0000_0000_0000) as u64
    }
}

/// Power-of-two exponent of a finite 64-bit float, so that its magnitude is
/// exactly `f64_mantissa(b) * 2^f64_exponent(b)`.
pub open spec fn f64_exponent(b: u64) -> int {
    if f64_exp_field(b) == 0 {
        -1074
    } else {
        f64_exp_field(b) - 1075
    }
}

/// Sign bit of a 32-bit float's bit pattern.
pub open spec fn f32_sign(b: u32) -> bool {
    (b >> 31) == 1
}

/// Biased exponent field (8 bits) of a 32-bit float's bit pattern.
pub open spec fn f32_exp_field(b: u32) -> u32 {
    (b >> 23) & 0xff
}

/// Fraction field (23 bits) of a 32-bit float's bit pattern.
pub open spec fn f32_frac_field(b: u32) -> u32 {
    b & 0x7f_ffff
}

/// A 32-bit float is a NaN when its exponent field is all ones and its
/// fraction field is not zero.
pub open spec fn f32_is_nan(b: u32) -> bool {
    f32_exp_field(b) == 0xff && f32_frac_field(b) != 0
}

/// A 32-bit float is an infinity when its exponent field is all ones and its
/// fraction field is zero.
pub open spec fn f32_is_infinite(b: u32) -> bool {
    f32_exp_field(b) == 0xff && f32_frac_field(b) == 0
}

/// Integer significand of a finite 32-bit float.
pub open spec fn f32_mantissa(b: u32) -> u64 {
    if f32_exp_field(b) == 0 {
        f32_frac_field(b) as u64
    } else {
        (f32_frac_field(b) + 0x80_0000) as u64
    }
}

/// Power-of-two exponent of a finite 32-bit float, so that its magnitude is
/// exactly `f32_mantissa(b) * 2^f32_exponent(b)`.
pub open spec fn f32_exponent(b: u32) -> int {
    if f32_exp_field(b) == 0 {
        -149
    } else {
        f32_exp_field(b) - 150
    }
}

/// Integer part of the magnitude `m * 2^e`: the magnitude itself for a
/// non-negative exponent, its floor otherwise.
pub open spec fn mag_floor(m: u64, e: int) -> int {
    if e >= 0 {
        m * pow2(e as nat)
    } else {
        m as int / pow2((-e) as nat) as int
    }
}

/// Whether the magnitude `m * 2^e` is an integer, with no fractional part.
pub open spec fn mag_is_integral(m: u64, e: int) -> bool {
    e >= 0 || m as int % pow2((-e) as nat) as int == 0
}

/// Whether the magnitude `m * 2^e` strictly exceeds the integer bound
/// `n >= 0`: its integer part exceeds `n`, or equals `n` with a fractional
/// part left over.
pub open spec fn mag_exceeds(m: u64, e: int, n: int) -> bool {
    mag_floor(m, e) > n || (mag_floor(m, e) == n && !mag_is_integral(m, e))
}

/// Outcome of casting a float source, decomposed into its special-value
/// flags, sign and magnitude `m * 2^e`, to the concrete integer kind `dst`.
/// The checks run in this order: NaN, infinity, underflow of the
/// destination's minimum, overflow of its maximum; what remains succeeds
/// with the source truncated toward zero.  A negative source underflows
/// exactly when its magnitude exceeds `-min`, and can never overflow; a
/// non-negative source overflows exactly when its magnitude exceeds `max`,
/// and can never underflow.
pub open spec fn spec_from_float(
    is_nan: bool,
    is_inf: bool,
    neg: bool,
    m: u64,
    e: int,
    dst: ScalarKind,
) -> Result<int, Error>
    recommends
        dst.is_concrete() && dst.is_int(),
{
    if is_nan {
        Err(Error::NaN)
    } else if is_inf {
        Err(Error::Infinite)
    } else if neg && mag_exceeds(m, e, -dst.min_value()) {
        Err(Error::Underflow)
    } else if !neg && mag_exceeds(m, e, dst.max_value()) {
        Err(Error::Overflow)
    } else {
        Ok(if neg { -mag_floor(m, e) } else { mag_floor(m, e) })
    }
}

/// Outcome of casting the 64-bit float with bit pattern `b` to the concrete
/// integer kind `dst`.
pub open spec fn spec_cast_f64_to_int(b: u64, dst: ScalarKind) -> Result<int, Error>
    recommends
        dst.is_concrete() && dst.is_int(),
{
    spec_from_float(
        f64_is_nan(b),
        f64_is_infinite(b),
        f64_sign(b),
        f64_mantissa(b),
        f64_exponent(b),
        dst,
    )
}

/// Outcome of casting the 32-bit float with bit pattern `b` to the concrete
/// integer kind `dst`.
pub open spec fn spec_cast_f32_to_int(b: u32, dst: ScalarKind) -> Result<int, Error>
    recommends
        dst.is_concrete() && dst.is_int(),
{
    spec_from_float(
        f32_is_nan(b),
        f32_is_infinite(b),
        f32_sign(b),
        f32_mantissa(b),
        f32_exponent(b),
        dst,
    )
}

/// Largest finite 32-bit float, an exact integer: `(2^24 - 1) * 2^104`.
pub open spec fn f32_max_int() -> int {
    0xff_ffff * pow2(104) as int
}

/// Outcome of the narrowing check from a 64-bit float with bit pattern `b`
/// to a 32-bit float.  A NaN or infinity is representable in the narrower
/// kind and passes; a finite value fails with `Underflow` below the lowest
/// finite 32-bit float (`-f32_max_int()`) and with `Overflow` above the
/// largest (`f32_max_int()`); everything between passes, to be rounded to
/// the nearest 32-bit float.
pub open spec fn spec_narrow_f64_to_f32(b: u64) -> Result<(), Error> {
    if f64_is_nan(b) || f64_is_infinite(b) {
        Ok(())
    } else if f64_sign(b) && mag_exceeds(f64_mantissa(b), f64_exponent(b), f32_max_int()) {
        Err(Error::Underflow)
    } else if !f64_sign(b) && mag_exceeds(f64_mantissa(b), f64_exponent(b), f32_max_int()) {
        Err(Error::Overflow)
    } else {
        Ok(())
    }
}

/// The value of 2 to the 128th power.
proof fn lemma_pow2_128()
    ensures
        pow2(128) == 0x1_0000_0000_0000_0000_0000_0000_0000_0000,
{
    lemma2_to64_rest();
    lemma_pow2_adds(64, 64);
}

/// 2 to the power `n`, computed by repeated doubling.
fn pow2_u128(n: u32) -> (r: u128)
    requires
        n < 128,
    ensures
        r as nat == pow2(n as nat),
        r >= 1,
{
    proof {
        lemma2_to64();
    }
    let mut r: u128 = 1;
    let mut i: u32 = 0;
    while i < n
        invariant
            i <= n < 128,
            r as nat == pow2(i as nat),
        decreases n - i,
    {
        proof {
            lemma_pow2_adds(i as nat, 1);
            lemma2_to64();
            if i + 1 < 128 {
                lemma_pow2_strictly_increases((i + 1) as nat, 128);
            }
            lemma_pow2_128();
        }
        r = r * 2;
        i = i + 1;
    }
    proof {
        lemma_pow2_pos(n as nat);
    }
    r
}

/// Integer part of the magnitude `m * 2^e`, with its fractional and
/// too-large-to-hold flags.
struct MagFloor {
    /// The integer part, when it fits.
    floor: u128,
    /// Whether a fractional part was cut off.
    frac: bool,
    /// Whether the magnitude is too large for the field `floor`; every
    /// integer bound a destination kind can have is then exceeded.
    huge: bool,
}

/// Compute the integer part of the magnitude `m * 2^e` and whether a
/// fractional part was cut off, saturating above `u128::MAX`.
fn mag_floor_exec(m: u64, e: i32) -> (r: MagFloor)
    requires
        -1074 <= e <= 972,
    ensures
        !r.huge ==> r.floor as int == mag_floor(m, e as int),
        !r.huge ==> (r.frac <==> !mag_is_integral(m, e as int)),
        r.huge ==> mag_floor(m, e as int) > u128::MAX && mag_is_integral(m, e as int),
{
    if m == 0 {
        proof {
            if e >= 0 {
                assert(0nat * pow2(e as nat) == 0) by (nonlinear_arith);
            } else {
                lemma_pow2_pos((-e) as nat);
            }
        }
        MagFloor { floor: 0, frac: false, huge: false }
    } else if e >= 0 {
        let eu = e as u32;
        if eu >= 128 {
            proof {
                if eu > 128 {
                    lemma_pow2_strictly_increases(128, eu as nat);
                }
                lemma_pow2_128();
                lemma_mul_inequality(1, m as int, pow2(eu as nat) as int);
                assert(1 * pow2(eu as nat) as int == pow2(eu as nat) as int);
            }
            MagFloor { floor: 0, frac: false, huge: true }
        } else {
            let p = pow2_u128(eu);
            if (m as u128) > u128::MAX / p {
                proof {
                    let q = u128::MAX as int / p as int;
                    lemma_fundamental_div_mod(u128::MAX as int, p as int);
                    lemma_mod_bound(u128::MAX as int, p as int);
                    lemma_mul_inequality(q + 1, m as int, p as int);
                    assert((q + 1) * p as int == q * p as int + p as int) by (nonlinear_arith);
                }
                MagFloor { floor: 0, frac: false, huge: true }
            } else {
                proof {
                    lemma_fundamental_div_mod(u128::MAX as int, p as int);
                    lemma_mul_inequality(
                        m as int,
                        u128::MAX as int / p as int,
                        p as int,
                    );
                }
                MagFloor { floor: (m as u128) * p, frac: false, huge: false }
            }
        }
    } else {
        let s = (-e) as u32;
        if s >= 128 {
            proof {
                lemma_pow2_strictly_increases(64, s as nat);
                lemma2_to64_rest();
                lemma_basic_div(m as int, pow2(s as nat) as int);
                lemma_small_mod(m as nat, pow2(s as nat));
            }
            MagFloor { floor: 0, frac: true, huge: false }
        } else {
            let p = pow2_u128(s);
            proof {
                lemma_pow2_pos(s as nat);
            }
            MagFloor { floor: (m as u128) / p, frac: (m as u128) % p != 0, huge: false }
        }
    }
}

/// Cast a float source, decomposed into its special-value flags, sign and
/// magnitude `m * 2^e`, to the concrete integer kind `dst`, running the
/// `FromFloat` checks in order: NaN, infinity, underflow, overflow.
pub fn cast_float_parts_to_int(
    is_nan: bool,
    is_inf: bool,
    neg: bool,
    m: u64,
    e: i32,
    dst: ScalarKind,
) -> (r: Result<i128, Error>)
    requires
        dst.is_concrete() && dst.is_int(),
        -1074 <= e <= 972,
    ensures
        match r {
            Ok(v) => spec_from_float(is_nan, is_inf, neg, m, e as int, dst) == Ok::<int, Error>(
                v as int,
            ) && dst.in_range(v as int),
            Err(err) => spec_from_float(is_nan, is_inf, neg, m, e as int, dst) == Err::<
                int,
                Error,
            >(err),
        },
{
    if is_nan {
        return Err(Error::NaN);
    }
    if is_inf {
        return Err(Error::Infinite);
    }
    let mf = mag_floor_exec(m, e);
    let (min, max) = dst.range_of();
    if neg {
        let bound = (-min) as u128;
        if mf.huge || mf.floor > bound || (mf.floor == bound && mf.frac) {
            Err(Error::Underflow)
        } else {
            Ok(-(mf.floor as i128))
        }
    } else {
        let bound = max as u128;
        if mf.huge || mf.floor > bound || (mf.floor == bound && mf.frac) {
            Err(Error::Overflow)
        } else {
            Ok(mf.floor as i128)
        }
    }
}

/// Bounds of the bit fields of a 64-bit float's pattern.
proof fn lemma_f64_fields(b: u64)
    ensures
        f64_exp_field(b) <= 0x7ff,
        f64_frac_field(b) <= 0xf_ffff_ffff_ffff,
        ((b >> 63) == 0 || (b >> 63) == 1),
{
    assert((b >> 52) & 0x7ff <= 0x7ff) by (bit_vector);
    assert(b & 0xf_ffff_ffff_ffff <= 0xf_ffff_ffff_ffff) by (bit_vector);
    assert((b >> 63) == 0 || (b >> 63) == 1) by (bit_vector);
}

/// Bounds of the bit fields of a 32-bit float's pattern.
proof fn lemma_f32_fields(b: u32)
    ensures
        f32_exp_field(b) <= 0xff,
        f32_frac_field(b) <= 0x7f_ffff,
        ((b >> 31) == 0 || (b >> 31) == 1),
{
    assert((b >> 23) & 0xff <= 0xff) by (bit_vector);
    assert(b & 0x7f_ffff <= 0x7f_ffff) by (bit_vector);
    assert((b >> 31) == 0 || (b >> 31) == 1) by (bit_vector);
}

/// Cast the 64-bit float with bit pattern `b` to the concrete integer kind
/// `dst`.
pub fn cast_f64_bits_to_int(b: u64, dst: ScalarKind) -> (r: Result<i128, Error>)
    requires
        dst.is_concrete() && dst.is_int(),
    ensures
        match r {
            Ok(v) => spec_cast_f64_to_int(b, dst) == Ok::<int, Error>(v as int) && dst.in_range(
                v as int,
            ),
            Err(err) => spec_cast_f64_to_int(b, dst) == Err::<int, Error>(err),
        },
{
    proof {
        lemma_f64_fields(b);
    }
    let exp_field = (b >> 52) & 0x7ff;
    let frac = b & 0xf_ffff_ffff_ffff;
    let neg = (b >> 63) == 1;
    let is_nan = exp_field == 0x7ff && frac != 0;
    let is_inf = exp_field == 0x7ff && frac == 0;
    let m = if exp_field == 0 {
        frac
    } else {
        frac + 0x10_0000_0000_0000
    };
    let e = if exp_field == 0 {
        -1074i32
    } else {
        exp_field as i32 - 1075
    };
    cast_float_parts_to_int(is_nan, is_inf, neg, m, e, dst)
}

/// Cast the 32-bit float with bit pattern `b` to the concrete integer kind
/// `dst`.
pub fn cast_f32_bits_to_int(b: u32, dst: ScalarKind) -> (r: Result<i128, Error>)
    requires
        dst.is_concrete() && dst.is_int(),
    ensures
        match r {
            Ok(v) => spec_cast_f32_to_int(b, dst) == Ok::<int, Error>(v as int) && dst.in_range(
                v as int,
            ),
            Err(err) => spec_cast_f32_to_int(b, dst) == Err::<int, Error>(err),
        },
{
    proof {
        lemma_f32_fields(b);
    }
    let exp_field = (b >> 23) & 0xff;
    let frac = b & 0x7f_ffff;
    let neg = (b >> 31) == 1;
    let is_nan = exp_field == 0xff && frac != 0;
    let is_inf = exp_field == 0xff && frac == 0;
    let m: u64 = if exp_field == 0 {
        frac as u64
    } else {
        (frac + 0x80_0000) as u64
    };
    let e = if exp_field == 0 {
        -149i32
    } else {
        exp_field as i32 - 150
    };
    cast_float_parts_to_int(is_nan, is_inf, neg, m, e, dst)
}

/// The range check of the one float-to-float narrowing, from the 64-bit
/// float with bit pattern `b` to a 32-bit float.  On success the value is
/// representable (exactly, or by rounding) in the narrower kind; the rounding
/// itself is the host's float conversion and happens outside verified code.
pub fn narrow_f64_to_f32_check(b: u64) -> (r: Result<(), Error>)
    ensures
        r == spec_narrow_f64_to_f32(b),
{
    proof {
        lemma_f64_fields(b);
    }
    let exp_field = (b >> 52) & 0x7ff;
    let frac = b & 0xf_ffff_ffff_ffff;
    let neg = (b >> 63) == 1;
    if exp_field == 0x7ff {
        return Ok(());
    }
    let m = if exp_field == 0 {
        frac
    } else {
        frac + 0x10_0000_0000_0000
    };
    let e = if exp_field == 0 {
        -1074i32
    } else {
        exp_field as i32 - 1075
    };
    let mf = mag_floor_exec(m, e);
    let bound: u128 = 0xffffff00000000000000000000000000;
    proof {
        lemma_pow2_104();
        assert(bound as int == f32_max_int());
    }
    if mf.huge || mf.floor > bound || (mf.floor == bound && mf.frac) {
        if neg {
            Err(Error::Underflow)
        } else {
            Err(Error::Overflow)
        }
    } else {
        Ok(())
    }
}

/// The value of 2 to the 104th power.
proof fn lemma_pow2_104()
    ensures
        pow2(104) == 0x100_0000_0000_0000_0000_0000_0000,
{
    lemma2_to64();
    lemma2_to64_rest();
    lemma_pow2_adds(64, 40);
    assert(pow2(104) == pow2(64) * pow2(40));
    assert((0x1_0000_0000_0000_0000 as int) * (0x100_0000_0000 as int)
        == 0x100_0000_0000_0000_0000_0000_0000 as int) by (nonlinear_arith);
}

/// Float special values: a NaN cast to any integer kind fails with `NaN`; an
/// infinity cast to any integer kind fails with `Infinite`; a NaN or
/// infinity narrowed from a 64-bit to a 32-bit float passes the narrowing
/// check, those values being representable in the narrower kind.
pub proof fn lemma_float_special_values(b64: u64, b32: u32, dst: ScalarKind)
    requires
        dst.is_concrete() && dst.is_int(),
    ensures
        f64_is_nan(b64) ==> spec_cast_f64_to_int(b64, dst) == Err::<int, Error>(Error::NaN),
        f64_is_infinite(b64) ==> spec_cast_f64_to_int(b64, dst) == Err::<int, Error>(
            Error::Infinite,
        ),
        f32_is_nan(b32) ==> spec_cast_f32_to_int(b32, dst) == Err::<int, Error>(Error::NaN),
        f32_is_infinite(b32) ==> spec_cast_f32_to_int(b32, dst) == Err::<int, Error>(
            Error::Infinite,
        ),
        f64_is_nan(b64) || f64_is_infinite(b64) ==> spec_narrow_f64_to_f32(b64) == Ok::<
            (),
            Error,
        >(()),
{
}

/// The magnitude `m * 2^e` scaled by `2^1074`, turning it into an integer
/// for any exponent a finite float can carry: both float kinds decompose
/// into magnitudes with `e >= -1074`.
pub open spec fn mag_scaled(m: u64, e: int) -> int
    recommends
        e >= -1074,
{
    m * pow2((e + 1074) as nat) as int
}

/// The magnitude `m * 2^e`, with `e >= -1074`, does not exceed the integer
/// bound `n >= 0` whenever its scaled value stays at or below the scaled
/// bound.
proof fn lemma_mag_within_bound(m: u64, e: int, n: int)
    requires
        e >= -1074,
        n >= 0,
        mag_scaled(m, e) <= n * pow2(1074) as int,
    ensures
        !mag_exceeds(m, e, n),
{
    if e >= 0 {
        let pe = pow2(e as nat) as int;
        let pk = pow2(1074) as int;
        lemma_pow2_adds(e as nat, 1074);
        lemma_pow2_pos(1074);
        lemma_pow2_pos(e as nat);
        assert(pow2((e + 1074) as nat) as int == pe * pk);
        assert(m * (pe * pk) == (m * pe) * pk) by (nonlinear_arith);
        assert((m as int * pe) * pk <= n * pk);
        lemma_mul_inequality_converse(m as int * pe, n, pk);
        assert(mag_floor(m, e) == m as int * pe);
    } else {
        let s = (-e) as nat;
        let p = pow2(s) as int;
        let pr = pow2((e + 1074) as nat) as int;
        let q = m as int / p;
        let r = m as int % p;
        lemma_pow2_pos(s);
        lemma_pow2_pos((e + 1074) as nat);
        lemma_fundamental_div_mod(m as int, p);
        lemma_mod_bound(m as int, p);
        // The scaled comparison reduces to m <= n * 2^s.
        lemma_pow2_adds(s, (e + 1074) as nat);
        assert(pow2(1074) as int == p * pr);
        assert((n * p) * pr == n * (p * pr)) by (nonlinear_arith);
        assert(m * pr <= (n * p) * pr);
        lemma_mul_inequality_converse(m as int, n * p, pr);
        assert(m as int <= n * p);
        // With m = q * 2^s + r, 0 <= r < 2^s and m <= n * 2^s, the floor q
        // cannot pass n, and equals n only with nothing cut off.
        assert(m as int == p * q + r);
        if q > n {
            lemma_mul_inequality(n + 1, q, p);
            assert((n + 1) * p == n * p + p) by (nonlinear_arith);
            assert(q * p == p * q) by (nonlinear_arith);
            assert(false);
        }
        if q == n && r != 0 {
            assert(p * q == n * p) by (nonlinear_arith)
                requires
                    q == n,
            ;
            assert(false);
        }
        assert(mag_floor(m, e) == q);
    }
}

/// Losslessly widen a 32-bit float's bit pattern to a 64-bit one: the sign
/// and the special-value classes are kept, and a finite magnitude is kept
/// exactly.
pub fn promote_f32_bits_to_f64_bits(b: u32) -> (r: u64)
    ensures
        f64_sign(r) == f32_sign(b),
        f64_is_nan(r) == f32_is_nan(b),
        f64_is_infinite(r) == f32_is_infinite(b),
        !f32_is_nan(b) && !f32_is_infinite(b) ==> mag_scaled(f64_mantissa(r), f64_exponent(r))
            == mag_scaled(f32_mantissa(b), f32_exponent(b)),
{
    proof {
        lemma_f32_fields(b);
    }
    let sign: u64 = ((b >> 31) as u64) << 63;
    let exp_field = (b >> 23) & 0xff;
    let frac = b & 0x7f_ffff;
    if exp_field == 0xff {
        // NaN keeps a non-zero fraction field; infinity keeps a zero one.
        let fr = (frac as u64) << 29;
        proof {
            assert((frac as u64) << 29 < 0x10_0000_0000_0000 && (((frac as u64) << 29 == 0)
                <==> frac == 0)) by (bit_vector)
                requires
                    frac <= 0x7f_ffff,
            ;
        }
        let r = sign | (0x7ffu64 << 52) | fr;
        proof {
            lemma_widen_fields(b, r, 0x7ff, fr);
        }
        r
    } else if exp_field == 0 {
        if frac == 0 {
            // A signed zero: the widened pattern is the same signed zero.
            let r = sign;
            proof {
                assert(sign == sign | (0u64 << 52) | 0u64) by (bit_vector);
                lemma_widen_fields(b, r, 0, 0);
            }
            r
        } else {
            // A subnormal: its magnitude frac * 2^-149 is a normal 64-bit
            // float; bring the significand up to the hidden-bit form.
            let mut m: u64 = frac as u64;
            let mut e: i32 = -149;
            proof {
                lemma2_to64();
                assert(frac * pow2(0) as int == frac as int) by (nonlinear_arith)
                    requires
                        pow2(0) == 1,
                ;
            }
            while m < 0x10_0000_0000_0000
                invariant
                    1 <= frac <= 0x7f_ffff,
                    1 <= m < 0x20_0000_0000_0000,
                    -201 <= e <= -149,
                    m as int == frac * pow2((-149 - e) as nat) as int,
                decreases 0x20_0000_0000_0000 - m,
            {
                proof {
                    let k = (-149 - e) as nat;
                    lemma_pow2_pos(k);
                    lemma_mul_inequality(1, frac as int, pow2(k) as int);
                    // m >= 2^k and m < 2^52, so k < 52 and e stays above the
                    // smallest exponent this loop can reach.
                    if k >= 52 {
                        if k > 52 {
                            lemma_pow2_strictly_increases(52, k);
                        }
                        lemma2_to64_rest();
                        assert(false);
                    }
                    lemma_pow2_unfold((k + 1) as nat);
                    assert(frac * (2 * pow2(k) as int) == 2 * (frac * pow2(k) as int))
                        by (nonlinear_arith);
                }
                m = m * 2;
                e = e - 1;
            }
            let ef = (e + 1075) as u64;
            let fr = m - 0x10_0000_0000_0000;
            let r = sign | (ef << 52) | fr;
            proof {
                lemma_widen_fields(b, r, ef, fr);
                // The magnitude is unchanged: m * 2^e == frac * 2^-149.
                let k = (-149 - e) as nat;
                lemma_pow2_adds(k, (e + 1074) as nat);
                assert((frac * pow2(k) as int) * pow2((e + 1074) as nat) as int == frac * (pow2(
                    k,
                ) * pow2((e + 1074) as nat)) as int) by (nonlinear_arith);
            }
            r
        }
    } else {
        // A normal value (2^23 + frac) * 2^(exp - 150): re-bias the exponent
        // and shift the fraction into the wider field.
        let fr = (frac as u64) << 29;
        proof {
            assert((frac as u64) << 29 < 0x10_0000_0000_0000 && (frac as u64) << 29 == (
            frac as u64) * 0x2000_0000) by (bit_vector)
                requires
                    frac <= 0x7f_ffff,
            ;
        }
        let ef = (exp_field as u64) + 896;
        let r = sign | (ef << 52) | fr;
        proof {
            lemma_widen_fields(b, r, ef, fr);
            // The magnitude is unchanged:
            // (frac * 2^29 + 2^52) * 2^(e - 29) == (frac + 2^23) * 2^e.
            let en = (exp_field - 150 + 1074) as nat;
            lemma_pow2_adds(29, (en - 29) as nat);
            lemma2_to64();
            lemma_pow2_pos((en - 29) as nat);
            assert((frac * 0x2000_0000 + 0x10_0000_0000_0000) * pow2((en - 29) as nat) as int == (
            frac + 0x80_0000) * (0x2000_0000 * pow2((en - 29) as nat) as int)) by (nonlinear_arith);
        }
        r
    }
}

/// Bit-field extraction of a widened pattern assembled from a sign bit, an
/// exponent field and a fraction field.
proof fn lemma_widen_fields(b: u32, r: u64, ef: u64, fr: u64)
    requires
        ef <= 0x7ff,
        fr < 0x10_0000_0000_0000,
        r == (((b >> 31) as u64) << 63) | (ef << 52) | fr,
    ensures
        f64_sign(r) == f32_sign(b),
        f64_exp_field(r) == ef,
        f64_frac_field(r) == fr,
{
    let s = (b >> 31) as u64;
    assert(s == 0 || s == 1) by (bit_vector)
        requires
            s == (b >> 31) as u64,
    ;
    assert(((s << 63) | (ef << 52) | fr) >> 63 == s && (((s << 63) | (ef << 52) | fr) >> 52)
        & 0x7ff == ef && ((s << 63) | (ef << 52) | fr) & 0xf_ffff_ffff_ffff == fr) by (bit_vector)
        requires
            s == 0 || s == 1,
            ef <= 0x7ff,
            fr < 0x10_0000_0000_0000,
    ;
}

/// The widening promotion between the float kinds is lossless, and what it
/// produces always passes the check of the narrowing that leads back: the
/// round trip gives the value up to nothing.  The pattern `r` is any one
/// that keeps the classes and the magnitude of `b`, as the widening does.
pub proof fn lemma_float_promotion_round_trip(b: u32, r: u64)
    requires
        f64_is_nan(r) == f32_is_nan(b),
        f64_is_infinite(r) == f32_is_infinite(b),
        !f32_is_nan(b) && !f32_is_infinite(b) ==> mag_scaled(f64_mantissa(r), f64_exponent(r))
            == mag_scaled(f32_mantissa(b), f32_exponent(b)),
    ensures
        spec_narrow_f64_to_f32(r) == Ok::<(), Error>(()),
{
    if !f64_is_nan(r) && !f64_is_infinite(r) {
        let m = f32_mantissa(b);
        let e = f32_exponent(b);
        lemma_f32_fields(b);
        lemma_pow2_pos(104);
        lemma_mul_inequality(0, 0xff_ffff, pow2(104) as int);
        // A 32-bit float's magnitude never exceeds the largest finite
        // 32-bit float: m <= 2^24 - 1 and e <= 104.
        assert(m <= 0xff_ffff);
        assert(e <= 104);
        lemma_pow2_adds(104, 1074);
        lemma_pow2_pos((e + 1074) as nat);
        lemma_pow2_pos(1074);
        if e < 104 {
            lemma_pow2_strictly_increases((e + 1074) as nat, 1178);
        }
        lemma_mul_inequality(m as int, 0xff_ffff, pow2((e + 1074) as nat) as int);
        assert(0xff_ffff * pow2((e + 1074) as nat) as int <= 0xff_ffff * pow2(1178) as int)
            by (nonlinear_arith)
            requires
                0 < pow2((e + 1074) as nat) <= pow2(1178),
        ;
        assert(0xff_ffff * pow2(1178) as int == f32_max_int() * pow2(1074) as int)
            by (nonlinear_arith)
            requires
                pow2(1178) == pow2(104) * pow2(1074),
                f32_max_int() == 0xff_ffff * pow2(104) as int,
        ;
        lemma_mag_within_bound(
            f64_mantissa(r),
            f64_exponent(r),
            f32_max_int(),
        );
    }
}


/// Cast the 32-bit float with bit pattern `b` to `i8`.
pub fn i8_from_f32_bits(b: u32) -> (r: Result<i8, Error>)
    ensures
        match r {
            Ok(v) => spec_cast_f32_to_int(b, ScalarKind::I8) == Ok::<int, Error>(v as int),
            Err(e) => spec_cast_f32_to_int(b, ScalarKind::I8) == Err::<int, Error>(e),
        },
{
    match cast_f32_bits_to_int(b, ScalarKind::I8) {
        Ok(v) => Ok(v as i8),
        Err(e) => Err(e),
    }
}

/// Cast the 32-bit float with bit pattern `b` to `i16`.
pub fn i16_from_f32_bits(b: u32) -> (r: Result<i16, Error>)
    ensures
        match r {
            Ok(v) => spec_cast_f32_to_int(b, ScalarKind::I16) == Ok::<int, Error>(v as int),
            Err(e) => spec_cast_f32_to_int(b, ScalarKind::I16) == Err::<int, Error>(e),
        },
{
    match cast_f32_bits_to_int(b, ScalarKind::I16) {
        Ok(v) => Ok(v as i16),
        Err(e) => Err(e),
    }
}

/// Cast the 32-bit float with bit pattern `b` to `i32`.
pub fn i32_from_f32_bits(b: u32) -> (r: Result<i32, Error>)
    ensures
        match r {
            Ok(v) => spec_cast_f32_to_int(b, ScalarKind::I32) == Ok::<int, Error>(v as int),
            Err(e) => spec_cast_f32_to_int(b, ScalarKind::I32) == Err::<int, Error>(e),
        },
{
    match cast_f32_bits_to_int(b, ScalarKind::I32) {
        Ok(v) => Ok(v as i32),
        Err(e) => Err(e),
    }
}

/// Cast the 32-bit float with bit pattern `b` to `i64`.
pub fn i64_from_f32_bits(b: u32) -> (r: Result<i64, Error>)
    ensures
        match r {
            Ok(v) => spec_cast_f32_to_int(b, ScalarKind::I64) == Ok::<int, Error>(v as int),
            Err(e) => spec_cast_f32_to_int(b, ScalarKind::I64) == Err::<int, Error>(e),
        },
{
    match cast_f32_bits_to_int(b, ScalarKind::I64) {
        Ok(v) => Ok(v as i64),
        Err(e) => Err(e),
    }
}

/// Cast the 32-bit float with bit pattern `b` to `isize`.
pub fn isize_from_f32_bits(b: u32) -> (r: Result<isize, Error>)
    ensures
        match r {
            Ok(v) => spec_cast_f32_to_int(b, crate::kinds::spec_isize_kind()) == Ok::<int, Error>(v as int),
            Err(e) => spec_cast_f32_to_int(b, crate::kinds::spec_isize_kind()) == Err::<int, Error>(e),
        },
{
    match cast_f32_bits_to_int(b, crate::kinds::isize_kind()) {
        Ok(v) => Ok(v as isize),
        Err(e) => Err(e),
    }
}

/// Cast the 32-bit float with bit pattern `b` to `u8`.
pub fn u8_from_f32_bits(b: u32) -> (r: Result<u8, Error>)
    ensures
        match r {
            Ok(v) => spec_cast_f32_to_int(b, ScalarKind::U8) == Ok::<int, Error>(v as int),
            Err(e) => spec_cast_f32_to_int(b, ScalarKind::U8) == Err::<int, Error>(e),
        },
{
    match cast_f32_bits_to_int(b, ScalarKind::U8) {
        Ok(v) => Ok(v as u8),
        Err(e) => Err(e),
    }
}

/// Cast the 32-bit float with bit pattern `b` to `u16`.
pub fn u16_from_f32_bits(b: u32) -> (r: Result<u16, Error>)
    ensures
        match r {
            Ok(v) => spec_cast_f32_to_int(b, ScalarKind::U16) == Ok::<int, Error>(v as int),
            Err(e) => spec_cast_f32_to_int(b, ScalarKind::U16) == Err::<int, Error>(e),
        },
{
    match cast_f32_bits_to_int(b, ScalarKind::U16) {
        Ok(v) => Ok(v as u16),
        Err(e) => Err(e),
    }
}

/// Cast the 32-bit float with bit pattern `b` to `u32`.
pub fn u32_from_f32_bits(b: u32) -> (r: Result<u32, Error>)
    ensures
        match r {
            Ok(v) => spec_cast_f32_to_int(b, ScalarKind::U32) == Ok::<int, Error>(v as int),
            Err(e) => spec_cast_f32_to_int(b, ScalarKind::U32) == Err::<int, Error>(e),
        },
{
    match cast_f32_bits_to_int(b, ScalarKind::U32) {
        Ok(v) => Ok(v as u32),
        Err(e) => Err(e),
    }
}

/// Cast the 32-bit float with bit pattern `b` to `u64`.
pub fn u64_from_f32_bits(b: u32) -> (r: Result<u64, Error>)
    ensures
        match r {
            Ok(v) => spec_cast_f32_to_int(b, ScalarKind::U64) == Ok::<int, Error>(v as int),
            Err(e) => spec_cast_f32_to_int(b, ScalarKind::U64) == Err::<int, Error>(e),
        },
{
    match cast_f32_bits_to_int(b, ScalarKind::U64) {
        Ok(v) => Ok(v as u64),
        Err(e) => Err(e),
    }
}

/// Cast the 32-bit float with bit pattern `b` to `usize`.
pub fn usize_from_f32_bits(b: u32) -> (r: Result<usize, Error>)
    ensures
        match r {
            Ok(v) => spec_cast_f32_to_int(b, crate::kinds::spec_usize_kind()) == Ok::<int, Error>(v as int),
            Err(e) => spec_cast_f32_to_int(b, crate::kinds::spec_usize_kind()) == Err::<int, Error>(e),
        },
{
    match cast_f32_bits_to_int(b, crate::kinds::usize_kind()) {
        Ok(v) => Ok(v as usize),
        Err(e) => Err(e),
    }
}

/// Cast the 64-bit float with bit pattern `b` to `i8`.
pub fn i8_from_f64_bits(b: u64) -> (r: Result<i8, Error>)
    ensures
        match r {
            Ok(v) => spec_cast_f64_to_int(b, ScalarKind::I8) == Ok::<int, Error>(v as int),
            Err(e) => spec_cast_f64_to_int(b, ScalarKind::I8) == Err::<int, Error>(e),
        },
{
    match cast_f64_bits_to_int(b, ScalarKind::I8) {
        Ok(v) => Ok(v as i8),
        Err(e) => Err(e),
    }
}

/// Cast the 64-bit float with bit pattern `b` to `i16`.
pub fn i16_from_f64_bits(b: u64) -> (r: Result<i16, Error>)
    ensures
        match r {
            Ok(v) => spec_cast_f64_to_int(b, ScalarKind::I16) == Ok::<int, Error>(v as int),
            Err(e) => spec_cast_f64_to_int(b, ScalarKind::I16) == Err::<int, Error>(e),
        },
{
    match cast_f64_bits_to_int(b, ScalarKind::I16) {
        Ok(v) => Ok(v as i16),
        Err(e) => Err(e),
    }
}

/// Cast the 64-bit float with bit pattern `b` to `i32`.
pub fn i32_from_f64_bits(b: u64) -> (r: Result<i32, Error>)
    ensures
        match r {
            Ok(v) => spec_cast_f64_to_int(b, ScalarKind::I32) == Ok::<int, Error>(v as int),
            Err(e) => spec_cast_f64_to_int(b, ScalarKind::I32) == Err::<int, Error>(e),
        },
{
    match cast_f64_bits_to_int(b, ScalarKind::I32) {
        Ok(v) => Ok(v as i32),
        Err(e) => Err(e),
    }
}

/// Cast the 64-bit float with bit pattern `b` to `i64`.
pub fn i64_from_f64_bits(b: u64) -> (r: Result<i64, Error>)
    ensures
        match r {
            Ok(v) => spec_cast_f64_to_int(b, ScalarKind::I64) == Ok::<int, Error>(v as int),
            Err(e) => spec_cast_f64_to_int(b, ScalarKind::I64) == Err::<int, Error>(e),
        },
{
    match cast_f64_bits_to_int(b, ScalarKind::I64) {
        Ok(v) => Ok(v as i64),
        Err(e) => Err(e),
    }
}

/// Cast the 64-bit float with bit pattern `b` to `isize`.
pub fn isize_from_f64_bits(b: u64) -> (r: Result<isize, Error>)
    ensures
        match r {
            Ok(v) => spec_cast_f64_to_int(b, crate::kinds::spec_isize_kind()) == Ok::<int, Error>(v as int),
            Err(e) => spec_cast_f64_to_int(b, crate::kinds::spec_isize_kind()) == Err::<int, Error>(e),
        },
{
    match cast_f64_bits_to_int(b, crate::kinds::isize_kind()) {
        Ok(v) => Ok(v as isize),
        Err(e) => Err(e),
    }
}

/// Cast the 64-bit float with bit pattern `b` to `u8`.
pub fn u8_from_f64_bits(b: u64) -> (r: Result<u8, Error>)
    ensures
        match r {
            Ok(v) => spec_cast_f64_to_int(b, ScalarKind::U8) == Ok::<int, Error>(v as int),
            Err(e) => spec_cast_f64_to_int(b, ScalarKind::U8) == Err::<int, Error>(e),
        },
{
    match cast_f64_bits_to_int(b, ScalarKind::U8) {
        Ok(v) => Ok(v as u8),
        Err(e) => Err(e),
    }
}

/// Cast the 64-bit float with bit pattern `b` to `u16`.
pub fn u16_from_f64_bits(b: u64) -> (r: Result<u16, Error>)
    ensures
        match r {
            Ok(v) => spec_cast_f64_to_int(b, ScalarKind::U16) == Ok::<int, Error>(v as int),
            Err(e) => spec_cast_f64_to_int(b, ScalarKind::U16) == Err::<int, Error>(e),
        },
{
    match cast_f64_bits_to_int(b, ScalarKind::U16) {
        Ok(v) => Ok(v as u16),
        Err(e) => Err(e),
    }
}

/// Cast the 64-bit float with bit pattern `b` to `u32`.
pub fn u32_from_f64_bits(b: u64) -> (r: Result<u32, Error>)
    ensures
        match r {
            Ok(v) => spec_cast_f64_to_int(b, ScalarKind::U32) == Ok::<int, Error>(v as int),
            Err(e) => spec_cast_f64_to_int(b, ScalarKind::U32) == Err::<int, Error>(e),
        },
{
    match cast_f64_bits_to_int(b, ScalarKind::U32) {
        Ok(v) => Ok(v as u32),
        Err(e) => Err(e),
    }
}

/// Cast the 64-bit float with bit pattern `b` to `u64`.
pub fn u64_from_f64_bits(b: u64) -> (r: Result<u64, Error>)
    ensures
        match r {
            Ok(v) => spec_cast_f64_to_int(b, ScalarKind::U64) == Ok::<int, Error>(v as int),
            Err(e) => spec_cast_f64_to_int(b, ScalarKind::U64) == Err::<int, Error>(e),
        },
{
    match cast_f64_bits_to_int(b, ScalarKind::U64) {
        Ok(v) => Ok(v as u64),
        Err(e) => Err(e),
    }
}

/// Cast the 64-bit float with bit pattern `b` to `usize`.
pub fn usize_from_f64_bits(b: u64) -> (r: Result<usize, Error>)
    ensures
        match r {
            Ok(v) => spec_cast_f64_to_int(b, crate::kinds::spec_usize_kind()) == Ok::<int, Error>(v as int),
            Err(e) => spec_cast_f64_to_int(b, crate::kinds::spec_usize_kind()) == Err::<int, Error>(e),
        },
{
    match cast_f64_bits_to_int(b, crate::kinds::usize_kind()) {
        Ok(v) => Ok(v as usize),
        Err(e) => Err(e),
    }
}

} // verus!
