//! Checked casts between the machine scalar kinds.
//!
//! Every conversion between two scalar kinds is first classified into one of
//! six categories by a pure table over the pair of kinds, and then checked by
//! the routine that belongs to that category.  A conversion either succeeds
//! with the exact (for narrowing of a fraction-free value, truncated) result,
//! or fails with one of four error kinds that says precisely why.

use vstd::prelude::*;

pub mod classify;
pub mod convert;
pub mod eval;
pub mod floatbits;
pub mod kinds;

pub use convert::From;

verus! {

/// Cast errors.
#[derive(Clone, Copy, Debug, PartialEq, Eq, Structural)]
pub enum Error {
    /// Infinite value casted to a type that can only represent finite values.
    Infinite,
    /// NaN value casted to a type that can't represent a NaN value.
    NaN,
    /// Source value is greater than the maximum value that the destination
    /// type can hold.
    Overflow,
    /// Source value is smaller than the minimum value that the destination
    /// type can hold.
    Underflow,
}

} // verus!
