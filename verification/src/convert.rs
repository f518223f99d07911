//! The public checked-cast surface: the "cast from" operation, one
//! implementation per ordered pair of integer kinds, each a thin shim over
//! the data-driven evaluator.
//!
//! A pair classified `Promotion` under both platform widths casts to the
//! bare destination type; every other pair casts to a `Result` of the
//! destination type and an [`Error`].  For the six pairs of a native-width
//! and a fixed-width kind whose category is `Promotion` under exactly one
//! platform width, the result is a `Result` under both, whose contract says
//! that under the promoting width it is always `Ok`.

use vstd::prelude::*;

use crate::Error;
use crate::eval::cast_int;
use crate::eval::spec_cast_int;
use crate::kinds::ScalarKind;
use crate::kinds::isize_kind;
use crate::kinds::spec_isize_kind;
use crate::kinds::spec_usize_kind;
use crate::kinds::usize_kind;

verus! {

/// The "cast from" operation.
pub trait From<Src>: Sized {
    /// The result of the cast operation: either `Self` or
    /// `Result<Self, Error>`.
    type Output;

    /// Checked cast from `Src` to `Self`.
    fn cast(src: Src) -> Self::Output;
}

impl From<i8> for i8 {
    type Output = i8;

    fn cast(src: i8) -> (r: i8)
        ensures
            r as int == src as int,
    {
        src as i8
    }
}

impl From<i8> for i16 {
    type Output = i16;

    fn cast(src: i8) -> (r: i16)
        ensures
            r as int == src as int,
    {
        src as i16
    }
}

impl From<i8> for i32 {
    type Output = i32;

    fn cast(src: i8) -> (r: i32)
        ensures
            r as int == src as int,
    {
        src as i32
    }
}

impl From<i8> for i64 {
    type Output = i64;

    fn cast(src: i8) -> (r: i64)
        ensures
            r as int == src as int,
    {
        src as i64
    }
}

impl From<i8> for isize {
    type Output = isize;

    fn cast(src: i8) -> (r: isize)
        ensures
            r as int == src as int,
    {
        src as isize
    }
}

impl From<i8> for u8 {
    type Output = Result<u8, Error>;

    fn cast(src: i8) -> (r: Result<u8, Error>)
        ensures
            match r {
                Ok(v) => spec_cast_int(ScalarKind::I8, ScalarKind::U8, src as int) == Ok::<int, Error>(v as int),
                Err(e) => spec_cast_int(ScalarKind::I8, ScalarKind::U8, src as int) == Err::<int, Error>(e),
            },
    {
        match cast_int(ScalarKind::I8, ScalarKind::U8, src as i128) {
            Ok(v) => Ok(v as u8),
            Err(e) => Err(e),
        }
    }
}

impl From<i8> for u16 {
    type Output = Result<u16, Error>;

    fn cast(src: i8) -> (r: Result<u16, Error>)
        ensures
            match r {
                Ok(v) => spec_cast_int(ScalarKind::I8, ScalarKind::U16, src as int) == Ok::<int, Error>(v as int),
                Err(e) => spec_cast_int(ScalarKind::I8, ScalarKind::U16, src as int) == Err::<int, Error>(e),
            },
    {
        match cast_int(ScalarKind::I8, ScalarKind::U16, src as i128) {
            Ok(v) => Ok(v as u16),
            Err(e) => Err(e),
        }
    }
}

impl From<i8> for u32 {
    type Output = Result<u32, Error>;

    fn cast(src: i8) -> (r: Result<u32, Error>)
        ensures
            match r {
                Ok(v) => spec_cast_int(ScalarKind::I8, ScalarKind::U32, src as int) == Ok::<int, Error>(v as int),
                Err(e) => spec_cast_int(ScalarKind::I8, ScalarKind::U32, src as int) == Err::<int, Error>(e),
            },
    {
        match cast_int(ScalarKind::I8, ScalarKind::U32, src as i128) {
            Ok(v) => Ok(v as u32),
            Err(e) => Err(e),
        }
    }
}

impl From<i8> for u64 {
    type Output = Result<u64, Error>;

    fn cast(src: i8) -> (r: Result<u64, Error>)
        ensures
            match r {
                Ok(v) => spec_cast_int(ScalarKind::I8, ScalarKind::U64, src as int) == Ok::<int, Error>(v as int),
                Err(e) => spec_cast_int(ScalarKind::I8, ScalarKind::U64, src as int) == Err::<int, Error>(e),
            },
    {
        match cast_int(ScalarKind::I8, ScalarKind::U64, src as i128) {
            Ok(v) => Ok(v as u64),
            Err(e) => Err(e),
        }
    }
}

impl From<i8> for usize {
    type Output = Result<usize, Error>;

    fn cast(src: i8) -> (r: Result<usize, Error>)
        ensures
            match r {
                Ok(v) => spec_cast_int(ScalarKind::I8, spec_usize_kind(), src as int) == Ok::<int, Error>(v as int),
                Err(e) => spec_cast_int(ScalarKind::I8, spec_usize_kind(), src as int) == Err::<int, Error>(e),
            },
    {
        match cast_int(ScalarKind::I8, usize_kind(), src as i128) {
            Ok(v) => Ok(v as usize),
            Err(e) => Err(e),
        }
    }
}

impl From<i16> for i8 {
    type Output = Result<i8, Error>;

    fn cast(src: i16) -> (r: Result<i8, Error>)
        ensures
            match r {
                Ok(v) => spec_cast_int(ScalarKind::I16, ScalarKind::I8, src as int) == Ok::<int, Error>(v as int),
                Err(e) => spec_cast_int(ScalarKind::I16, ScalarKind::I8, src as int) == Err::<int, Error>(e),
            },
    {
        match cast_int(ScalarKind::I16, ScalarKind::I8, src as i128) {
            Ok(v) => Ok(v as i8),
            Err(e) => Err(e),
        }
    }
}

impl From<i16> for i16 {
    type Output = i16;

    fn cast(src: i16) -> (r: i16)
        ensures
            r as int == src as int,
    {
        src as i16
    }
}

impl From<i16> for i32 {
    type Output = i32;

    fn cast(src: i16) -> (r: i32)
        ensures
            r as int == src as int,
    {
        src as i32
    }
}

impl From<i16> for i64 {
    type Output = i64;

    fn cast(src: i16) -> (r: i64)
        ensures
            r as int == src as int,
    {
        src as i64
    }
}

impl From<i16> for isize {
    type Output = isize;

    fn cast(src: i16) -> (r: isize)
        ensures
            r as int == src as int,
    {
        src as isize
    }
}

impl From<i16> for u8 {
    type Output = Result<u8, Error>;

    fn cast(src: i16) -> (r: Result<u8, Error>)
        ensures
            match r {
                Ok(v) => spec_cast_int(ScalarKind::I16, ScalarKind::U8, src as int) == Ok::<int, Error>(v as int),
                Err(e) => spec_cast_int(ScalarKind::I16, ScalarKind::U8, src as int) == Err::<int, Error>(e),
            },
    {
        match cast_int(ScalarKind::I16, ScalarKind::U8, src as i128) {
            Ok(v) => Ok(v as u8),
            Err(e) => Err(e),
        }
    }
}

impl From<i16> for u16 {
    type Output = Result<u16, Error>;

    fn cast(src: i16) -> (r: Result<u16, Error>)
        ensures
            match r {
                Ok(v) => spec_cast_int(ScalarKind::I16, ScalarKind::U16, src as int) == Ok::<int, Error>(v as int),
                Err(e) => spec_cast_int(ScalarKind::I16, ScalarKind::U16, src as int) == Err::<int, Error>(e),
            },
    {
        match cast_int(ScalarKind::I16, ScalarKind::U16, src as i128) {
            Ok(v) => Ok(v as u16),
            Err(e) => Err(e),
        }
    }
}

impl From<i16> for u32 {
    type Output = Result<u32, Error>;

    fn cast(src: i16) -> (r: Result<u32, Error>)
        ensures
            match r {
                Ok(v) => spec_cast_int(ScalarKind::I16, ScalarKind::U32, src as int) == Ok::<int, Error>(v as int),
                Err(e) => spec_cast_int(ScalarKind::I16, ScalarKind::U32, src as int) == Err::<int, Error>(e),
            },
    {
        match cast_int(ScalarKind::I16, ScalarKind::U32, src as i128) {
            Ok(v) => Ok(v as u32),
            Err(e) => Err(e),
        }
    }
}

impl From<i16> for u64 {
    type Output = Result<u64, Error>;

    fn cast(src: i16) -> (r: Result<u64, Error>)
        ensures
            match r {
                Ok(v) => spec_cast_int(ScalarKind::I16, ScalarKind::U64, src as int) == Ok::<int, Error>(v as int),
                Err(e) => spec_cast_int(ScalarKind::I16, ScalarKind::U64, src as int) == Err::<int, Error>(e),
            },
    {
        match cast_int(ScalarKind::I16, ScalarKind::U64, src as i128) {
            Ok(v) => Ok(v as u64),
            Err(e) => Err(e),
        }
    }
}

impl From<i16> for usize {
    type Output = Result<usize, Error>;

    fn cast(src: i16) -> (r: Result<usize, Error>)
        ensures
            match r {
                Ok(v) => spec_cast_int(ScalarKind::I16, spec_usize_kind(), src as int) == Ok::<int, Error>(v as int),
                Err(e) => spec_cast_int(ScalarKind::I16, spec_usize_kind(), src as int) == Err::<int, Error>(e),
            },
    {
        match cast_int(ScalarKind::I16, usize_kind(), src as i128) {
            Ok(v) => Ok(v as usize),
            Err(e) => Err(e),
        }
    }
}

impl From<i32> for i8 {
    type Output = Result<i8, Error>;

    fn cast(src: i32) -> (r: Result<i8, Error>)
        ensures
            match r {
                Ok(v) => spec_cast_int(ScalarKind::I32, ScalarKind::I8, src as int) == Ok::<int, Error>(v as int),
                Err(e) => spec_cast_int(ScalarKind::I32, ScalarKind::I8, src as int) == Err::<int, Error>(e),
            },
    {
        match cast_int(ScalarKind::I32, ScalarKind::I8, src as i128) {
            Ok(v) => Ok(v as i8),
            Err(e) => Err(e),
        }
    }
}

impl From<i32> for i16 {
    type Output = Result<i16, Error>;

    fn cast(src: i32) -> (r: Result<i16, Error>)
        ensures
            match r {
                Ok(v) => spec_cast_int(ScalarKind::I32, ScalarKind::I16, src as int) == Ok::<int, Error>(v as int),
                Err(e) => spec_cast_int(ScalarKind::I32, ScalarKind::I16, src as int) == Err::<int, Error>(e),
            },
    {
        match cast_int(ScalarKind::I32, ScalarKind::I16, src as i128) {
            Ok(v) => Ok(v as i16),
            Err(e) => Err(e),
        }
    }
}

impl From<i32> for i32 {
    type Output = i32;

    fn cast(src: i32) -> (r: i32)
        ensures
            r as int == src as int,
    {
        src as i32
    }
}

impl From<i32> for i64 {
    type Output = i64;

    fn cast(src: i32) -> (r: i64)
        ensures
            r as int == src as int,
    {
        src as i64
    }
}

impl From<i32> for isize {
    type Output = isize;

    fn cast(src: i32) -> (r: isize)
        ensures
            r as int == src as int,
    {
        src as isize
    }
}

impl From<i32> for u8 {
    type Output = Result<u8, Error>;

    fn cast(src: i32) -> (r: Result<u8, Error>)
        ensures
            match r {
                Ok(v) => spec_cast_int(ScalarKind::I32, ScalarKind::U8, src as int) == Ok::<int, Error>(v as int),
                Err(e) => spec_cast_int(ScalarKind::I32, ScalarKind::U8, src as int) == Err::<int, Error>(e),
            },
    {
        match cast_int(ScalarKind::I32, ScalarKind::U8, src as i128) {
            Ok(v) => Ok(v as u8),
            Err(e) => Err(e),
        }
    }
}

impl From<i32> for u16 {
    type Output = Result<u16, Error>;

    fn cast(src: i32) -> (r: Result<u16, Error>)
        ensures
            match r {
                Ok(v) => spec_cast_int(ScalarKind::I32, ScalarKind::U16, src as int) == Ok::<int, Error>(v as int),
                Err(e) => spec_cast_int(ScalarKind::I32, ScalarKind::U16, src as int) == Err::<int, Error>(e),
            },
    {
        match cast_int(ScalarKind::I32, ScalarKind::U16, src as i128) {
            Ok(v) => Ok(v as u16),
            Err(e) => Err(e),
        }
    }
}

impl From<i32> for u32 {
    type Output = Result<u32, Error>;

    fn cast(src: i32) -> (r: Result<u32, Error>)
        ensures
            match r {
                Ok(v) => spec_cast_int(ScalarKind::I32, ScalarKind::U32, src as int) == Ok::<int, Error>(v as int),
                Err(e) => spec_cast_int(ScalarKind::I32, ScalarKind::U32, src as int) == Err::<int, Error>(e),
            },
    {
        match cast_int(ScalarKind::I32, ScalarKind::U32, src as i128) {
            Ok(v) => Ok(v as u32),
            Err(e) => Err(e),
        }
    }
}

impl From<i32> for u64 {
    type Output = Result<u64, Error>;

    fn cast(src: i32) -> (r: Result<u64, Error>)
        ensures
            match r {
                Ok(v) => spec_cast_int(ScalarKind::I32, ScalarKind::U64, src as int) == Ok::<int, Error>(v as int),
                Err(e) => spec_cast_int(ScalarKind::I32, ScalarKind::U64, src as int) == Err::<int, Error>(e),
            },
    {
        match cast_int(ScalarKind::I32, ScalarKind::U64, src as i128) {
            Ok(v) => Ok(v as u64),
            Err(e) => Err(e),
        }
    }
}

impl From<i32> for usize {
    type Output = Result<usize, Error>;

    fn cast(src: i32) -> (r: Result<usize, Error>)
        ensures
            match r {
                Ok(v) => spec_cast_int(ScalarKind::I32, spec_usize_kind(), src as int) == Ok::<int, Error>(v as int),
                Err(e) => spec_cast_int(ScalarKind::I32, spec_usize_kind(), src as int) == Err::<int, Error>(e),
            },
    {
        match cast_int(ScalarKind::I32, usize_kind(), src as i128) {
            Ok(v) => Ok(v as usize),
            Err(e) => Err(e),
        }
    }
}

impl From<i64> for i8 {
    type Output = Result<i8, Error>;

    fn cast(src: i64) -> (r: Result<i8, Error>)
        ensures
            match r {
                Ok(v) => spec_cast_int(ScalarKind::I64, ScalarKind::I8, src as int) == Ok::<int, Error>(v as int),
                Err(e) => spec_cast_int(ScalarKind::I64, ScalarKind::I8, src as int) == Err::<int, Error>(e),
            },
    {
        match cast_int(ScalarKind::I64, ScalarKind::I8, src as i128) {
            Ok(v) => Ok(v as i8),
            Err(e) => Err(e),
        }
    }
}

impl From<i64> for i16 {
    type Output = Result<i16, Error>;

    fn cast(src: i64) -> (r: Result<i16, Error>)
        ensures
            match r {
                Ok(v) => spec_cast_int(ScalarKind::I64, ScalarKind::I16, src as int) == Ok::<int, Error>(v as int),
                Err(e) => spec_cast_int(ScalarKind::I64, ScalarKind::I16, src as int) == Err::<int, Error>(e),
            },
    {
        match cast_int(ScalarKind::I64, ScalarKind::I16, src as i128) {
            Ok(v) => Ok(v as i16),
            Err(e) => Err(e),
        }
    }
}

impl From<i64> for i32 {
    type Output = Result<i32, Error>;

    fn cast(src: i64) -> (r: Result<i32, Error>)
        ensures
            match r {
                Ok(v) => spec_cast_int(ScalarKind::I64, ScalarKind::I32, src as int) == Ok::<int, Error>(v as int),
                Err(e) => spec_cast_int(ScalarKind::I64, ScalarKind::I32, src as int) == Err::<int, Error>(e),
            },
    {
        match cast_int(ScalarKind::I64, ScalarKind::I32, src as i128) {
            Ok(v) => Ok(v as i32),
            Err(e) => Err(e),
        }
    }
}

impl From<i64> for i64 {
    type Output = i64;

    fn cast(src: i64) -> (r: i64)
        ensures
            r as int == src as int,
    {
        src as i64
    }
}

impl From<i64> for isize {
    type Output = Result<isize, Error>;

    fn cast(src: i64) -> (r: Result<isize, Error>)
        ensures
            match r {
                Ok(v) => spec_cast_int(ScalarKind::I64, spec_isize_kind(), src as int) == Ok::<int, Error>(v as int),
                Err(e) => spec_cast_int(ScalarKind::I64, spec_isize_kind(), src as int) == Err::<int, Error>(e),
            },
    {
        match cast_int(ScalarKind::I64, isize_kind(), src as i128) {
            Ok(v) => Ok(v as isize),
            Err(e) => Err(e),
        }
    }
}

impl From<i64> for u8 {
    type Output = Result<u8, Error>;

    fn cast(src: i64) -> (r: Result<u8, Error>)
        ensures
            match r {
                Ok(v) => spec_cast_int(ScalarKind::I64, ScalarKind::U8, src as int) == Ok::<int, Error>(v as int),
                Err(e) => spec_cast_int(ScalarKind::I64, ScalarKind::U8, src as int) == Err::<int, Error>(e),
            },
    {
        match cast_int(ScalarKind::I64, ScalarKind::U8, src as i128) {
            Ok(v) => Ok(v as u8),
            Err(e) => Err(e),
        }
    }
}

impl From<i64> for u16 {
    type Output = Result<u16, Error>;

    fn cast(src: i64) -> (r: Result<u16, Error>)
        ensures
            match r {
                Ok(v) => spec_cast_int(ScalarKind::I64, ScalarKind::U16, src as int) == Ok::<int, Error>(v as int),
                Err(e) => spec_cast_int(ScalarKind::I64, ScalarKind::U16, src as int) == Err::<int, Error>(e),
            },
    {
        match cast_int(ScalarKind::I64, ScalarKind::U16, src as i128) {
            Ok(v) => Ok(v as u16),
            Err(e) => Err(e),
        }
    }
}

impl From<i64> for u32 {
    type Output = Result<u32, Error>;

    fn cast(src: i64) -> (r: Result<u32, Error>)
        ensures
            match r {
                Ok(v) => spec_cast_int(ScalarKind::I64, ScalarKind::U32, src as int) == Ok::<int, Error>(v as int),
                Err(e) => spec_cast_int(ScalarKind::I64, ScalarKind::U32, src as int) == Err::<int, Error>(e),
            },
    {
        match cast_int(ScalarKind::I64, ScalarKind::U32, src as i128) {
            Ok(v) => Ok(v as u32),
            Err(e) => Err(e),
        }
    }
}

impl From<i64> for u64 {
    type Output = Result<u64, Error>;

    fn cast(src: i64) -> (r: Result<u64, Error>)
        ensures
            match r {
                Ok(v) => spec_cast_int(ScalarKind::I64, ScalarKind::U64, src as int) == Ok::<int, Error>(v as int),
                Err(e) => spec_cast_int(ScalarKind::I64, ScalarKind::U64, src as int) == Err::<int, Error>(e),
            },
    {
        match cast_int(ScalarKind::I64, ScalarKind::U64, src as i128) {
            Ok(v) => Ok(v as u64),
            Err(e) => Err(e),
        }
    }
}

impl From<i64> for usize {
    type Output = Result<usize, Error>;

    fn cast(src: i64) -> (r: Result<usize, Error>)
        ensures
            match r {
                Ok(v) => spec_cast_int(ScalarKind::I64, spec_usize_kind(), src as int) == Ok::<int, Error>(v as int),
                Err(e) => spec_cast_int(ScalarKind::I64, spec_usize_kind(), src as int) == Err::<int, Error>(e),
            },
    {
        match cast_int(ScalarKind::I64, usize_kind(), src as i128) {
            Ok(v) => Ok(v as usize),
            Err(e) => Err(e),
        }
    }
}

impl From<isize> for i8 {
    type Output = Result<i8, Error>;

    fn cast(src: isize) -> (r: Result<i8, Error>)
        ensures
            match r {
                Ok(v) => spec_cast_int(spec_isize_kind(), ScalarKind::I8, src as int) == Ok::<int, Error>(v as int),
                Err(e) => spec_cast_int(spec_isize_kind(), ScalarKind::I8, src as int) == Err::<int, Error>(e),
            },
    {
        match cast_int(isize_kind(), ScalarKind::I8, src as i128) {
            Ok(v) => Ok(v as i8),
            Err(e) => Err(e),
        }
    }
}

impl From<isize> for i16 {
    type Output = Result<i16, Error>;

    fn cast(src: isize) -> (r: Result<i16, Error>)
        ensures
            match r {
                Ok(v) => spec_cast_int(spec_isize_kind(), ScalarKind::I16, src as int) == Ok::<int, Error>(v as int),
                Err(e) => spec_cast_int(spec_isize_kind(), ScalarKind::I16, src as int) == Err::<int, Error>(e),
            },
    {
        match cast_int(isize_kind(), ScalarKind::I16, src as i128) {
            Ok(v) => Ok(v as i16),
            Err(e) => Err(e),
        }
    }
}

impl From<isize> for i32 {
    type Output = Result<i32, Error>;

    fn cast(src: isize) -> (r: Result<i32, Error>)
        ensures
            match r {
                Ok(v) => spec_cast_int(spec_isize_kind(), ScalarKind::I32, src as int) == Ok::<int, Error>(v as int),
                Err(e) => spec_cast_int(spec_isize_kind(), ScalarKind::I32, src as int) == Err::<int, Error>(e),
            },
    {
        match cast_int(isize_kind(), ScalarKind::I32, src as i128) {
            Ok(v) => Ok(v as i32),
            Err(e) => Err(e),
        }
    }
}

impl From<isize> for i64 {
    type Output = i64;

    fn cast(src: isize) -> (r: i64)
        ensures
            r as int == src as int,
    {
        src as i64
    }
}

impl From<isize> for isize {
    type Output = isize;

    fn cast(src: isize) -> (r: isize)
        ensures
            r as int == src as int,
    {
        src as isize
    }
}

impl From<isize> for u8 {
    type Output = Result<u8, Error>;

    fn cast(src: isize) -> (r: Result<u8, Error>)
        ensures
            match r {
                Ok(v) => spec_cast_int(spec_isize_kind(), ScalarKind::U8, src as int) == Ok::<int, Error>(v as int),
                Err(e) => spec_cast_int(spec_isize_kind(), ScalarKind::U8, src as int) == Err::<int, Error>(e),
            },
    {
        match cast_int(isize_kind(), ScalarKind::U8, src as i128) {
            Ok(v) => Ok(v as u8),
            Err(e) => Err(e),
        }
    }
}

impl From<isize> for u16 {
    type Output = Result<u16, Error>;

    fn cast(src: isize) -> (r: Result<u16, Error>)
        ensures
            match r {
                Ok(v) => spec_cast_int(spec_isize_kind(), ScalarKind::U16, src as int) == Ok::<int, Error>(v as int),
                Err(e) => spec_cast_int(spec_isize_kind(), ScalarKind::U16, src as int) == Err::<int, Error>(e),
            },
    {
        match cast_int(isize_kind(), ScalarKind::U16, src as i128) {
            Ok(v) => Ok(v as u16),
            Err(e) => Err(e),
        }
    }
}

impl From<isize> for u32 {
    type Output = Result<u32, Error>;

    fn cast(src: isize) -> (r: Result<u32, Error>)
        ensures
            match r {
                Ok(v) => spec_cast_int(spec_isize_kind(), ScalarKind::U32, src as int) == Ok::<int, Error>(v as int),
                Err(e) => spec_cast_int(spec_isize_kind(), ScalarKind::U32, src as int) == Err::<int, Error>(e),
            },
    {
        match cast_int(isize_kind(), ScalarKind::U32, src as i128) {
            Ok(v) => Ok(v as u32),
            Err(e) => Err(e),
        }
    }
}

impl From<isize> for u64 {
    type Output = Result<u64, Error>;

    fn cast(src: isize) -> (r: Result<u64, Error>)
        ensures
            match r {
                Ok(v) => spec_cast_int(spec_isize_kind(), ScalarKind::U64, src as int) == Ok::<int, Error>(v as int),
                Err(e) => spec_cast_int(spec_isize_kind(), ScalarKind::U64, src as int) == Err::<int, Error>(e),
            },
    {
        match cast_int(isize_kind(), ScalarKind::U64, src as i128) {
            Ok(v) => Ok(v as u64),
            Err(e) => Err(e),
        }
    }
}

impl From<isize> for usize {
    type Output = Result<usize, Error>;

    fn cast(src: isize) -> (r: Result<usize, Error>)
        ensures
            match r {
                Ok(v) => spec_cast_int(spec_isize_kind(), spec_usize_kind(), src as int) == Ok::<int, Error>(v as int),
                Err(e) => spec_cast_int(spec_isize_kind(), spec_usize_kind(), src as int) == Err::<int, Error>(e),
            },
    {
        match cast_int(isize_kind(), usize_kind(), src as i128) {
            Ok(v) => Ok(v as usize),
            Err(e) => Err(e),
        }
    }
}

impl From<u8> for i8 {
    type Output = Result<i8, Error>;

    fn cast(src: u8) -> (r: Result<i8, Error>)
        ensures
            match r {
                Ok(v) => spec_cast_int(ScalarKind::U8, ScalarKind::I8, src as int) == Ok::<int, Error>(v as int),
                Err(e) => spec_cast_int(ScalarKind::U8, ScalarKind::I8, src as int) == Err::<int, Error>(e),
            },
    {
        match cast_int(ScalarKind::U8, ScalarKind::I8, src as i128) {
            Ok(v) => Ok(v as i8),
            Err(e) => Err(e),
        }
    }
}

impl From<u8> for i16 {
    type Output = i16;

    fn cast(src: u8) -> (r: i16)
        ensures
            r as int == src as int,
    {
        src as i16
    }
}

impl From<u8> for i32 {
    type Output = i32;

    fn cast(src: u8) -> (r: i32)
        ensures
            r as int == src as int,
    {
        src as i32
    }
}

impl From<u8> for i64 {
    type Output = i64;

    fn cast(src: u8) -> (r: i64)
        ensures
            r as int == src as int,
    {
        src as i64
    }
}

impl From<u8> for isize {
    type Output = isize;

    fn cast(src: u8) -> (r: isize)
        ensures
            r as int == src as int,
    {
        src as isize
    }
}

impl From<u8> for u8 {
    type Output = u8;

    fn cast(src: u8) -> (r: u8)
        ensures
            r as int == src as int,
    {
        src as u8
    }
}

impl From<u8> for u16 {
    type Output = u16;

    fn cast(src: u8) -> (r: u16)
        ensures
            r as int == src as int,
    {
        src as u16
    }
}

impl From<u8> for u32 {
    type Output = u32;

    fn cast(src: u8) -> (r: u32)
        ensures
            r as int == src as int,
    {
        src as u32
    }
}

impl From<u8> for u64 {
    type Output = u64;

    fn cast(src: u8) -> (r: u64)
        ensures
            r as int == src as int,
    {
        src as u64
    }
}

impl From<u8> for usize {
    type Output = usize;

    fn cast(src: u8) -> (r: usize)
        ensures
            r as int == src as int,
    {
        src as usize
    }
}

impl From<u16> for i8 {
    type Output = Result<i8, Error>;

    fn cast(src: u16) -> (r: Result<i8, Error>)
        ensures
            match r {
                Ok(v) => spec_cast_int(ScalarKind::U16, ScalarKind::I8, src as int) == Ok::<int, Error>(v as int),
                Err(e) => spec_cast_int(ScalarKind::U16, ScalarKind::I8, src as int) == Err::<int, Error>(e),
            },
    {
        match cast_int(ScalarKind::U16, ScalarKind::I8, src as i128) {
            Ok(v) => Ok(v as i8),
            Err(e) => Err(e),
        }
    }
}

impl From<u16> for i16 {
    type Output = Result<i16, Error>;

    fn cast(src: u16) -> (r: Result<i16, Error>)
        ensures
            match r {
                Ok(v) => spec_cast_int(ScalarKind::U16, ScalarKind::I16, src as int) == Ok::<int, Error>(v as int),
                Err(e) => spec_cast_int(ScalarKind::U16, ScalarKind::I16, src as int) == Err::<int, Error>(e),
            },
    {
        match cast_int(ScalarKind::U16, ScalarKind::I16, src as i128) {
            Ok(v) => Ok(v as i16),
            Err(e) => Err(e),
        }
    }
}

impl From<u16> for i32 {
    type Output = i32;

    fn cast(src: u16) -> (r: i32)
        ensures
            r as int == src as int,
    {
        src as i32
    }
}

impl From<u16> for i64 {
    type Output = i64;

    fn cast(src: u16) -> (r: i64)
        ensures
            r as int == src as int,
    {
        src as i64
    }
}

impl From<u16> for isize {
    type Output = isize;

    fn cast(src: u16) -> (r: isize)
        ensures
            r as int == src as int,
    {
        src as isize
    }
}

impl From<u16> for u8 {
    type Output = Result<u8, Error>;

    fn cast(src: u16) -> (r: Result<u8, Error>)
        ensures
            match r {
                Ok(v) => spec_cast_int(ScalarKind::U16, ScalarKind::U8, src as int) == Ok::<int, Error>(v as int),
                Err(e) => spec_cast_int(ScalarKind::U16, ScalarKind::U8, src as int) == Err::<int, Error>(e),
            },
    {
        match cast_int(ScalarKind::U16, ScalarKind::U8, src as i128) {
            Ok(v) => Ok(v as u8),
            Err(e) => Err(e),
        }
    }
}

impl From<u16> for u16 {
    type Output = u16;

    fn cast(src: u16) -> (r: u16)
        ensures
            r as int == src as int,
    {
        src as u16
    }
}

impl From<u16> for u32 {
    type Output = u32;

    fn cast(src: u16) -> (r: u32)
        ensures
            r as int == src as int,
    {
        src as u32
    }
}

impl From<u16> for u64 {
    type Output = u64;

    fn cast(src: u16) -> (r: u64)
        ensures
            r as int == src as int,
    {
        src as u64
    }
}

impl From<u16> for usize {
    type Output = usize;

    fn cast(src: u16) -> (r: usize)
        ensures
            r as int == src as int,
    {
        src as usize
    }
}

impl From<u32> for i8 {
    type Output = Result<i8, Error>;

    fn cast(src: u32) -> (r: Result<i8, Error>)
        ensures
            match r {
                Ok(v) => spec_cast_int(ScalarKind::U32, ScalarKind::I8, src as int) == Ok::<int, Error>(v as int),
                Err(e) => spec_cast_int(ScalarKind::U32, ScalarKind::I8, src as int) == Err::<int, Error>(e),
            },
    {
        match cast_int(ScalarKind::U32, ScalarKind::I8, src as i128) {
            Ok(v) => Ok(v as i8),
            Err(e) => Err(e),
        }
    }
}

impl From<u32> for i16 {
    type Output = Result<i16, Error>;

    fn cast(src: u32) -> (r: Result<i16, Error>)
        ensures
            match r {
                Ok(v) => spec_cast_int(ScalarKind::U32, ScalarKind::I16, src as int) == Ok::<int, Error>(v as int),
                Err(e) => spec_cast_int(ScalarKind::U32, ScalarKind::I16, src as int) == Err::<int, Error>(e),
            },
    {
        match cast_int(ScalarKind::U32, ScalarKind::I16, src as i128) {
            Ok(v) => Ok(v as i16),
            Err(e) => Err(e),
        }
    }
}

impl From<u32> for i32 {
    type Output = Result<i32, Error>;

    fn cast(src: u32) -> (r: Result<i32, Error>)
        ensures
            match r {
                Ok(v) => spec_cast_int(ScalarKind::U32, ScalarKind::I32, src as int) == Ok::<int, Error>(v as int),
                Err(e) => spec_cast_int(ScalarKind::U32, ScalarKind::I32, src as int) == Err::<int, Error>(e),
            },
    {
        match cast_int(ScalarKind::U32, ScalarKind::I32, src as i128) {
            Ok(v) => Ok(v as i32),
            Err(e) => Err(e),
        }
    }
}

impl From<u32> for i64 {
    type Output = i64;

    fn cast(src: u32) -> (r: i64)
        ensures
            r as int == src as int,
    {
        src as i64
    }
}

impl From<u32> for isize {
    type Output = Result<isize, Error>;

    fn cast(src: u32) -> (r: Result<isize, Error>)
        ensures
            match r {
                Ok(v) => spec_cast_int(ScalarKind::U32, spec_isize_kind(), src as int) == Ok::<int, Error>(v as int),
                Err(e) => spec_cast_int(ScalarKind::U32, spec_isize_kind(), src as int) == Err::<int, Error>(e),
            },
    {
        match cast_int(ScalarKind::U32, isize_kind(), src as i128) {
            Ok(v) => Ok(v as isize),
            Err(e) => Err(e),
        }
    }
}

impl From<u32> for u8 {
    type Output = Result<u8, Error>;

    fn cast(src: u32) -> (r: Result<u8, Error>)
        ensures
            match r {
                Ok(v) => spec_cast_int(ScalarKind::U32, ScalarKind::U8, src as int) == Ok::<int, Error>(v as int),
                Err(e) => spec_cast_int(ScalarKind::U32, ScalarKind::U8, src as int) == Err::<int, Error>(e),
            },
    {
        match cast_int(ScalarKind::U32, ScalarKind::U8, src as i128) {
            Ok(v) => Ok(v as u8),
            Err(e) => Err(e),
        }
    }
}

impl From<u32> for u16 {
    type Output = Result<u16, Error>;

    fn cast(src: u32) -> (r: Result<u16, Error>)
        ensures
            match r {
                Ok(v) => spec_cast_int(ScalarKind::U32, ScalarKind::U16, src as int) == Ok::<int, Error>(v as int),
                Err(e) => spec_cast_int(ScalarKind::U32, ScalarKind::U16, src as int) == Err::<int, Error>(e),
            },
    {
        match cast_int(ScalarKind::U32, ScalarKind::U16, src as i128) {
            Ok(v) => Ok(v as u16),
            Err(e) => Err(e),
        }
    }
}

impl From<u32> for u32 {
    type Output = u32;

    fn cast(src: u32) -> (r: u32)
        ensures
            r as int == src as int,
    {
        src as u32
    }
}

impl From<u32> for u64 {
    type Output = u64;

    fn cast(src: u32) -> (r: u64)
        ensures
            r as int == src as int,
    {
        src as u64
    }
}

impl From<u32> for usize {
    type Output = usize;

    fn cast(src: u32) -> (r: usize)
        ensures
            r as int == src as int,
    {
        src as usize
    }
}

impl From<u64> for i8 {
    type Output = Result<i8, Error>;

    fn cast(src: u64) -> (r: Result<i8, Error>)
        ensures
            match r {
                Ok(v) => spec_cast_int(ScalarKind::U64, ScalarKind::I8, src as int) == Ok::<int, Error>(v as int),
                Err(e) => spec_cast_int(ScalarKind::U64, ScalarKind::I8, src as int) == Err::<int, Error>(e),
            },
    {
        match cast_int(ScalarKind::U64, ScalarKind::I8, src as i128) {
            Ok(v) => Ok(v as i8),
            Err(e) => Err(e),
        }
    }
}

impl From<u64> for i16 {
    type Output = Result<i16, Error>;

    fn cast(src: u64) -> (r: Result<i16, Error>)
        ensures
            match r {
                Ok(v) => spec_cast_int(ScalarKind::U64, ScalarKind::I16, src as int) == Ok::<int, Error>(v as int),
                Err(e) => spec_cast_int(ScalarKind::U64, ScalarKind::I16, src as int) == Err::<int, Error>(e),
            },
    {
        match cast_int(ScalarKind::U64, ScalarKind::I16, src as i128) {
            Ok(v) => Ok(v as i16),
            Err(e) => Err(e),
        }
    }
}

impl From<u64> for i32 {
    type Output = Result<i32, Error>;

    fn cast(src: u64) -> (r: Result<i32, Error>)
        ensures
            match r {
                Ok(v) => spec_cast_int(ScalarKind::U64, ScalarKind::I32, src as int) == Ok::<int, Error>(v as int),
                Err(e) => spec_cast_int(ScalarKind::U64, ScalarKind::I32, src as int) == Err::<int, Error>(e),
            },
    {
        match cast_int(ScalarKind::U64, ScalarKind::I32, src as i128) {
            Ok(v) => Ok(v as i32),
            Err(e) => Err(e),
        }
    }
}

impl From<u64> for i64 {
    type Output = Result<i64, Error>;

    fn cast(src: u64) -> (r: Result<i64, Error>)
        ensures
            match r {
                Ok(v) => spec_cast_int(ScalarKind::U64, ScalarKind::I64, src as int) == Ok::<int, Error>(v as int),
                Err(e) => spec_cast_int(ScalarKind::U64, ScalarKind::I64, src as int) == Err::<int, Error>(e),
            },
    {
        match cast_int(ScalarKind::U64, ScalarKind::I64, src as i128) {
            Ok(v) => Ok(v as i64),
            Err(e) => Err(e),
        }
    }
}

impl From<u64> for isize {
    type Output = Result<isize, Error>;

    fn cast(src: u64) -> (r: Result<isize, Error>)
        ensures
            match r {
                Ok(v) => spec_cast_int(ScalarKind::U64, spec_isize_kind(), src as int) == Ok::<int, Error>(v as int),
                Err(e) => spec_cast_int(ScalarKind::U64, spec_isize_kind(), src as int) == Err::<int, Error>(e),
            },
    {
        match cast_int(ScalarKind::U64, isize_kind(), src as i128) {
            Ok(v) => Ok(v as isize),
            Err(e) => Err(e),
        }
    }
}

impl From<u64> for u8 {
    type Output = Result<u8, Error>;

    fn cast(src: u64) -> (r: Result<u8, Error>)
        ensures
            match r {
                Ok(v) => spec_cast_int(ScalarKind::U64, ScalarKind::U8, src as int) == Ok::<int, Error>(v as int),
                Err(e) => spec_cast_int(ScalarKind::U64, ScalarKind::U8, src as int) == Err::<int, Error>(e),
            },
    {
        match cast_int(ScalarKind::U64, ScalarKind::U8, src as i128) {
            Ok(v) => Ok(v as u8),
            Err(e) => Err(e),
        }
    }
}

impl From<u64> for u16 {
    type Output = Result<u16, Error>;

    fn cast(src: u64) -> (r: Result<u16, Error>)
        ensures
            match r {
                Ok(v) => spec_cast_int(ScalarKind::U64, ScalarKind::U16, src as int) == Ok::<int, Error>(v as int),
                Err(e) => spec_cast_int(ScalarKind::U64, ScalarKind::U16, src as int) == Err::<int, Error>(e),
            },
    {
        match cast_int(ScalarKind::U64, ScalarKind::U16, src as i128) {
            Ok(v) => Ok(v as u16),
            Err(e) => Err(e),
        }
    }
}

impl From<u64> for u32 {
    type Output = Result<u32, Error>;

    fn cast(src: u64) -> (r: Result<u32, Error>)
        ensures
            match r {
                Ok(v) => spec_cast_int(ScalarKind::U64, ScalarKind::U32, src as int) == Ok::<int, Error>(v as int),
                Err(e) => spec_cast_int(ScalarKind::U64, ScalarKind::U32, src as int) == Err::<int, Error>(e),
            },
    {
        match cast_int(ScalarKind::U64, ScalarKind::U32, src as i128) {
            Ok(v) => Ok(v as u32),
            Err(e) => Err(e),
        }
    }
}

impl From<u64> for u64 {
    type Output = u64;

    fn cast(src: u64) -> (r: u64)
        ensures
            r as int == src as int,
    {
        src as u64
    }
}

impl From<u64> for usize {
    type Output = Result<usize, Error>;

    fn cast(src: u64) -> (r: Result<usize, Error>)
        ensures
            match r {
                Ok(v) => spec_cast_int(ScalarKind::U64, spec_usize_kind(), src as int) == Ok::<int, Error>(v as int),
                Err(e) => spec_cast_int(ScalarKind::U64, spec_usize_kind(), src as int) == Err::<int, Error>(e),
            },
    {
        match cast_int(ScalarKind::U64, usize_kind(), src as i128) {
            Ok(v) => Ok(v as usize),
            Err(e) => Err(e),
        }
    }
}

impl From<usize> for i8 {
    type Output = Result<i8, Error>;

    fn cast(src: usize) -> (r: Result<i8, Error>)
        ensures
            match r {
                Ok(v) => spec_cast_int(spec_usize_kind(), ScalarKind::I8, src as int) == Ok::<int, Error>(v as int),
                Err(e) => spec_cast_int(spec_usize_kind(), ScalarKind::I8, src as int) == Err::<int, Error>(e),
            },
    {
        match cast_int(usize_kind(), ScalarKind::I8, src as i128) {
            Ok(v) => Ok(v as i8),
            Err(e) => Err(e),
        }
    }
}

impl From<usize> for i16 {
    type Output = Result<i16, Error>;

    fn cast(src: usize) -> (r: Result<i16, Error>)
        ensures
            match r {
                Ok(v) => spec_cast_int(spec_usize_kind(), ScalarKind::I16, src as int) == Ok::<int, Error>(v as int),
                Err(e) => spec_cast_int(spec_usize_kind(), ScalarKind::I16, src as int) == Err::<int, Error>(e),
            },
    {
        match cast_int(usize_kind(), ScalarKind::I16, src as i128) {
            Ok(v) => Ok(v as i16),
            Err(e) => Err(e),
        }
    }
}

impl From<usize> for i32 {
    type Output = Result<i32, Error>;

    fn cast(src: usize) -> (r: Result<i32, Error>)
        ensures
            match r {
                Ok(v) => spec_cast_int(spec_usize_kind(), ScalarKind::I32, src as int) == Ok::<int, Error>(v as int),
                Err(e) => spec_cast_int(spec_usize_kind(), ScalarKind::I32, src as int) == Err::<int, Error>(e),
            },
    {
        match cast_int(usize_kind(), ScalarKind::I32, src as i128) {
            Ok(v) => Ok(v as i32),
            Err(e) => Err(e),
        }
    }
}

impl From<usize> for i64 {
    type Output = Result<i64, Error>;

    fn cast(src: usize) -> (r: Result<i64, Error>)
        ensures
            match r {
                Ok(v) => spec_cast_int(spec_usize_kind(), ScalarKind::I64, src as int) == Ok::<int, Error>(v as int),
                Err(e) => spec_cast_int(spec_usize_kind(), ScalarKind::I64, src as int) == Err::<int, Error>(e),
            },
    {
        match cast_int(usize_kind(), ScalarKind::I64, src as i128) {
            Ok(v) => Ok(v as i64),
            Err(e) => Err(e),
        }
    }
}

impl From<usize> for isize {
    type Output = Result<isize, Error>;

    fn cast(src: usize) -> (r: Result<isize, Error>)
        ensures
            match r {
                Ok(v) => spec_cast_int(spec_usize_kind(), spec_isize_kind(), src as int) == Ok::<int, Error>(v as int),
                Err(e) => spec_cast_int(spec_usize_kind(), spec_isize_kind(), src as int) == Err::<int, Error>(e),
            },
    {
        match cast_int(usize_kind(), isize_kind(), src as i128) {
            Ok(v) => Ok(v as isize),
            Err(e) => Err(e),
        }
    }
}

impl From<usize> for u8 {
    type Output = Result<u8, Error>;

    fn cast(src: usize) -> (r: Result<u8, Error>)
        ensures
            match r {
                Ok(v) => spec_cast_int(spec_usize_kind(), ScalarKind::U8, src as int) == Ok::<int, Error>(v as int),
                Err(e) => spec_cast_int(spec_usize_kind(), ScalarKind::U8, src as int) == Err::<int, Error>(e),
            },
    {
        match cast_int(usize_kind(), ScalarKind::U8, src as i128) {
            Ok(v) => Ok(v as u8),
            Err(e) => Err(e),
        }
    }
}

impl From<usize> for u16 {
    type Output = Result<u16, Error>;

    fn cast(src: usize) -> (r: Result<u16, Error>)
        ensures
            match r {
                Ok(v) => spec_cast_int(spec_usize_kind(), ScalarKind::U16, src as int) == Ok::<int, Error>(v as int),
                Err(e) => spec_cast_int(spec_usize_kind(), ScalarKind::U16, src as int) == Err::<int, Error>(e),
            },
    {
        match cast_int(usize_kind(), ScalarKind::U16, src as i128) {
            Ok(v) => Ok(v as u16),
            Err(e) => Err(e),
        }
    }
}

impl From<usize> for u32 {
    type Output = Result<u32, Error>;

    fn cast(src: usize) -> (r: Result<u32, Error>)
        ensures
            match r {
                Ok(v) => spec_cast_int(spec_usize_kind(), ScalarKind::U32, src as int) == Ok::<int, Error>(v as int),
                Err(e) => spec_cast_int(spec_usize_kind(), ScalarKind::U32, src as int) == Err::<int, Error>(e),
            },
    {
        match cast_int(usize_kind(), ScalarKind::U32, src as i128) {
            Ok(v) => Ok(v as u32),
            Err(e) => Err(e),
        }
    }
}

impl From<usize> for u64 {
    type Output = u64;

    fn cast(src: usize) -> (r: u64)
        ensures
            r as int == src as int,
    {
        src as u64
    }
}

impl From<usize> for usize {
    type Output = usize;

    fn cast(src: usize) -> (r: usize)
        ensures
            r as int == src as int,
    {
        src as usize
    }
}
} // verus!
