//! The type catalog: the twelve scalar kinds, their width, signedness and
//! representable integer range, and the resolution of the two native-width
//! kinds to fixed-width kinds.

use vstd::prelude::*;

verus! {

/// One of the twelve machine scalar kinds.
///
/// `NativeInt` and `NativeUint` have no width of their own: before any
/// classification or range check they are resolved, once per build, to the
/// 32-bit or 64-bit kind that matches the platform pointer width.
#[derive(Clone, Copy, Debug, PartialEq, Eq, Structural)]
pub enum ScalarKind {
    I8,
    I16,
    I32,
    I64,
    U8,
    U16,
    U32,
    U64,
    F32,
    F64,
    NativeInt,
    NativeUint,
}

/// The platform pointer width, the one piece of configuration the catalog
/// consumes.  It decides what the two native-width kinds alias.
#[derive(Clone, Copy, Debug, PartialEq, Eq, Structural)]
pub enum PlatformWidth {
    W32,
    W64,
}

impl ScalarKind {
    /// A concrete kind is any kind but the two native-width aliases.
    pub open spec fn is_concrete(self) -> bool {
        self !is NativeInt && self !is NativeUint
    }

    /// The two floating-point kinds.
    pub open spec fn is_float(self) -> bool {
        self is F32 || self is F64
    }

    /// The signed integer kinds (native included).
    pub open spec fn is_signed_int(self) -> bool {
        self is I8 || self is I16 || self is I32 || self is I64 || self is NativeInt
    }

    /// The unsigned integer kinds (native included).
    pub open spec fn is_unsigned_int(self) -> bool {
        self is U8 || self is U16 || self is U32 || self is U64 || self is NativeUint
    }

    /// Any integer kind, signed or unsigned.
    pub open spec fn is_int(self) -> bool {
        self.is_signed_int() || self.is_unsigned_int()
    }

    /// Bit width of a concrete kind.
    pub open spec fn width(self) -> nat
        recommends
            self.is_concrete(),
    {
        match self {
            ScalarKind::I8 => 8,
            ScalarKind::I16 => 16,
            ScalarKind::I32 => 32,
            ScalarKind::I64 => 64,
            ScalarKind::U8 => 8,
            ScalarKind::U16 => 16,
            ScalarKind::U32 => 32,
            ScalarKind::U64 => 64,
            ScalarKind::F32 => 32,
            ScalarKind::F64 => 64,
            ScalarKind::NativeInt => 0,
            ScalarKind::NativeUint => 0,
        }
    }

    /// Smallest value representable in a concrete integer kind.
    pub open spec fn min_value(self) -> int
        recommends
            self.is_concrete() && self.is_int(),
    {
        match self {
            ScalarKind::I8 => -0x80,
            ScalarKind::I16 => -0x8000,
            ScalarKind::I32 => -0x8000_0000,
            ScalarKind::I64 => -0x8000_0000_0000_0000,
            _ => 0,
        }
    }

    /// Largest value representable in a concrete integer kind.
    pub open spec fn max_value(self) -> int
        recommends
            self.is_concrete() && self.is_int(),
    {
        match self {
            ScalarKind::I8 => 0x7f,
            ScalarKind::I16 => 0x7fff,
            ScalarKind::I32 => 0x7fff_ffff,
            ScalarKind::I64 => 0x7fff_ffff_ffff_ffff,
            ScalarKind::U8 => 0xff,
            ScalarKind::U16 => 0xffff,
            ScalarKind::U32 => 0xffff_ffff,
            ScalarKind::U64 => 0xffff_ffff_ffff_ffff,
            _ => 0,
        }
    }

    /// Whether the integer `v` is representable in the concrete integer kind
    /// `self`.
    pub open spec fn in_range(self, v: int) -> bool
        recommends
            self.is_concrete() && self.is_int(),
    {
        self.min_value() <= v <= self.max_value()
    }

    /// Resolution of the native-width kinds, as a spec-level function of the
    /// platform width; the identity on the ten fixed-width kinds.
    pub open spec fn spec_resolve(self, w: PlatformWidth) -> ScalarKind {
        match self {
            ScalarKind::NativeInt => if w is W32 {
                ScalarKind::I32
            } else {
                ScalarKind::I64
            },
            ScalarKind::NativeUint => if w is W32 {
                ScalarKind::U32
            } else {
                ScalarKind::U64
            },
            _ => self,
        }
    }

    /// Resolve the two native-width kinds to their fixed-width counterpart
    /// under the platform width `w`; every other kind resolves to itself.
    pub fn resolve(self, w: PlatformWidth) -> (r: ScalarKind)
        ensures
            r == self.spec_resolve(w),
            r.is_concrete(),
            self.is_int() ==> r.is_int(),
            self.is_float() ==> r == self,
    {
        match self {
            ScalarKind::NativeInt => if w == PlatformWidth::W32 {
                ScalarKind::I32
            } else {
                ScalarKind::I64
            },
            ScalarKind::NativeUint => if w == PlatformWidth::W32 {
                ScalarKind::U32
            } else {
                ScalarKind::U64
            },
            _ => self,
        }
    }

    /// Exact representable bounds `(min, max)` of a concrete integer kind.
    pub fn range_of(self) -> (r: (i128, i128))
        requires
            self.is_concrete() && self.is_int(),
        ensures
            r.0 as int == self.min_value(),
            r.1 as int == self.max_value(),
    {
        match self {
            ScalarKind::I8 => (-0x80, 0x7f),
            ScalarKind::I16 => (-0x8000, 0x7fff),
            ScalarKind::I32 => (-0x8000_0000, 0x7fff_ffff),
            ScalarKind::I64 => (-0x8000_0000_0000_0000, 0x7fff_ffff_ffff_ffff),
            ScalarKind::U8 => (0, 0xff),
            ScalarKind::U16 => (0, 0xffff),
            ScalarKind::U32 => (0, 0xffff_ffff),
            _ => (0, 0xffff_ffff_ffff_ffff),
        }
    }
}

/// The platform width of this build, read from the width of `usize`.
/// This is the single configuration value the catalog consumes; it is fixed
/// for the lifetime of the program.
pub open spec fn spec_native_width() -> PlatformWidth {
    if usize::BITS == 32 {
        PlatformWidth::W32
    } else {
        PlatformWidth::W64
    }
}

/// Reads the platform pointer width of this build.
pub fn native_width() -> (w: PlatformWidth)
    ensures
        w == spec_native_width(),
{
    if usize::BITS == 32 {
        PlatformWidth::W32
    } else {
        PlatformWidth::W64
    }
}

/// The fixed-width kind that the native signed kind resolves to in this
/// build.
pub open spec fn spec_isize_kind() -> ScalarKind {
    ScalarKind::NativeInt.spec_resolve(spec_native_width())
}

/// The fixed-width kind that the native unsigned kind resolves to in this
/// build.
pub open spec fn spec_usize_kind() -> ScalarKind {
    ScalarKind::NativeUint.spec_resolve(spec_native_width())
}

/// Resolve the native signed kind under this build's platform width.
pub fn isize_kind() -> (k: ScalarKind)
    ensures
        k == spec_isize_kind(),
{
    ScalarKind::NativeInt.resolve(native_width())
}

/// Resolve the native unsigned kind under this build's platform width.
pub fn usize_kind() -> (k: ScalarKind)
    ensures
        k == spec_usize_kind(),
{
    ScalarKind::NativeUint.resolve(native_width())
}

} // verus!
