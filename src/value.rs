//! The values that the bridge can hand to the boundary, each tagged by the
//! primitive kind it belongs to.
//!
//! Floating-point values cross this library as their IEEE 754 bit patterns:
//! the bridge never computes on them, it only tags and forwards them.

use vstd::prelude::*;
use crate::registry::{PrimitiveKind, TypeCodes, TypeTag};

verus! {

/// A 32-bit float, held as its bit pattern.
#[derive(Clone, Copy, Debug, PartialEq, Eq, Structural)]
pub struct F32Bits(pub u32);

/// A 64-bit float, held as its bit pattern.
#[derive(Clone, Copy, Debug, PartialEq, Eq, Structural)]
pub struct F64Bits(pub u64);

/// A type whose values the boundary takes as one primitive kind. Each
/// supported type implements it once; the put protocol and the matrix
/// payload are written against it alone.
pub trait Element: Copy {
    spec fn spec_kind() -> PrimitiveKind;

    fn kind() -> (k: PrimitiveKind)
        ensures
            k == Self::spec_kind(),
    ;
}

impl Element for i32 {
    open spec fn spec_kind() -> PrimitiveKind {
        PrimitiveKind::Int32
    }

    fn kind() -> (k: PrimitiveKind) {
        PrimitiveKind::Int32
    }
}

impl Element for i64 {
    open spec fn spec_kind() -> PrimitiveKind {
        PrimitiveKind::Int64
    }

    fn kind() -> (k: PrimitiveKind) {
        PrimitiveKind::Int64
    }
}

impl Element for F32Bits {
    open spec fn spec_kind() -> PrimitiveKind {
        PrimitiveKind::Float32
    }

    fn kind() -> (k: PrimitiveKind) {
        PrimitiveKind::Float32
    }
}

impl Element for F64Bits {
    open spec fn spec_kind() -> PrimitiveKind {
        PrimitiveKind::Float64
    }

    fn kind() -> (k: PrimitiveKind) {
        PrimitiveKind::Float64
    }
}

/// The type code that a scalar of type `T` is put with.
pub fn scalar_code<T: Element>(codes: &TypeCodes) -> (r: u32)
    ensures
        r == codes.spec_code(TypeTag::Primitive(T::spec_kind())),
{
    codes.code(TypeTag::Primitive(T::kind()))
}

/// The type code that a nested object is put with.
pub fn object_code(codes: &TypeCodes) -> (r: u32)
    ensures
        r == codes.spec_code(TypeTag::Object),
{
    codes.code(TypeTag::Object)
}

} // verus!
