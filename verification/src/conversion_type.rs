//! The single source of truth for how a type's values cross the
//! foreign-function boundary; every downstream eligibility decision
//! consults it.

use vstd::prelude::*;

use crate::library::{Fundamental, Library, Type, TypeId};

verus! {

/// The five transfer classes of the boundary.
#[derive(Clone, Copy, Debug, PartialEq, Eq, Structural)]
pub enum ConversionType {
    /// Transferred bit for bit, no translation.
    Direct,
    /// Needs a widening or narrowing numeric conversion.
    Scalar,
    /// An address whose ownership must be translated.
    Pointer,
    /// Only soundly exposed as a temporary reference.
    Borrow,
    /// No defined translation exists.
    Unknown,
}

impl Default for ConversionType {
    fn default() -> (r: Self)
        ensures
            r == ConversionType::Unknown,
    {
        ConversionType::Unknown
    }
}

/// The transfer class of a declared type.
pub open spec fn spec_of_type(t: Type) -> ConversionType {
    match t {
        Type::Fundamental(f) => match f {
            Fundamental::Boolean => ConversionType::Direct,
            Fundamental::Int8 => ConversionType::Direct,
            Fundamental::UInt8 => ConversionType::Direct,
            Fundamental::Int16 => ConversionType::Direct,
            Fundamental::UInt16 => ConversionType::Direct,
            Fundamental::Int32 => ConversionType::Direct,
            Fundamental::UInt32 => ConversionType::Direct,
            Fundamental::Int64 => ConversionType::Direct,
            Fundamental::UInt64 => ConversionType::Direct,
            Fundamental::Char => ConversionType::Direct,
            Fundamental::UChar => ConversionType::Direct,
            Fundamental::Float => ConversionType::Direct,
            Fundamental::Double => ConversionType::Direct,
            Fundamental::Short => ConversionType::Scalar,
            Fundamental::UShort => ConversionType::Scalar,
            Fundamental::Int => ConversionType::Scalar,
            Fundamental::UInt => ConversionType::Scalar,
            Fundamental::Long => ConversionType::Scalar,
            Fundamental::ULong => ConversionType::Scalar,
            Fundamental::Size => ConversionType::Scalar,
            Fundamental::SSize => ConversionType::Scalar,
            Fundamental::Type => ConversionType::Scalar,
            Fundamental::Utf8 => ConversionType::Pointer,
            Fundamental::Filename => ConversionType::Pointer,
            Fundamental::Pointer => ConversionType::Borrow,
            Fundamental::Void => ConversionType::Unknown,
            Fundamental::VarArgs => ConversionType::Unknown,
            Fundamental::Unsupported => ConversionType::Unknown,
        },
        Type::Enumeration(_) => ConversionType::Direct,
        Type::Bitfield(_) => ConversionType::Direct,
        Type::Record(_) => ConversionType::Pointer,
        Type::Class(_) => ConversionType::Pointer,
        Type::Interface(_) => ConversionType::Pointer,
        Type::Function(_) => ConversionType::Unknown,
    }
}

/// The transfer class behind a type identifier; an identifier that does
/// not resolve has no defined translation.
pub open spec fn spec_of(lib: &Library, tid: TypeId) -> ConversionType {
    if lib.spec_resolves(tid) {
        spec_of_type(lib.spec_type(tid))
    } else {
        ConversionType::Unknown
    }
}

impl ConversionType {
    /// Classify a type identifier: pure and total over every `TypeId`.
    pub fn of(lib: &Library, tid: TypeId) -> (r: ConversionType)
        ensures
            r == spec_of(lib, tid),
    {
        match lib.type_(tid) {
            Some(t) => match t {
                Type::Fundamental(f) => match f {
                    Fundamental::Boolean => ConversionType::Direct,
                    Fundamental::Int8 => ConversionType::Direct,
                    Fundamental::UInt8 => ConversionType::Direct,
                    Fundamental::Int16 => ConversionType::Direct,
                    Fundamental::UInt16 => ConversionType::Direct,
                    Fundamental::Int32 => ConversionType::Direct,
                    Fundamental::UInt32 => ConversionType::Direct,
                    Fundamental::Int64 => ConversionType::Direct,
                    Fundamental::UInt64 => ConversionType::Direct,
                    Fundamental::Char => ConversionType::Direct,
                    Fundamental::UChar => ConversionType::Direct,
                    Fundamental::Float => ConversionType::Direct,
                    Fundamental::Double => ConversionType::Direct,
                    Fundamental::Short => ConversionType::Scalar,
                    Fundamental::UShort => ConversionType::Scalar,
                    Fundamental::Int => ConversionType::Scalar,
                    Fundamental::UInt => ConversionType::Scalar,
                    Fundamental::Long => ConversionType::Scalar,
                    Fundamental::ULong => ConversionType::Scalar,
                    Fundamental::Size => ConversionType::Scalar,
                    Fundamental::SSize => ConversionType::Scalar,
                    Fundamental::Type => ConversionType::Scalar,
                    Fundamental::Utf8 => ConversionType::Pointer,
                    Fundamental::Filename => ConversionType::Pointer,
                    Fundamental::Pointer => ConversionType::Borrow,
                    Fundamental::Void => ConversionType::Unknown,
                    Fundamental::VarArgs => ConversionType::Unknown,
                    Fundamental::Unsupported => ConversionType::Unknown,
                },
                Type::Enumeration(_) => ConversionType::Direct,
                Type::Bitfield(_) => ConversionType::Direct,
                Type::Record(_) => ConversionType::Pointer,
                Type::Class(_) => ConversionType::Pointer,
                Type::Interface(_) => ConversionType::Pointer,
                Type::Function(_) => ConversionType::Unknown,
            },
            None => ConversionType::Unknown,
        }
    }
}

} // verus!
