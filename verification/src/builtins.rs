//! Built-in types of the language, type boundaries and the platform types an `extern` can name.
use vstd::prelude::*;

verus! {

/// Every built-in type kind, including the collection kinds that carry element types.
#[derive(Debug, PartialEq, Eq, Clone, Copy, Structural)]
pub enum BuiltinTypeKind {
    I8,
    U8,
    I16,
    U16,
    F16,
    I32,
    U32,
    F32,
    I64,
    U64,
    F64,
    I128,
    U128,
    F128,
    Sized,
    Unsized,
    Str,
    Char,
    Nil,
    Bool,
    BigInt,
    BigFloat,
    Runtime,
    List,
    SetOf,
    MapOf,
    Tuple,
}

/// A scalar built-in type, the ones core loads with a fixed `TypeId`.
#[derive(Debug, PartialEq, Eq, Clone, Copy, Structural)]
pub enum BuiltinType {
    I8,
    U8,
    I16,
    U16,
    F16,
    I32,
    U32,
    F32,
    I64,
    U64,
    F64,
    I128,
    U128,
    F128,
    Sized,
    Unsized,
    Str,
    Char,
    Nil,
    Bool,
    BigInt,
    BigFloat,
    Runtime,
}

/// Kind of a scalar built-in type.
pub open spec fn spec_builtin_kind(ty: BuiltinType) -> BuiltinTypeKind {
    match ty {
        BuiltinType::I8 => BuiltinTypeKind::I8,
        BuiltinType::U8 => BuiltinTypeKind::U8,
        BuiltinType::I16 => BuiltinTypeKind::I16,
        BuiltinType::U16 => BuiltinTypeKind::U16,
        BuiltinType::F16 => BuiltinTypeKind::F16,
        BuiltinType::I32 => BuiltinTypeKind::I32,
        BuiltinType::U32 => BuiltinTypeKind::U32,
        BuiltinType::F32 => BuiltinTypeKind::F32,
        BuiltinType::I64 => BuiltinTypeKind::I64,
        BuiltinType::U64 => BuiltinTypeKind::U64,
        BuiltinType::F64 => BuiltinTypeKind::F64,
        BuiltinType::I128 => BuiltinTypeKind::I128,
        BuiltinType::U128 => BuiltinTypeKind::U128,
        BuiltinType::F128 => BuiltinTypeKind::F128,
        BuiltinType::Sized => BuiltinTypeKind::Sized,
        BuiltinType::Unsized => BuiltinTypeKind::Unsized,
        BuiltinType::Str => BuiltinTypeKind::Str,
        BuiltinType::Char => BuiltinTypeKind::Char,
        BuiltinType::Nil => BuiltinTypeKind::Nil,
        BuiltinType::Bool => BuiltinTypeKind::Bool,
        BuiltinType::BigInt => BuiltinTypeKind::BigInt,
        BuiltinType::BigFloat => BuiltinTypeKind::BigFloat,
        BuiltinType::Runtime => BuiltinTypeKind::Runtime,
    }
}

impl BuiltinType {
    /// The kind of this built-in type.
    pub fn kind(&self) -> (res: BuiltinTypeKind)
        ensures
            res == spec_builtin_kind(*self),
    {
        match self {
            BuiltinType::I8 => BuiltinTypeKind::I8,
            BuiltinType::U8 => BuiltinTypeKind::U8,
            BuiltinType::I16 => BuiltinTypeKind::I16,
            BuiltinType::U16 => BuiltinTypeKind::U16,
            BuiltinType::F16 => BuiltinTypeKind::F16,
            BuiltinType::I32 => BuiltinTypeKind::I32,
            BuiltinType::U32 => BuiltinTypeKind::U32,
            BuiltinType::F32 => BuiltinTypeKind::F32,
            BuiltinType::I64 => BuiltinTypeKind::I64,
            BuiltinType::U64 => BuiltinTypeKind::U64,
            BuiltinType::F64 => BuiltinTypeKind::F64,
            BuiltinType::I128 => BuiltinTypeKind::I128,
            BuiltinType::U128 => BuiltinTypeKind::U128,
            BuiltinType::F128 => BuiltinTypeKind::F128,
            BuiltinType::Sized => BuiltinTypeKind::Sized,
            BuiltinType::Unsized => BuiltinTypeKind::Unsized,
            BuiltinType::Str => BuiltinTypeKind::Str,
            BuiltinType::Char => BuiltinTypeKind::Char,
            BuiltinType::Nil => BuiltinTypeKind::Nil,
            BuiltinType::Bool => BuiltinTypeKind::Bool,
            BuiltinType::BigInt => BuiltinTypeKind::BigInt,
            BuiltinType::BigFloat => BuiltinTypeKind::BigFloat,
            BuiltinType::Runtime => BuiltinTypeKind::Runtime,
        }
    }
}

/// Set of type boundaries, one bit each.
#[derive(Debug, PartialEq, Eq, Clone, Copy, Structural)]
pub struct TypeBoundaryFlags {
    pub bits: u16,
}

pub const BOUNDARY_RANGED: u16 = 1;
pub const BOUNDARY_CHARACTER_MAPPABLE: u16 = 2;
pub const BOUNDARY_COLLECTION: u16 = 4;
pub const BOUNDARY_HAS_LEN: u16 = 8;
pub const BOUNDARY_INTEGER: u16 = 16;
pub const BOUNDARY_NUMERIC: u16 = 32;
pub const BOUNDARY_SIGNED_INTEGER: u16 = 64;
pub const BOUNDARY_UNSIGNED_INTEGER: u16 = 128;
pub const BOUNDARY_FLOAT: u16 = 256;
pub const BOUNDARY_ORDERED: u16 = 512;
pub const BOUNDARY_COMPARABLE: u16 = 1024;

/// Rust types an `extern` namespace declares.
#[derive(Debug, PartialEq, Eq, Clone, Copy, Structural)]
pub enum RustTypeKind {
    U8,
    I8,
    U16,
    I16,
    U32,
    I32,
    F32,
    U64,
    I64,
    F64,
    I128,
    U128,
    F128,
    Usize,
    Isize,
    Bool,
    Char,
    Str,
    String,
}

/// Java types an `extern` namespace declares.
#[derive(Debug, PartialEq, Eq, Clone, Copy, Structural)]
pub enum JavaTypeKind {
    Long,
    Int,
    Short,
    Byte,
    Float,
    Double,
    Boolean,
    Char,
    String,
}

/// A type of a target platform.
#[derive(Debug, PartialEq, Eq, Clone, Copy, Structural)]
pub enum ExternPlatformType {
    Rust(RustTypeKind),
    Java(JavaTypeKind),
}

} // verus!
