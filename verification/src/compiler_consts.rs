//! Fixed `TypeId`s of the core built-in types and fixed `DirectiveId`s of the known directives.
use vstd::prelude::*;
use crate::builtins::BuiltinTypeKind;
use crate::directives::{DirectiveInline, TypeDirective};
use crate::ids::DirectiveId;

verus! {

pub const CORE_I8: u32 = 0;
pub const CORE_U8: u32 = 1;
pub const CORE_I16: u32 = 2;
pub const CORE_U16: u32 = 3;
pub const CORE_F16: u32 = 4;
pub const CORE_I32: u32 = 5;
pub const CORE_U32: u32 = 6;
pub const CORE_F32: u32 = 7;
pub const CORE_I64: u32 = 8;
pub const CORE_U64: u32 = 9;
pub const CORE_F64: u32 = 10;
pub const CORE_I128: u32 = 11;
pub const CORE_U128: u32 = 12;
pub const CORE_F128: u32 = 13;
pub const CORE_SIZED: u32 = 14;
pub const CORE_UNSIZED: u32 = 15;
pub const CORE_STR: u32 = 16;
pub const CORE_CHAR: u32 = 17;
pub const CORE_NIL: u32 = 18;
pub const CORE_BOOL: u32 = 19;
pub const CORE_BIGINT: u32 = 20;
pub const CORE_BIGFLOAT: u32 = 21;
pub const CORE_RUNTIME: u32 = 22;
/// `TypeId` of the unknown type, which has no identifier because it only signals a state.
pub const CORE_UNKNOWN: u32 = 23;

/// Whether a built-in kind has a fixed core `TypeId`; the collection kinds do not.
pub open spec fn has_core_id(ty: BuiltinTypeKind) -> bool {
    !(ty is List || ty is SetOf || ty is MapOf || ty is Tuple)
}

/// The fixed core `TypeId` of a scalar built-in kind.
pub open spec fn spec_builtin_ty_to_id(ty: BuiltinTypeKind) -> u32 {
    match ty {
        BuiltinTypeKind::I8 => CORE_I8,
        BuiltinTypeKind::U8 => CORE_U8,
        BuiltinTypeKind::I16 => CORE_I16,
        BuiltinTypeKind::U16 => CORE_U16,
        BuiltinTypeKind::F16 => CORE_F16,
        BuiltinTypeKind::I32 => CORE_I32,
        BuiltinTypeKind::U32 => CORE_U32,
        BuiltinTypeKind::F32 => CORE_F32,
        BuiltinTypeKind::I64 => CORE_I64,
        BuiltinTypeKind::U64 => CORE_U64,
        BuiltinTypeKind::F64 => CORE_F64,
        BuiltinTypeKind::I128 => CORE_I128,
        BuiltinTypeKind::U128 => CORE_U128,
        BuiltinTypeKind::F128 => CORE_F128,
        BuiltinTypeKind::Sized => CORE_SIZED,
        BuiltinTypeKind::Unsized => CORE_UNSIZED,
        BuiltinTypeKind::Bool => CORE_BOOL,
        BuiltinTypeKind::Nil => CORE_NIL,
        BuiltinTypeKind::Char => CORE_CHAR,
        BuiltinTypeKind::Str => CORE_STR,
        BuiltinTypeKind::BigInt => CORE_BIGINT,
        BuiltinTypeKind::BigFloat => CORE_BIGFLOAT,
        BuiltinTypeKind::Runtime => CORE_RUNTIME,
        _ => CORE_UNKNOWN,
    }
}

/// Converts built-ins with a compile-time id to `u32`.
pub fn builtin_ty_to_id(ty: BuiltinTypeKind) -> (res: u32)
    requires
        has_core_id(ty),
    ensures
        res == spec_builtin_ty_to_id(ty),
        res < CORE_UNKNOWN,
{
    match ty {
        BuiltinTypeKind::I8 => CORE_I8,
        BuiltinTypeKind::U8 => CORE_U8,
        BuiltinTypeKind::I16 => CORE_I16,
        BuiltinTypeKind::U16 => CORE_U16,
        BuiltinTypeKind::F16 => CORE_F16,
        BuiltinTypeKind::I32 => CORE_I32,
        BuiltinTypeKind::U32 => CORE_U32,
        BuiltinTypeKind::F32 => CORE_F32,
        BuiltinTypeKind::I64 => CORE_I64,
        BuiltinTypeKind::U64 => CORE_U64,
        BuiltinTypeKind::F64 => CORE_F64,
        BuiltinTypeKind::I128 => CORE_I128,
        BuiltinTypeKind::U128 => CORE_U128,
        BuiltinTypeKind::F128 => CORE_F128,
        BuiltinTypeKind::Sized => CORE_SIZED,
        BuiltinTypeKind::Unsized => CORE_UNSIZED,
        BuiltinTypeKind::Bool => CORE_BOOL,
        BuiltinTypeKind::Nil => CORE_NIL,
        BuiltinTypeKind::Char => CORE_CHAR,
        BuiltinTypeKind::Str => CORE_STR,
        BuiltinTypeKind::BigInt => CORE_BIGINT,
        BuiltinTypeKind::BigFloat => CORE_BIGFLOAT,
        BuiltinTypeKind::Runtime => CORE_RUNTIME,
        BuiltinTypeKind::List | BuiltinTypeKind::SetOf | BuiltinTypeKind::MapOf
        | BuiltinTypeKind::Tuple => CORE_UNKNOWN,
    }
}

/// Two different scalar built-in kinds never share a core `TypeId`.
pub proof fn lemma_builtin_ids_distinct(a: BuiltinTypeKind, b: BuiltinTypeKind)
    requires
        has_core_id(a),
        has_core_id(b),
        a != b,
    ensures
        spec_builtin_ty_to_id(a) != spec_builtin_ty_to_id(b),
{
}

pub const DIRECTIVE_WARN_IDX: usize = 0;
pub const DIRECTIVE_IGNORE_IDX: usize = 1;
pub const DIRECTIVE_SCIENT_IDX: usize = 2;
pub const DIRECTIVE_HEX_IDX: usize = 3;
pub const DIRECTIVE_BIN_IDX: usize = 4;
pub const DIRECTIVE_OCTAL_IDX: usize = 5;
pub const DIRECTIVE_UNICODE_IDX: usize = 6;

/// The built-in `DirectiveId` of a directive.
pub open spec fn spec_directive_to_id(directive: DirectiveInline) -> DirectiveId {
    match directive {
        DirectiveInline::Warn => 0,
        DirectiveInline::Ignore => 1,
        DirectiveInline::Type(TypeDirective::Scient) => 2,
        DirectiveInline::Type(TypeDirective::Hex) => 3,
        DirectiveInline::Type(TypeDirective::Bin) => 4,
        DirectiveInline::Type(TypeDirective::Octal) => 5,
        DirectiveInline::Type(TypeDirective::Unicode) => 6,
    }
}

/// Maps given directive to its built-in `DirectiveId`.
pub fn directive_to_id_const(directive: &DirectiveInline) -> (res: DirectiveId)
    ensures
        res == spec_directive_to_id(*directive),
{
    let idx: usize = match directive {
        DirectiveInline::Warn => DIRECTIVE_WARN_IDX,
        DirectiveInline::Ignore => DIRECTIVE_IGNORE_IDX,
        DirectiveInline::Type(type_directive) => match type_directive {
            TypeDirective::Scient => DIRECTIVE_SCIENT_IDX,
            TypeDirective::Hex => DIRECTIVE_HEX_IDX,
            TypeDirective::Bin => DIRECTIVE_BIN_IDX,
            TypeDirective::Octal => DIRECTIVE_OCTAL_IDX,
            TypeDirective::Unicode => DIRECTIVE_UNICODE_IDX,
        },
    };
    idx as u32
}

/// Two different directives never share a `DirectiveId`.
pub proof fn lemma_directive_ids_distinct(a: DirectiveInline, b: DirectiveInline)
    requires
        a != b,
    ensures
        spec_directive_to_id(a) != spec_directive_to_id(b),
{
}

} // verus!
