//! Compiler generated data of the core module and the arena reservations it needs.
use vstd::prelude::*;
use crate::builtins::{
    spec_builtin_kind,
    BuiltinType, TypeBoundaryFlags, BOUNDARY_CHARACTER_MAPPABLE, BOUNDARY_COLLECTION,
    BOUNDARY_COMPARABLE, BOUNDARY_FLOAT, BOUNDARY_HAS_LEN, BOUNDARY_INTEGER, BOUNDARY_NUMERIC,
    BOUNDARY_ORDERED, BOUNDARY_RANGED, BOUNDARY_SIGNED_INTEGER, BOUNDARY_UNSIGNED_INTEGER,
};
use crate::compiler_consts::{has_core_id, spec_builtin_ty_to_id, CORE_BOOL};
use crate::hir::{ArgConstraint, BuiltinFuncKind, SymbolOrigin};
use crate::intern::{
    INTERNED_CHARACTER_MAPPABLE, INTERNED_COLLECTION, INTERNED_COMPARABLE, INTERNED_CONTAINS,
    INTERNED_ENDSW, INTERNED_EQUALS, INTERNED_FLOAT, INTERNED_HAS_LEN, INTERNED_INTEGER,
    INTERNED_IS_EMPTY, INTERNED_IS_WHITESPACE, INTERNED_NUMERIC, INTERNED_ORDERED,
    INTERNED_RANGE, INTERNED_RANGED, INTERNED_SIGNED_INTEGER, INTERNED_STARTSW,
    INTERNED_UNSIGNED_INTEGER,
    INTERNED_BIGFLOAT, INTERNED_BIGINT, INTERNED_BOOL, INTERNED_CHAR, INTERNED_F128, INTERNED_F16,
    INTERNED_F32, INTERNED_F64, INTERNED_I128, INTERNED_I16, INTERNED_I32, INTERNED_I64, INTERNED_I8,
    INTERNED_NIL, INTERNED_RUNTIME, INTERNED_SIZED, INTERNED_STR, INTERNED_U128, INTERNED_U16,
    INTERNED_U32, INTERNED_U64, INTERNED_U8, INTERNED_UNSIZED,
    INTERNED_BITS_UPPER, INTERNED_BYTES_UPPER, INTERNED_DIGITS, INTERNED_E_UPPER,
    INTERNED_EPSILON, INTERNED_EULER_GAMMA, INTERNED_FRAC_1_PI, INTERNED_FRAC_1_SQRT_2,
    INTERNED_FRAC_2_PI, INTERNED_FRAC_2_SQRT_PI, INTERNED_FRAC_PI_2, INTERNED_FRAC_PI_3,
    INTERNED_FRAC_PI_4, INTERNED_FRAC_PI_6, INTERNED_FRAC_PI_8, INTERNED_GOLDEN_RATIO,
    INTERNED_INFINITY, INTERNED_LN_10, INTERNED_LN_2, INTERNED_LOG10_2, INTERNED_LOG10_E,
    INTERNED_LOG2_10, INTERNED_LOG2_E, INTERNED_MANTISSA_DIGITS, INTERNED_MAX_UPPER,
    INTERNED_MIN_POSITIVE, INTERNED_MIN_UPPER, INTERNED_NAN, INTERNED_NEG_INFINITY,
    INTERNED_PI_UPPER, INTERNED_RADIX, INTERNED_SQRT_2, INTERNED_SQRT_3, INTERNED_TAU,
};
use crate::scopes::ScopeType;
use crate::instantiation_symbols::{
    is_scalar_value,
    spec_base_scope_count, spec_base_symbol_count, spec_base_variable_count, spec_scope_count,
    spec_symbol_count, spec_variable_count, lemma_counts_of_prefix, lemma_counts_step,
    InstantiationSymbolBase, InstantiationSymbolKind, InstantiationVariable, InstiationType,
    InstiationValue,
};

verus! {

/// Origin of every core namespace constant.
pub const CORE_SYM_ORIGIN: SymbolOrigin = SymbolOrigin::Compiler;
/// Scope type of every core namespace constant.
pub const CORE_SCOPE_ORIGIN: ScopeType = ScopeType::Core;
/// Privacy of every core namespace constant.
pub const CORE_IS_PRIV: bool = false;

/// Description of a core namespace constant named `name_id`, typed `ty` and holding `val`.
pub open spec fn core_constant(name_id: u32, ty: BuiltinType, val: InstiationValue) -> InstantiationSymbolBase {
    InstantiationSymbolBase {
        name_id,
        sym_origin: SymbolOrigin::Compiler,
        scope_origin: ScopeType::Core,
        is_priv: false,
        kind: InstantiationSymbolKind::Variable(
            InstantiationVariable { ty: InstiationType::BuiltinType(ty), val },
        ),
    }
}

/// Whether `base` describes a core namespace constant.
pub open spec fn is_core_constant(base: InstantiationSymbolBase) -> bool {
    &&& base.sym_origin == SymbolOrigin::Compiler
    &&& base.scope_origin == ScopeType::Core
    &&& !base.is_priv
    &&& base.kind matches InstantiationSymbolKind::Variable(var) && is_scalar_value(var.val)
}

fn int_var(val: i64) -> (res: InstantiationVariable)
    ensures
        res == (InstantiationVariable {
            ty: InstiationType::BuiltinType(BuiltinType::I64),
            val: InstiationValue::I64(val),
        }),
{
    InstantiationVariable::new(InstiationType::BuiltinType(BuiltinType::I64), InstiationValue::I64(val))
}

fn float_var(bits: u64) -> (res: InstantiationVariable)
    ensures
        res == (InstantiationVariable {
            ty: InstiationType::BuiltinType(BuiltinType::F64),
            val: InstiationValue::F64(bits),
        }),
{
    InstantiationVariable::new(InstiationType::BuiltinType(BuiltinType::F64), InstiationValue::F64(bits))
}

fn new_const(id: u32, var: InstantiationVariable) -> (res: InstantiationSymbolBase)
    ensures
        res == (InstantiationSymbolBase {
            name_id: id,
            sym_origin: SymbolOrigin::Compiler,
            scope_origin: ScopeType::Core,
            is_priv: false,
            kind: InstantiationSymbolKind::Variable(var),
        }),
{
    InstantiationSymbolBase::new(
        id,
        CORE_SYM_ORIGIN,
        CORE_SCOPE_ORIGIN,
        CORE_IS_PRIV,
        InstantiationSymbolKind::Variable(var),
    )
}

fn new_max(var: InstantiationVariable) -> (res: InstantiationSymbolBase)
    ensures
        res == (InstantiationSymbolBase {
            name_id: INTERNED_MAX_UPPER,
            sym_origin: SymbolOrigin::Compiler,
            scope_origin: ScopeType::Core,
            is_priv: false,
            kind: InstantiationSymbolKind::Variable(var),
        }),
{
    new_const(INTERNED_MAX_UPPER, var)
}

fn new_min(var: InstantiationVariable) -> (res: InstantiationSymbolBase)
    ensures
        res == (InstantiationSymbolBase {
            name_id: INTERNED_MIN_UPPER,
            sym_origin: SymbolOrigin::Compiler,
            scope_origin: ScopeType::Core,
            is_priv: false,
            kind: InstantiationSymbolKind::Variable(var),
        }),
{
    new_const(INTERNED_MIN_UPPER, var)
}

fn new_bits(bits: i64) -> (res: InstantiationSymbolBase)
    ensures
        res == core_constant(INTERNED_BITS_UPPER, BuiltinType::I64, InstiationValue::I64(bits)),
{
    new_const(INTERNED_BITS_UPPER, int_var(bits))
}

fn new_bytes(bytes: i64) -> (res: InstantiationSymbolBase)
    ensures
        res == core_constant(INTERNED_BYTES_UPPER, BuiltinType::I64, InstiationValue::I64(bytes)),
{
    new_const(INTERNED_BYTES_UPPER, int_var(bytes))
}

fn new_radix(radix: i64) -> (res: InstantiationSymbolBase)
    ensures
        res == core_constant(INTERNED_RADIX, BuiltinType::I64, InstiationValue::I64(radix)),
{
    new_const(INTERNED_RADIX, int_var(radix))
}

fn new_digits(digits: i64) -> (res: InstantiationSymbolBase)
    ensures
        res == core_constant(INTERNED_DIGITS, BuiltinType::I64, InstiationValue::I64(digits)),
{
    new_const(INTERNED_DIGITS, int_var(digits))
}

fn new_mantissa_digits(mantissa_digits: i64) -> (res: InstantiationSymbolBase)
    ensures
        res == core_constant(
            INTERNED_MANTISSA_DIGITS,
            BuiltinType::I64,
            InstiationValue::I64(mantissa_digits),
        ),
{
    new_const(INTERNED_MANTISSA_DIGITS, int_var(mantissa_digits))
}

/// Intrinsic namespace of `i8`, such as `i8::BITS`.
pub open spec fn spec_namespace_i8() -> Seq<InstantiationSymbolBase> {
    seq![
        core_constant(INTERNED_MAX_UPPER, BuiltinType::I64, InstiationValue::I64(127)),
        core_constant(INTERNED_MIN_UPPER, BuiltinType::I64, InstiationValue::I64(-128i64)),
        core_constant(INTERNED_BITS_UPPER, BuiltinType::I64, InstiationValue::I64(8)),
        core_constant(INTERNED_BYTES_UPPER, BuiltinType::I64, InstiationValue::I64(1)),
        core_constant(INTERNED_RADIX, BuiltinType::I64, InstiationValue::I64(2)),
    ]
}

/// Builds the intrinsic namespace of `i8`.
pub fn namespace_i8() -> (res: Vec<InstantiationSymbolBase>)
    ensures
        res@ == spec_namespace_i8(),
{
    vec![
        new_max(int_var(127)),
        new_min(int_var(-128)),
        new_bits(8),
        new_bytes(1),
        new_radix(2),
    ]
}

/// Intrinsic namespace of `u8`, such as `u8::BITS`.
pub open spec fn spec_namespace_u8() -> Seq<InstantiationSymbolBase> {
    seq![
        core_constant(INTERNED_MAX_UPPER, BuiltinType::I64, InstiationValue::I64(255)),
        core_constant(INTERNED_MIN_UPPER, BuiltinType::I64, InstiationValue::I64(0)),
        core_constant(INTERNED_BITS_UPPER, BuiltinType::I64, InstiationValue::I64(8)),
        core_constant(INTERNED_BYTES_UPPER, BuiltinType::I64, InstiationValue::I64(1)),
        core_constant(INTERNED_RADIX, BuiltinType::I64, InstiationValue::I64(2)),
    ]
}

/// Builds the intrinsic namespace of `u8`.
pub fn namespace_u8() -> (res: Vec<InstantiationSymbolBase>)
    ensures
        res@ == spec_namespace_u8(),
{
    vec![
        new_max(int_var(255)),
        new_min(int_var(0)),
        new_bits(8),
        new_bytes(1),
        new_radix(2),
    ]
}

/// Intrinsic namespace of `i16`, such as `i16::BITS`.
pub open spec fn spec_namespace_i16() -> Seq<InstantiationSymbolBase> {
    seq![
        core_constant(INTERNED_MAX_UPPER, BuiltinType::I64, InstiationValue::I64(32767)),
        core_constant(INTERNED_MIN_UPPER, BuiltinType::I64, InstiationValue::I64(-32768i64)),
        core_constant(INTERNED_BITS_UPPER, BuiltinType::I64, InstiationValue::I64(16)),
        core_constant(INTERNED_BYTES_UPPER, BuiltinType::I64, InstiationValue::I64(2)),
        core_constant(INTERNED_RADIX, BuiltinType::I64, InstiationValue::I64(2)),
    ]
}

/// Builds the intrinsic namespace of `i16`.
pub fn namespace_i16() -> (res: Vec<InstantiationSymbolBase>)
    ensures
        res@ == spec_namespace_i16(),
{
    vec![
        new_max(int_var(32767)),
        new_min(int_var(-32768)),
        new_bits(16),
        new_bytes(2),
        new_radix(2),
    ]
}

/// Intrinsic namespace of `u16`, such as `u16::BITS`.
pub open spec fn spec_namespace_u16() -> Seq<InstantiationSymbolBase> {
    seq![
        core_constant(INTERNED_MAX_UPPER, BuiltinType::I64, InstiationValue::I64(65535)),
        core_constant(INTERNED_MIN_UPPER, BuiltinType::I64, InstiationValue::I64(0)),
        core_constant(INTERNED_BITS_UPPER, BuiltinType::I64, InstiationValue::I64(16)),
        core_constant(INTERNED_BYTES_UPPER, BuiltinType::I64, InstiationValue::I64(2)),
        core_constant(INTERNED_RADIX, BuiltinType::I64, InstiationValue::I64(2)),
    ]
}

/// Builds the intrinsic namespace of `u16`.
pub fn namespace_u16() -> (res: Vec<InstantiationSymbolBase>)
    ensures
        res@ == spec_namespace_u16(),
{
    vec![
        new_max(int_var(65535)),
        new_min(int_var(0)),
        new_bits(16),
        new_bytes(2),
        new_radix(2),
    ]
}

/// Intrinsic namespace of `f16`, such as `f16::BITS`.
pub open spec fn spec_namespace_f16() -> Seq<InstantiationSymbolBase> {
    seq![
        core_constant(INTERNED_MAX_UPPER, BuiltinType::F64, InstiationValue::F64(0x40effc0000000000)),
        core_constant(INTERNED_MIN_UPPER, BuiltinType::F64, InstiationValue::F64(0xc0effc0000000000)),
        core_constant(INTERNED_BITS_UPPER, BuiltinType::I64, InstiationValue::I64(16)),
        core_constant(INTERNED_BYTES_UPPER, BuiltinType::I64, InstiationValue::I64(2)),
        core_constant(INTERNED_RADIX, BuiltinType::I64, InstiationValue::I64(2)),
        core_constant(INTERNED_DIGITS, BuiltinType::I64, InstiationValue::I64(3)),
        core_constant(INTERNED_MANTISSA_DIGITS, BuiltinType::I64, InstiationValue::I64(11)),
        core_constant(INTERNED_EPSILON, BuiltinType::F64, InstiationValue::F64(0x3f50000000000000)),
        core_constant(INTERNED_INFINITY, BuiltinType::F64, InstiationValue::F64(0x7ff0000000000000)),
        core_constant(INTERNED_NEG_INFINITY, BuiltinType::F64, InstiationValue::F64(0xfff0000000000000)),
        core_constant(INTERNED_NAN, BuiltinType::F64, InstiationValue::F64(0x7ff8000000000000)),
        core_constant(INTERNED_MIN_POSITIVE, BuiltinType::F64, InstiationValue::F64(0x3f10000000000000)),
        core_constant(INTERNED_PI_UPPER, BuiltinType::F64, InstiationValue::F64(0x4009200000000000)),
        core_constant(INTERNED_E_UPPER, BuiltinType::F64, InstiationValue::F64(0x4005c00000000000)),
        core_constant(INTERNED_TAU, BuiltinType::F64, InstiationValue::F64(0x4019200000000000)),
        core_constant(INTERNED_FRAC_1_PI, BuiltinType::F64, InstiationValue::F64(0x3fd4600000000000)),
        core_constant(INTERNED_FRAC_1_SQRT_2, BuiltinType::F64, InstiationValue::F64(0x3fe6a00000000000)),
        core_constant(INTERNED_FRAC_2_PI, BuiltinType::F64, InstiationValue::F64(0x3fe4600000000000)),
        core_constant(INTERNED_FRAC_2_SQRT_PI, BuiltinType::F64, InstiationValue::F64(0x3ff20c0000000000)),
        core_constant(INTERNED_FRAC_PI_2, BuiltinType::F64, InstiationValue::F64(0x3ff9200000000000)),
        core_constant(INTERNED_FRAC_PI_3, BuiltinType::F64, InstiationValue::F64(0x3ff0c00000000000)),
        core_constant(INTERNED_FRAC_PI_4, BuiltinType::F64, InstiationValue::F64(0x3fe9200000000000)),
        core_constant(INTERNED_FRAC_PI_6, BuiltinType::F64, InstiationValue::F64(0x3fe0c00000000000)),
        core_constant(INTERNED_FRAC_PI_8, BuiltinType::F64, InstiationValue::F64(0x3fd9200000000000)),
        core_constant(INTERNED_LN_2, BuiltinType::F64, InstiationValue::F64(0x3fe6300000000000)),
        core_constant(INTERNED_LN_10, BuiltinType::F64, InstiationValue::F64(0x40026c0000000000)),
        core_constant(INTERNED_LOG2_10, BuiltinType::F64, InstiationValue::F64(0x400a940000000000)),
        core_constant(INTERNED_LOG2_E, BuiltinType::F64, InstiationValue::F64(0x3ff7140000000000)),
        core_constant(INTERNED_LOG10_2, BuiltinType::F64, InstiationValue::F64(0x3fd3440000000000)),
        core_constant(INTERNED_LOG10_E, BuiltinType::F64, InstiationValue::F64(0x3fdbcc0000000000)),
        core_constant(INTERNED_SQRT_2, BuiltinType::F64, InstiationValue::F64(0x3ff6a00000000000)),
        core_constant(INTERNED_SQRT_3, BuiltinType::F64, InstiationValue::F64(0x3ffbb80000000000)),
        core_constant(INTERNED_GOLDEN_RATIO, BuiltinType::F64, InstiationValue::F64(0x3ff9e40000000000)),
        core_constant(INTERNED_EULER_GAMMA, BuiltinType::F64, InstiationValue::F64(0x3fe2780000000000)),
    ]
}

/// Builds the intrinsic namespace of `f16`.
pub fn namespace_f16() -> (res: Vec<InstantiationSymbolBase>)
    ensures
        res@ == spec_namespace_f16(),
{
    vec![
        new_max(float_var(0x40effc0000000000)),
        new_min(float_var(0xc0effc0000000000)),
        new_bits(16),
        new_bytes(2),
        new_radix(2),
        new_digits(3),
        new_mantissa_digits(11),
        new_const(INTERNED_EPSILON, float_var(0x3f50000000000000)),
        new_const(INTERNED_INFINITY, float_var(0x7ff0000000000000)),
        new_const(INTERNED_NEG_INFINITY, float_var(0xfff0000000000000)),
        new_const(INTERNED_NAN, float_var(0x7ff8000000000000)),
        new_const(INTERNED_MIN_POSITIVE, float_var(0x3f10000000000000)),
        new_const(INTERNED_PI_UPPER, float_var(0x4009200000000000)),
        new_const(INTERNED_E_UPPER, float_var(0x4005c00000000000)),
        new_const(INTERNED_TAU, float_var(0x4019200000000000)),
        new_const(INTERNED_FRAC_1_PI, float_var(0x3fd4600000000000)),
        new_const(INTERNED_FRAC_1_SQRT_2, float_var(0x3fe6a00000000000)),
        new_const(INTERNED_FRAC_2_PI, float_var(0x3fe4600000000000)),
        new_const(INTERNED_FRAC_2_SQRT_PI, float_var(0x3ff20c0000000000)),
        new_const(INTERNED_FRAC_PI_2, float_var(0x3ff9200000000000)),
        new_const(INTERNED_FRAC_PI_3, float_var(0x3ff0c00000000000)),
        new_const(INTERNED_FRAC_PI_4, float_var(0x3fe9200000000000)),
        new_const(INTERNED_FRAC_PI_6, float_var(0x3fe0c00000000000)),
        new_const(INTERNED_FRAC_PI_8, float_var(0x3fd9200000000000)),
        new_const(INTERNED_LN_2, float_var(0x3fe6300000000000)),
        new_const(INTERNED_LN_10, float_var(0x40026c0000000000)),
        new_const(INTERNED_LOG2_10, float_var(0x400a940000000000)),
        new_const(INTERNED_LOG2_E, float_var(0x3ff7140000000000)),
        new_const(INTERNED_LOG10_2, float_var(0x3fd3440000000000)),
        new_const(INTERNED_LOG10_E, float_var(0x3fdbcc0000000000)),
        new_const(INTERNED_SQRT_2, float_var(0x3ff6a00000000000)),
        new_const(INTERNED_SQRT_3, float_var(0x3ffbb80000000000)),
        new_const(INTERNED_GOLDEN_RATIO, float_var(0x3ff9e40000000000)),
        new_const(INTERNED_EULER_GAMMA, float_var(0x3fe2780000000000)),
    ]
}

/// Intrinsic namespace of `i32`, such as `i32::BITS`.
pub open spec fn spec_namespace_i32() -> Seq<InstantiationSymbolBase> {
    seq![
        core_constant(INTERNED_MAX_UPPER, BuiltinType::I64, InstiationValue::I64(2147483647)),
        core_constant(INTERNED_MIN_UPPER, BuiltinType::I64, InstiationValue::I64(-2147483648i64)),
        core_constant(INTERNED_BITS_UPPER, BuiltinType::I64, InstiationValue::I64(32)),
        core_constant(INTERNED_BYTES_UPPER, BuiltinType::I64, InstiationValue::I64(4)),
        core_constant(INTERNED_RADIX, BuiltinType::I64, InstiationValue::I64(2)),
    ]
}

/// Builds the intrinsic namespace of `i32`.
pub fn namespace_i32() -> (res: Vec<InstantiationSymbolBase>)
    ensures
        res@ == spec_namespace_i32(),
{
    vec![
        new_max(int_var(2147483647)),
        new_min(int_var(-2147483648)),
        new_bits(32),
        new_bytes(4),
        new_radix(2),
    ]
}

/// Intrinsic namespace of `u32`, such as `u32::BITS`.
pub open spec fn spec_namespace_u32() -> Seq<InstantiationSymbolBase> {
    seq![
        core_constant(INTERNED_MAX_UPPER, BuiltinType::I64, InstiationValue::I64(4294967295)),
        core_constant(INTERNED_MIN_UPPER, BuiltinType::I64, InstiationValue::I64(0)),
        core_constant(INTERNED_BITS_UPPER, BuiltinType::I64, InstiationValue::I64(32)),
        core_constant(INTERNED_BYTES_UPPER, BuiltinType::I64, InstiationValue::I64(4)),
        core_constant(INTERNED_RADIX, BuiltinType::I64, InstiationValue::I64(2)),
    ]
}

/// Builds the intrinsic namespace of `u32`.
pub fn namespace_u32() -> (res: Vec<InstantiationSymbolBase>)
    ensures
        res@ == spec_namespace_u32(),
{
    vec![
        new_max(int_var(4294967295)),
        new_min(int_var(0)),
        new_bits(32),
        new_bytes(4),
        new_radix(2),
    ]
}

/// Intrinsic namespace of `f32`, such as `f32::BITS`.
pub open spec fn spec_namespace_f32() -> Seq<InstantiationSymbolBase> {
    seq![
        core_constant(INTERNED_MAX_UPPER, BuiltinType::F64, InstiationValue::F64(0x47efffffe0000000)),
        core_constant(INTERNED_MIN_UPPER, BuiltinType::F64, InstiationValue::F64(0xc7efffffe0000000)),
        core_constant(INTERNED_BITS_UPPER, BuiltinType::I64, InstiationValue::I64(32)),
        core_constant(INTERNED_BYTES_UPPER, BuiltinType::I64, InstiationValue::I64(4)),
        core_constant(INTERNED_RADIX, BuiltinType::I64, InstiationValue::I64(2)),
        core_constant(INTERNED_DIGITS, BuiltinType::I64, InstiationValue::I64(6)),
        core_constant(INTERNED_MANTISSA_DIGITS, BuiltinType::I64, InstiationValue::I64(24)),
        core_constant(INTERNED_EPSILON, BuiltinType::F64, InstiationValue::F64(0x3e80000000000000)),
        core_constant(INTERNED_INFINITY, BuiltinType::F64, InstiationValue::F64(0x7ff0000000000000)),
        core_constant(INTERNED_NEG_INFINITY, BuiltinType::F64, InstiationValue::F64(0xfff0000000000000)),
        core_constant(INTERNED_NAN, BuiltinType::F64, InstiationValue::F64(0x7ff8000000000000)),
        core_constant(INTERNED_MIN_POSITIVE, BuiltinType::F64, InstiationValue::F64(0x3810000000000000)),
        core_constant(INTERNED_PI_UPPER, BuiltinType::F64, InstiationValue::F64(0x400921fb60000000)),
        core_constant(INTERNED_E_UPPER, BuiltinType::F64, InstiationValue::F64(0x4005bf0a80000000)),
        core_constant(INTERNED_TAU, BuiltinType::F64, InstiationValue::F64(0x401921fb60000000)),
        core_constant(INTERNED_FRAC_1_PI, BuiltinType::F64, InstiationValue::F64(0x3fd45f3060000000)),
        core_constant(INTERNED_FRAC_1_SQRT_2, BuiltinType::F64, InstiationValue::F64(0x3fe6a09e60000000)),
        core_constant(INTERNED_FRAC_2_PI, BuiltinType::F64, InstiationValue::F64(0x3fe45f3060000000)),
        core_constant(INTERNED_FRAC_2_SQRT_PI, BuiltinType::F64, InstiationValue::F64(0x3ff20dd760000000)),
        core_constant(INTERNED_FRAC_PI_2, BuiltinType::F64, InstiationValue::F64(0x3ff921fb60000000)),
        core_constant(INTERNED_FRAC_PI_3, BuiltinType::F64, InstiationValue::F64(0x3ff0c15240000000)),
        core_constant(INTERNED_FRAC_PI_4, BuiltinType::F64, InstiationValue::F64(0x3fe921fb60000000)),
        core_constant(INTERNED_FRAC_PI_6, BuiltinType::F64, InstiationValue::F64(0x3fe0c15240000000)),
        core_constant(INTERNED_FRAC_PI_8, BuiltinType::F64, InstiationValue::F64(0x3fd921fb60000000)),
        core_constant(INTERNED_LN_2, BuiltinType::F64, InstiationValue::F64(0x3fe62e4300000000)),
        core_constant(INTERNED_LN_10, BuiltinType::F64, InstiationValue::F64(0x40026bb1c0000000)),
        core_constant(INTERNED_LOG2_10, BuiltinType::F64, InstiationValue::F64(0x400a934f00000000)),
        core_constant(INTERNED_LOG2_E, BuiltinType::F64, InstiationValue::F64(0x3ff7154760000000)),
        core_constant(INTERNED_LOG10_2, BuiltinType::F64, InstiationValue::F64(0x3fd3441360000000)),
        core_constant(INTERNED_LOG10_E, BuiltinType::F64, InstiationValue::F64(0x3fdbcb7b20000000)),
        core_constant(INTERNED_SQRT_2, BuiltinType::F64, InstiationValue::F64(0x3ff6a09e60000000)),
        core_constant(INTERNED_SQRT_3, BuiltinType::F64, InstiationValue::F64(0x3ffbb67ae0000000)),
        core_constant(INTERNED_GOLDEN_RATIO, BuiltinType::F64, InstiationValue::F64(0x3ff9e377a0000000)),
        core_constant(INTERNED_EULER_GAMMA, BuiltinType::F64, InstiationValue::F64(0x3fe2788d00000000)),
    ]
}

/// Builds the intrinsic namespace of `f32`.
pub fn namespace_f32() -> (res: Vec<InstantiationSymbolBase>)
    ensures
        res@ == spec_namespace_f32(),
{
    vec![
        new_max(float_var(0x47efffffe0000000)),
        new_min(float_var(0xc7efffffe0000000)),
        new_bits(32),
        new_bytes(4),
        new_radix(2),
        new_digits(6),
        new_mantissa_digits(24),
        new_const(INTERNED_EPSILON, float_var(0x3e80000000000000)),
        new_const(INTERNED_INFINITY, float_var(0x7ff0000000000000)),
        new_const(INTERNED_NEG_INFINITY, float_var(0xfff0000000000000)),
        new_const(INTERNED_NAN, float_var(0x7ff8000000000000)),
        new_const(INTERNED_MIN_POSITIVE, float_var(0x3810000000000000)),
        new_const(INTERNED_PI_UPPER, float_var(0x400921fb60000000)),
        new_const(INTERNED_E_UPPER, float_var(0x4005bf0a80000000)),
        new_const(INTERNED_TAU, float_var(0x401921fb60000000)),
        new_const(INTERNED_FRAC_1_PI, float_var(0x3fd45f3060000000)),
        new_const(INTERNED_FRAC_1_SQRT_2, float_var(0x3fe6a09e60000000)),
        new_const(INTERNED_FRAC_2_PI, float_var(0x3fe45f3060000000)),
        new_const(INTERNED_FRAC_2_SQRT_PI, float_var(0x3ff20dd760000000)),
        new_const(INTERNED_FRAC_PI_2, float_var(0x3ff921fb60000000)),
        new_const(INTERNED_FRAC_PI_3, float_var(0x3ff0c15240000000)),
        new_const(INTERNED_FRAC_PI_4, float_var(0x3fe921fb60000000)),
        new_const(INTERNED_FRAC_PI_6, float_var(0x3fe0c15240000000)),
        new_const(INTERNED_FRAC_PI_8, float_var(0x3fd921fb60000000)),
        new_const(INTERNED_LN_2, float_var(0x3fe62e4300000000)),
        new_const(INTERNED_LN_10, float_var(0x40026bb1c0000000)),
        new_const(INTERNED_LOG2_10, float_var(0x400a934f00000000)),
        new_const(INTERNED_LOG2_E, float_var(0x3ff7154760000000)),
        new_const(INTERNED_LOG10_2, float_var(0x3fd3441360000000)),
        new_const(INTERNED_LOG10_E, float_var(0x3fdbcb7b20000000)),
        new_const(INTERNED_SQRT_2, float_var(0x3ff6a09e60000000)),
        new_const(INTERNED_SQRT_3, float_var(0x3ffbb67ae0000000)),
        new_const(INTERNED_GOLDEN_RATIO, float_var(0x3ff9e377a0000000)),
        new_const(INTERNED_EULER_GAMMA, float_var(0x3fe2788d00000000)),
    ]
}

/// Intrinsic namespace of `i64`, such as `i64::BITS`.
pub open spec fn spec_namespace_i64() -> Seq<InstantiationSymbolBase> {
    seq![
        core_constant(INTERNED_MAX_UPPER, BuiltinType::I64, InstiationValue::I64(9223372036854775807)),
        core_constant(INTERNED_MIN_UPPER, BuiltinType::I64, InstiationValue::I64(i64::MIN)),
        core_constant(INTERNED_BITS_UPPER, BuiltinType::I64, InstiationValue::I64(64)),
        core_constant(INTERNED_BYTES_UPPER, BuiltinType::I64, InstiationValue::I64(8)),
        core_constant(INTERNED_RADIX, BuiltinType::I64, InstiationValue::I64(2)),
    ]
}

/// Builds the intrinsic namespace of `i64`.
pub fn namespace_i64() -> (res: Vec<InstantiationSymbolBase>)
    ensures
        res@ == spec_namespace_i64(),
{
    vec![
        new_max(int_var(9223372036854775807)),
        new_min(int_var(i64::MIN)),
        new_bits(64),
        new_bytes(8),
        new_radix(2),
    ]
}

/// Intrinsic namespace of `u64`, such as `u64::BITS`.
pub open spec fn spec_namespace_u64() -> Seq<InstantiationSymbolBase> {
    seq![
        core_constant(INTERNED_BITS_UPPER, BuiltinType::I64, InstiationValue::I64(64)),
        core_constant(INTERNED_BYTES_UPPER, BuiltinType::I64, InstiationValue::I64(8)),
        core_constant(INTERNED_RADIX, BuiltinType::I64, InstiationValue::I64(2)),
    ]
}

/// Builds the intrinsic namespace of `u64`.
pub fn namespace_u64() -> (res: Vec<InstantiationSymbolBase>)
    ensures
        res@ == spec_namespace_u64(),
{
    vec![
        new_bits(64),
        new_bytes(8),
        new_radix(2),
    ]
}

/// Intrinsic namespace of `f64`, such as `f64::BITS`.
pub open spec fn spec_namespace_f64() -> Seq<InstantiationSymbolBase> {
    seq![
        core_constant(INTERNED_MAX_UPPER, BuiltinType::F64, InstiationValue::F64(0x7fefffffffffffff)),
        core_constant(INTERNED_MIN_UPPER, BuiltinType::F64, InstiationValue::F64(0xffefffffffffffff)),
        core_constant(INTERNED_BITS_UPPER, BuiltinType::I64, InstiationValue::I64(64)),
        core_constant(INTERNED_BYTES_UPPER, BuiltinType::I64, InstiationValue::I64(8)),
        core_constant(INTERNED_RADIX, BuiltinType::I64, InstiationValue::I64(2)),
        core_constant(INTERNED_DIGITS, BuiltinType::I64, InstiationValue::I64(15)),
        core_constant(INTERNED_MANTISSA_DIGITS, BuiltinType::I64, InstiationValue::I64(53)),
        core_constant(INTERNED_EPSILON, BuiltinType::F64, InstiationValue::F64(0x3cb0000000000000)),
        core_constant(INTERNED_INFINITY, BuiltinType::F64, InstiationValue::F64(0x7ff0000000000000)),
        core_constant(INTERNED_NEG_INFINITY, BuiltinType::F64, InstiationValue::F64(0xfff0000000000000)),
        core_constant(INTERNED_NAN, BuiltinType::F64, InstiationValue::F64(0x7ff8000000000000)),
        core_constant(INTERNED_MIN_POSITIVE, BuiltinType::F64, InstiationValue::F64(0x0010000000000000)),
        core_constant(INTERNED_PI_UPPER, BuiltinType::F64, InstiationValue::F64(0x400921fb54442d18)),
        core_constant(INTERNED_E_UPPER, BuiltinType::F64, InstiationValue::F64(0x4005bf0a8b145769)),
        core_constant(INTERNED_TAU, BuiltinType::F64, InstiationValue::F64(0x401921fb54442d18)),
        core_constant(INTERNED_FRAC_1_PI, BuiltinType::F64, InstiationValue::F64(0x3fd45f306dc9c883)),
        core_constant(INTERNED_FRAC_1_SQRT_2, BuiltinType::F64, InstiationValue::F64(0x3fe6a09e667f3bcd)),
        core_constant(INTERNED_FRAC_2_PI, BuiltinType::F64, InstiationValue::F64(0x3fe45f306dc9c883)),
        core_constant(INTERNED_FRAC_2_SQRT_PI, BuiltinType::F64, InstiationValue::F64(0x3ff20dd750429b6d)),
        core_constant(INTERNED_FRAC_PI_2, BuiltinType::F64, InstiationValue::F64(0x3ff921fb54442d18)),
        core_constant(INTERNED_FRAC_PI_3, BuiltinType::F64, InstiationValue::F64(0x3ff0c152382d7366)),
        core_constant(INTERNED_FRAC_PI_4, BuiltinType::F64, InstiationValue::F64(0x3fe921fb54442d18)),
        core_constant(INTERNED_FRAC_PI_6, BuiltinType::F64, InstiationValue::F64(0x3fe0c152382d7366)),
        core_constant(INTERNED_FRAC_PI_8, BuiltinType::F64, InstiationValue::F64(0x3fd921fb54442d18)),
        core_constant(INTERNED_LN_2, BuiltinType::F64, InstiationValue::F64(0x3fe62e42fefa39ef)),
        core_constant(INTERNED_LN_10, BuiltinType::F64, InstiationValue::F64(0x40026bb1bbb55516)),
        core_constant(INTERNED_LOG2_10, BuiltinType::F64, InstiationValue::F64(0x400a934f0979a371)),
        core_constant(INTERNED_LOG2_E, BuiltinType::F64, InstiationValue::F64(0x3ff71547652b82fe)),
        core_constant(INTERNED_LOG10_2, BuiltinType::F64, InstiationValue::F64(0x3fd34413509f79ff)),
        core_constant(INTERNED_LOG10_E, BuiltinType::F64, InstiationValue::F64(0x3fdbcb7b1526e50e)),
        core_constant(INTERNED_SQRT_2, BuiltinType::F64, InstiationValue::F64(0x3ff6a09e667f3bcd)),
        core_constant(INTERNED_SQRT_3, BuiltinType::F64, InstiationValue::F64(0x3ffbb67ae8584caa)),
        core_constant(INTERNED_GOLDEN_RATIO, BuiltinType::F64, InstiationValue::F64(0x3ff9e3779b97f4a8)),
        core_constant(INTERNED_EULER_GAMMA, BuiltinType::F64, InstiationValue::F64(0x3fe2788cfc6fb619)),
    ]
}

/// Builds the intrinsic namespace of `f64`.
pub fn namespace_f64() -> (res: Vec<InstantiationSymbolBase>)
    ensures
        res@ == spec_namespace_f64(),
{
    vec![
        new_max(float_var(0x7fefffffffffffff)),
        new_min(float_var(0xffefffffffffffff)),
        new_bits(64),
        new_bytes(8),
        new_radix(2),
        new_digits(15),
        new_mantissa_digits(53),
        new_const(INTERNED_EPSILON, float_var(0x3cb0000000000000)),
        new_const(INTERNED_INFINITY, float_var(0x7ff0000000000000)),
        new_const(INTERNED_NEG_INFINITY, float_var(0xfff0000000000000)),
        new_const(INTERNED_NAN, float_var(0x7ff8000000000000)),
        new_const(INTERNED_MIN_POSITIVE, float_var(0x0010000000000000)),
        new_const(INTERNED_PI_UPPER, float_var(0x400921fb54442d18)),
        new_const(INTERNED_E_UPPER, float_var(0x4005bf0a8b145769)),
        new_const(INTERNED_TAU, float_var(0x401921fb54442d18)),
        new_const(INTERNED_FRAC_1_PI, float_var(0x3fd45f306dc9c883)),
        new_const(INTERNED_FRAC_1_SQRT_2, float_var(0x3fe6a09e667f3bcd)),
        new_const(INTERNED_FRAC_2_PI, float_var(0x3fe45f306dc9c883)),
        new_const(INTERNED_FRAC_2_SQRT_PI, float_var(0x3ff20dd750429b6d)),
        new_const(INTERNED_FRAC_PI_2, float_var(0x3ff921fb54442d18)),
        new_const(INTERNED_FRAC_PI_3, float_var(0x3ff0c152382d7366)),
        new_const(INTERNED_FRAC_PI_4, float_var(0x3fe921fb54442d18)),
        new_const(INTERNED_FRAC_PI_6, float_var(0x3fe0c152382d7366)),
        new_const(INTERNED_FRAC_PI_8, float_var(0x3fd921fb54442d18)),
        new_const(INTERNED_LN_2, float_var(0x3fe62e42fefa39ef)),
        new_const(INTERNED_LN_10, float_var(0x40026bb1bbb55516)),
        new_const(INTERNED_LOG2_10, float_var(0x400a934f0979a371)),
        new_const(INTERNED_LOG2_E, float_var(0x3ff71547652b82fe)),
        new_const(INTERNED_LOG10_2, float_var(0x3fd34413509f79ff)),
        new_const(INTERNED_LOG10_E, float_var(0x3fdbcb7b1526e50e)),
        new_const(INTERNED_SQRT_2, float_var(0x3ff6a09e667f3bcd)),
        new_const(INTERNED_SQRT_3, float_var(0x3ffbb67ae8584caa)),
        new_const(INTERNED_GOLDEN_RATIO, float_var(0x3ff9e3779b97f4a8)),
        new_const(INTERNED_EULER_GAMMA, float_var(0x3fe2788cfc6fb619)),
    ]
}

/// Number of core built-in types; they take the `TypeId`s below `CORE_UNKNOWN`.
pub const CORE_BUILTIN_COUNT: usize = 23;

/// Interned names of the core built-in types, in loading order.
pub open spec fn spec_core_builtin_names() -> Seq<u32> {
    seq![INTERNED_I8, INTERNED_U8, INTERNED_I16, INTERNED_U16, INTERNED_F16, INTERNED_I32, INTERNED_U32, INTERNED_F32, INTERNED_I64, INTERNED_U64, INTERNED_F64, INTERNED_I128, INTERNED_U128, INTERNED_F128, INTERNED_SIZED, INTERNED_UNSIZED, INTERNED_STR, INTERNED_CHAR, INTERNED_NIL, INTERNED_BOOL, INTERNED_BIGINT, INTERNED_BIGFLOAT, INTERNED_RUNTIME]
}

/// The core built-in types, in loading order.
pub open spec fn spec_core_builtin_types() -> Seq<BuiltinType> {
    seq![
        BuiltinType::I8,
        BuiltinType::U8,
        BuiltinType::I16,
        BuiltinType::U16,
        BuiltinType::F16,
        BuiltinType::I32,
        BuiltinType::U32,
        BuiltinType::F32,
        BuiltinType::I64,
        BuiltinType::U64,
        BuiltinType::F64,
        BuiltinType::I128,
        BuiltinType::U128,
        BuiltinType::F128,
        BuiltinType::Sized,
        BuiltinType::Unsized,
        BuiltinType::Str,
        BuiltinType::Char,
        BuiltinType::Nil,
        BuiltinType::Bool,
        BuiltinType::BigInt,
        BuiltinType::BigFloat,
        BuiltinType::Runtime,
    ]
}

/// Intrinsic namespace of the core built-in type at position `i`; empty for most.
pub open spec fn spec_core_builtin_namespace(i: int) -> Seq<InstantiationSymbolBase> {
    if i == 0 {
        spec_namespace_i8()
    } else if i == 1 {
        spec_namespace_u8()
    } else if i == 2 {
        spec_namespace_i16()
    } else if i == 3 {
        spec_namespace_u16()
    } else if i == 4 {
        spec_namespace_f16()
    } else if i == 5 {
        spec_namespace_i32()
    } else if i == 6 {
        spec_namespace_u32()
    } else if i == 7 {
        spec_namespace_f32()
    } else if i == 8 {
        spec_namespace_i64()
    } else if i == 9 {
        spec_namespace_u64()
    } else if i == 10 {
        spec_namespace_f64()
    } else {
        Seq::empty()
    }
}

/// Every core builtin type, paired with its interned name and its intrinsic namespace. The
/// position of an entry is the `TypeId` it gets: `load_core_types` loads them sequentially.
pub fn core_builtin_types_dataset() -> (res: Vec<(u32, BuiltinType, Vec<InstantiationSymbolBase>)>)
    ensures
        res.len() == CORE_BUILTIN_COUNT,
        forall|i: int|
            0 <= i < CORE_BUILTIN_COUNT ==> {
                &&& (#[trigger] res@[i]).0 == spec_core_builtin_names()[i]
                &&& res@[i].1 == spec_core_builtin_types()[i]
                &&& res@[i].2@ == spec_core_builtin_namespace(i)
            },
{
    let res = vec![
        (INTERNED_I8, BuiltinType::I8, namespace_i8()),
        (INTERNED_U8, BuiltinType::U8, namespace_u8()),
        (INTERNED_I16, BuiltinType::I16, namespace_i16()),
        (INTERNED_U16, BuiltinType::U16, namespace_u16()),
        (INTERNED_F16, BuiltinType::F16, namespace_f16()),
        (INTERNED_I32, BuiltinType::I32, namespace_i32()),
        (INTERNED_U32, BuiltinType::U32, namespace_u32()),
        (INTERNED_F32, BuiltinType::F32, namespace_f32()),
        (INTERNED_I64, BuiltinType::I64, namespace_i64()),
        (INTERNED_U64, BuiltinType::U64, namespace_u64()),
        (INTERNED_F64, BuiltinType::F64, namespace_f64()),
        (INTERNED_I128, BuiltinType::I128, Vec::new()),
        (INTERNED_U128, BuiltinType::U128, Vec::new()),
        (INTERNED_F128, BuiltinType::F128, Vec::new()),
        (INTERNED_SIZED, BuiltinType::Sized, Vec::new()),
        (INTERNED_UNSIZED, BuiltinType::Unsized, Vec::new()),
        (INTERNED_STR, BuiltinType::Str, Vec::new()),
        (INTERNED_CHAR, BuiltinType::Char, Vec::new()),
        (INTERNED_NIL, BuiltinType::Nil, Vec::new()),
        (INTERNED_BOOL, BuiltinType::Bool, Vec::new()),
        (INTERNED_BIGINT, BuiltinType::BigInt, Vec::new()),
        (INTERNED_BIGFLOAT, BuiltinType::BigFloat, Vec::new()),
        (INTERNED_RUNTIME, BuiltinType::Runtime, Vec::new()),
    ];
    res
}

/// Every core boundary type, paired with its interned name. Loaded after the built-in types and
/// the unknown type, so their `TypeId`s follow `CORE_UNKNOWN`.
pub open spec fn spec_core_boundaries() -> Seq<(u32, TypeBoundaryFlags)> {
    seq![
        (INTERNED_RANGED, TypeBoundaryFlags { bits: BOUNDARY_RANGED }),
        (INTERNED_CHARACTER_MAPPABLE, TypeBoundaryFlags { bits: BOUNDARY_CHARACTER_MAPPABLE }),
        (INTERNED_COLLECTION, TypeBoundaryFlags { bits: BOUNDARY_COLLECTION }),
        (INTERNED_HAS_LEN, TypeBoundaryFlags { bits: BOUNDARY_HAS_LEN }),
        (INTERNED_INTEGER, TypeBoundaryFlags { bits: BOUNDARY_INTEGER }),
        (INTERNED_NUMERIC, TypeBoundaryFlags { bits: BOUNDARY_NUMERIC }),
        (INTERNED_SIGNED_INTEGER, TypeBoundaryFlags { bits: BOUNDARY_SIGNED_INTEGER }),
        (INTERNED_UNSIGNED_INTEGER, TypeBoundaryFlags { bits: BOUNDARY_UNSIGNED_INTEGER }),
        (INTERNED_FLOAT, TypeBoundaryFlags { bits: BOUNDARY_FLOAT }),
        (INTERNED_ORDERED, TypeBoundaryFlags { bits: BOUNDARY_ORDERED }),
        (INTERNED_COMPARABLE, TypeBoundaryFlags { bits: BOUNDARY_COMPARABLE }),
    ]
}

/// Number of core boundary types.
pub const CORE_BOUNDARY_COUNT: usize = 11;

/// Builds the table of core boundary types.
pub fn core_boundaries_dataset() -> (res: Vec<(u32, TypeBoundaryFlags)>)
    ensures
        res@ == spec_core_boundaries(),
        res.len() == CORE_BOUNDARY_COUNT,
{
    vec![
        (INTERNED_RANGED, TypeBoundaryFlags { bits: BOUNDARY_RANGED }),
        (INTERNED_CHARACTER_MAPPABLE, TypeBoundaryFlags { bits: BOUNDARY_CHARACTER_MAPPABLE }),
        (INTERNED_COLLECTION, TypeBoundaryFlags { bits: BOUNDARY_COLLECTION }),
        (INTERNED_HAS_LEN, TypeBoundaryFlags { bits: BOUNDARY_HAS_LEN }),
        (INTERNED_INTEGER, TypeBoundaryFlags { bits: BOUNDARY_INTEGER }),
        (INTERNED_NUMERIC, TypeBoundaryFlags { bits: BOUNDARY_NUMERIC }),
        (INTERNED_SIGNED_INTEGER, TypeBoundaryFlags { bits: BOUNDARY_SIGNED_INTEGER }),
        (INTERNED_UNSIGNED_INTEGER, TypeBoundaryFlags { bits: BOUNDARY_UNSIGNED_INTEGER }),
        (INTERNED_FLOAT, TypeBoundaryFlags { bits: BOUNDARY_FLOAT }),
        (INTERNED_ORDERED, TypeBoundaryFlags { bits: BOUNDARY_ORDERED }),
        (INTERNED_COMPARABLE, TypeBoundaryFlags { bits: BOUNDARY_COMPARABLE }),
    ]
}

/// A single core function or predicate, minus the ids the compiler assigns while loading.
#[derive(Debug, Clone)]
pub struct CoreFunc {
    /// Interned index of the function's name
    pub name: u32,
    pub kind: BuiltinFuncKind,
    pub type_constraints: TypeBoundaryFlags,
    pub arg_constraints: Vec<ArgConstraint>,
    pub affects_type_constraint: bool,
    /// `TypeId` of the return type, which must already be loaded as a core type
    pub ret_type: u32,
}

impl CoreFunc {
    fn new(
        name: u32,
        kind: BuiltinFuncKind,
        type_constraints: TypeBoundaryFlags,
        arg_constraints: Vec<ArgConstraint>,
        affects_type_constraint: bool,
        ret_type: u32,
    ) -> (res: CoreFunc)
        ensures
            res == (CoreFunc {
                name,
                kind,
                type_constraints,
                arg_constraints,
                affects_type_constraint,
                ret_type,
            }),
    {
        CoreFunc { name, kind, type_constraints, arg_constraints, affects_type_constraint, ret_type }
    }
}

/// Number of core functions.
pub const CORE_FUNC_COUNT: usize = 7;

/// Interned names of the core functions, in loading order.
pub open spec fn spec_core_func_names() -> Seq<u32> {
    seq![
        INTERNED_IS_EMPTY,
        INTERNED_IS_WHITESPACE,
        INTERNED_CONTAINS,
        INTERNED_STARTSW,
        INTERNED_ENDSW,
        INTERNED_RANGE,
        INTERNED_EQUALS,
    ]
}

/// Kinds of the core functions, in loading order.
pub open spec fn spec_core_func_kinds() -> Seq<BuiltinFuncKind> {
    seq![
        BuiltinFuncKind::IsEmpty,
        BuiltinFuncKind::IsWhitespace,
        BuiltinFuncKind::Contains,
        BuiltinFuncKind::StartsW,
        BuiltinFuncKind::EndsW,
        BuiltinFuncKind::Range,
        BuiltinFuncKind::Equals,
    ]
}

/// Boundary a core function's receiver must have, in loading order.
pub open spec fn spec_core_func_constraints() -> Seq<u16> {
    seq![
        BOUNDARY_COLLECTION,
        BOUNDARY_CHARACTER_MAPPABLE,
        BOUNDARY_CHARACTER_MAPPABLE,
        BOUNDARY_CHARACTER_MAPPABLE,
        BOUNDARY_CHARACTER_MAPPABLE,
        BOUNDARY_RANGED,
        BOUNDARY_COMPARABLE,
    ]
}

/// Argument constraints of the core function at position `i`.
pub open spec fn spec_core_func_args(i: int) -> Seq<ArgConstraint> {
    if i == 0 {
        seq![ArgConstraint::ArgCount(0)]
    } else if i == 1 {
        seq![ArgConstraint::ArgCount(0), ArgConstraint::CharacterMappable]
    } else if 2 <= i <= 4 {
        seq![ArgConstraint::ArgCount(1), ArgConstraint::CharacterMappable]
    } else if i == 5 {
        seq![
            ArgConstraint::ArgCount(2),
            ArgConstraint::Numeric,
            ArgConstraint::MatchingArgumentTypes,
            ArgConstraint::SameTypeAsSelf,
        ]
    } else {
        seq![ArgConstraint::ArgCount(1), ArgConstraint::Comparable, ArgConstraint::SameTypeAsSelf]
    }
}

/// Every core function and predicate. `load_core_funcs` loads them sequentially, after the
/// built-in types, the unknown type, and the boundaries. Each returns a `bool` and affects the type
/// constraint of its receiver.
pub fn core_funcs_dataset() -> (res: Vec<CoreFunc>)
    ensures
        res.len() == CORE_FUNC_COUNT,
        forall|i: int|
            0 <= i < CORE_FUNC_COUNT ==> {
                &&& (#[trigger] res@[i]).name == spec_core_func_names()[i]
                &&& res@[i].kind == spec_core_func_kinds()[i]
                &&& res@[i].type_constraints.bits == spec_core_func_constraints()[i]
                &&& res@[i].arg_constraints@ == spec_core_func_args(i)
                &&& res@[i].affects_type_constraint
                &&& res@[i].ret_type == CORE_BOOL
            },
{
    let character_mappable = TypeBoundaryFlags { bits: BOUNDARY_CHARACTER_MAPPABLE };
    let res = vec![
        CoreFunc::new(
            INTERNED_IS_EMPTY,
            BuiltinFuncKind::IsEmpty,
            TypeBoundaryFlags { bits: BOUNDARY_COLLECTION },
            vec![ArgConstraint::ArgCount(0)],
            true,
            CORE_BOOL,
        ),
        CoreFunc::new(
            INTERNED_IS_WHITESPACE,
            BuiltinFuncKind::IsWhitespace,
            character_mappable,
            vec![ArgConstraint::ArgCount(0), ArgConstraint::CharacterMappable],
            true,
            CORE_BOOL,
        ),
        CoreFunc::new(
            INTERNED_CONTAINS,
            BuiltinFuncKind::Contains,
            character_mappable,
            vec![ArgConstraint::ArgCount(1), ArgConstraint::CharacterMappable],
            true,
            CORE_BOOL,
        ),
        CoreFunc::new(
            INTERNED_STARTSW,
            BuiltinFuncKind::StartsW,
            character_mappable,
            vec![ArgConstraint::ArgCount(1), ArgConstraint::CharacterMappable],
            true,
            CORE_BOOL,
        ),
        CoreFunc::new(
            INTERNED_ENDSW,
            BuiltinFuncKind::EndsW,
            character_mappable,
            vec![ArgConstraint::ArgCount(1), ArgConstraint::CharacterMappable],
            true,
            CORE_BOOL,
        ),
        CoreFunc::new(
            INTERNED_RANGE,
            BuiltinFuncKind::Range,
            TypeBoundaryFlags { bits: BOUNDARY_RANGED },
            vec![
                ArgConstraint::ArgCount(2),
                ArgConstraint::Numeric,
                ArgConstraint::MatchingArgumentTypes,
                ArgConstraint::SameTypeAsSelf,
            ],
            true,
            CORE_BOOL,
        ),
        CoreFunc::new(
            INTERNED_EQUALS,
            BuiltinFuncKind::Equals,
            TypeBoundaryFlags { bits: BOUNDARY_COMPARABLE },
            vec![
                ArgConstraint::ArgCount(1),
                ArgConstraint::Comparable,
                ArgConstraint::SameTypeAsSelf,
            ],
            true,
            CORE_BOOL,
        ),
    ];
    res
}

/// What a set of instantiation bases contributes to the compiler's arenas when registered.
#[derive(Debug, PartialEq, Eq, Clone, Copy, Structural)]
pub struct InstantiationReservations {
    pub symbols: usize,
    pub scopes: usize,
    /// One `VarDef`, one `ResolvedExpr`, and one `ValueInfo` each.
    pub variables: usize,
}

impl Default for InstantiationReservations {
    fn default() -> (res: InstantiationReservations)
        ensures
            res.symbols == 0,
            res.scopes == 0,
            res.variables == 0,
    {
        InstantiationReservations { symbols: 0, scopes: 0, variables: 0 }
    }
}

impl InstantiationReservations {
    /// Adds the counts of `other` to these.
    pub fn merge(&mut self, other: InstantiationReservations)
        requires
            old(self).symbols + other.symbols <= usize::MAX,
            old(self).scopes + other.scopes <= usize::MAX,
            old(self).variables + other.variables <= usize::MAX,
        ensures
            final(self).symbols == old(self).symbols + other.symbols,
            final(self).scopes == old(self).scopes + other.scopes,
            final(self).variables == old(self).variables + other.variables,
    {
        self.symbols += other.symbols;
        self.scopes += other.scopes;
        self.variables += other.variables;
    }
}

/// Counts what `register_instantiation_bases` pushes for `bases`. Every base is one symbol, a
/// namespace additionally owns a scope and whatever it holds.
pub fn count_instantiation_bases(bases: &[InstantiationSymbolBase]) -> (res: InstantiationReservations)
    requires
        spec_symbol_count(bases@) <= usize::MAX,
    ensures
        res.symbols == spec_symbol_count(bases@),
        res.scopes == spec_scope_count(bases@),
        res.variables == spec_variable_count(bases@),
    decreases bases@,
{
    let mut counts = InstantiationReservations::default();
    let n = bases.len();
    let mut i: usize = 0;
    while i < n
        invariant
            n == bases@.len(),
            0 <= i <= n,
            spec_symbol_count(bases@) <= usize::MAX,
            counts.symbols == spec_symbol_count(bases@.take(i as int)),
            counts.scopes == spec_scope_count(bases@.take(i as int)),
            counts.variables == spec_variable_count(bases@.take(i as int)),
        decreases n - i,
    {
        let base = &bases[i];
        proof {
            lemma_counts_step(bases@, i as int);
            lemma_counts_of_prefix(bases@, i + 1);
            lemma_scopes_and_variables_bounded(bases@.take(i + 1));
        }
        counts.symbols += 1;
        match &base.kind {
            InstantiationSymbolKind::Namespace(inner) => {
                counts.scopes += 1;
                proof {
                    assert(decreases_to!(bases@ => bases@[i as int]));
                }
                let inner_counts = count_instantiation_bases(inner.as_slice());
                counts.merge(inner_counts);
            },
            InstantiationSymbolKind::Variable(_) => counts.variables += 1,
            InstantiationSymbolKind::ExternType(_) => (),
        }
        i += 1;
    }
    proof {
        assert(bases@.take(n as int) =~= bases@);
    }
    counts
}

/// Scopes and variables never outnumber symbols: each of them comes with a symbol.
pub proof fn lemma_scopes_and_variables_bounded(bases: Seq<InstantiationSymbolBase>)
    ensures
        spec_scope_count(bases) <= spec_symbol_count(bases),
        spec_variable_count(bases) <= spec_symbol_count(bases),
    decreases bases,
{
    if bases.len() > 0 {
        lemma_scopes_and_variables_bounded(bases.drop_last());
        lemma_base_scopes_and_variables_bounded(bases.last());
    }
}

/// Scopes and variables of one base never outnumber its symbols.
pub proof fn lemma_base_scopes_and_variables_bounded(base: InstantiationSymbolBase)
    ensures
        spec_base_scope_count(base) <= spec_base_symbol_count(base),
        spec_base_variable_count(base) <= spec_base_symbol_count(base),
    decreases base,
{
    match base.kind {
        InstantiationSymbolKind::Namespace(inner) => {
            lemma_scopes_and_variables_bounded(inner@);
        },
        _ => {},
    }
}

/// A sequence of plain core constants counts one symbol and one variable per entry, and no scope.
pub proof fn lemma_constant_counts(bases: Seq<InstantiationSymbolBase>)
    requires
        forall|j: int| 0 <= j < bases.len() ==> #[trigger] is_core_constant(bases[j]),
    ensures
        spec_symbol_count(bases) == bases.len(),
        spec_scope_count(bases) == 0,
        spec_variable_count(bases) == bases.len(),
    decreases bases.len(),
{
    if bases.len() > 0 {
        let last = bases.last();
        assert(is_core_constant(bases[bases.len() - 1]));
        let rest = bases.drop_last();
        assert forall|j: int| 0 <= j < rest.len() implies #[trigger] is_core_constant(rest[j]) by {
            assert(rest[j] == bases[j]);
        }
        lemma_constant_counts(rest);
        assert(spec_base_symbol_count(last) == 1);
        assert(spec_base_scope_count(last) == 0);
        assert(spec_base_variable_count(last) == 1);
    }
}

/// Number of constants in the intrinsic namespace of the core built-in at position `i`.
pub open spec fn spec_core_namespace_len(i: int) -> nat {
    if i == 4 || i == 7 || i == 10 {
        34
    } else if i == 9 {
        3
    } else if 0 <= i < 9 {
        5
    } else {
        0
    }
}

/// Every intrinsic namespace of a core built-in holds only core constants.
pub proof fn lemma_core_namespace_is_constants(i: int)
    requires
        0 <= i < CORE_BUILTIN_COUNT,
    ensures
        spec_core_builtin_namespace(i).len() == spec_core_namespace_len(i),
        forall|j: int|
            0 <= j < spec_core_builtin_namespace(i).len() ==> #[trigger] is_core_constant(
                spec_core_builtin_namespace(i)[j],
            ),
        spec_symbol_count(spec_core_builtin_namespace(i)) == spec_core_namespace_len(i),
        spec_scope_count(spec_core_builtin_namespace(i)) == 0,
        spec_variable_count(spec_core_builtin_namespace(i)) == spec_core_namespace_len(i),
{
    let ns = spec_core_builtin_namespace(i);
    assert forall|j: int| 0 <= j < ns.len() implies #[trigger] is_core_constant(ns[j]) by {}
    lemma_constant_counts(ns);
}

/// Symbols the intrinsic namespaces of the first `k` core built-ins push.
pub open spec fn spec_core_ns_symbols(k: int) -> nat
    decreases k,
{
    if k <= 0 {
        0
    } else {
        spec_core_ns_symbols(k - 1) + spec_symbol_count(spec_core_builtin_namespace(k - 1))
    }
}

/// Scopes the intrinsic namespaces of the first `k` core built-ins push: one for each non-empty
/// namespace, plus what it holds.
pub open spec fn spec_core_ns_scopes(k: int) -> nat
    decreases k,
{
    if k <= 0 {
        0
    } else {
        spec_core_ns_scopes(k - 1) + if spec_core_builtin_namespace(k - 1).len() == 0 {
            0
        } else {
            1 + spec_scope_count(spec_core_builtin_namespace(k - 1))
        }
    }
}

/// Variables the intrinsic namespaces of the first `k` core built-ins push.
pub open spec fn spec_core_ns_variables(k: int) -> nat
    decreases k,
{
    if k <= 0 {
        0
    } else {
        spec_core_ns_variables(k - 1) + spec_variable_count(spec_core_builtin_namespace(k - 1))
    }
}

/// The core namespaces push 140 symbols, 11 scopes and 140 variables.
pub proof fn lemma_core_reservation_totals()
    ensures
        spec_core_ns_symbols(CORE_BUILTIN_COUNT as int) == 140,
        spec_core_ns_scopes(CORE_BUILTIN_COUNT as int) == 11,
        spec_core_ns_variables(CORE_BUILTIN_COUNT as int) == 140,
{
    lemma_core_namespace_is_constants(0);
    lemma_core_namespace_is_constants(1);
    lemma_core_namespace_is_constants(2);
    lemma_core_namespace_is_constants(3);
    lemma_core_namespace_is_constants(4);
    lemma_core_namespace_is_constants(5);
    lemma_core_namespace_is_constants(6);
    lemma_core_namespace_is_constants(7);
    lemma_core_namespace_is_constants(8);
    lemma_core_namespace_is_constants(9);
    lemma_core_namespace_is_constants(10);
    lemma_core_namespace_is_constants(11);
    lemma_core_namespace_is_constants(12);
    lemma_core_namespace_is_constants(13);
    lemma_core_namespace_is_constants(14);
    lemma_core_namespace_is_constants(15);
    lemma_core_namespace_is_constants(16);
    lemma_core_namespace_is_constants(17);
    lemma_core_namespace_is_constants(18);
    lemma_core_namespace_is_constants(19);
    lemma_core_namespace_is_constants(20);
    lemma_core_namespace_is_constants(21);
    lemma_core_namespace_is_constants(22);
    reveal_with_fuel(spec_core_ns_symbols, 24);
    reveal_with_fuel(spec_core_ns_scopes, 24);
    reveal_with_fuel(spec_core_ns_variables, 24);
}

/// Counts what the intrinsic namespaces of `core_builtin_types_dataset` push, such as the `i8::MAX`
/// symbol and the scope holding it. Every non-empty namespace owns a scope on its built-in.
pub fn core_instantiation_reservations() -> (res: InstantiationReservations)
    ensures
        res.symbols == spec_core_ns_symbols(CORE_BUILTIN_COUNT as int),
        res.scopes == spec_core_ns_scopes(CORE_BUILTIN_COUNT as int),
        res.variables == spec_core_ns_variables(CORE_BUILTIN_COUNT as int),
{
    let mut counts = InstantiationReservations::default();
    let dataset = core_builtin_types_dataset();
    let n = dataset.len();
    let mut i: usize = 0;
    proof {
        lemma_core_reservation_totals();
    }
    while i < n
        invariant
            n == CORE_BUILTIN_COUNT,
            n == dataset.len(),
            0 <= i <= n,
            forall|j: int|
                0 <= j < CORE_BUILTIN_COUNT ==> (#[trigger] dataset@[j]).2@
                    == spec_core_builtin_namespace(j),
            counts.symbols == spec_core_ns_symbols(i as int),
            counts.scopes == spec_core_ns_scopes(i as int),
            counts.variables == spec_core_ns_variables(i as int),
            spec_core_ns_symbols(CORE_BUILTIN_COUNT as int) == 140,
            spec_core_ns_scopes(CORE_BUILTIN_COUNT as int) == 11,
            spec_core_ns_variables(CORE_BUILTIN_COUNT as int) == 140,
        decreases n - i,
    {
        let ns = &dataset[i].2;
        proof {
            lemma_core_namespace_is_constants(i as int);
            lemma_core_ns_monotone(i as int + 1, CORE_BUILTIN_COUNT as int);
        }
        if ns.len() == 0 {
            i += 1;
            continue;
        }
        counts.scopes += 1;
        let ns_counts = count_instantiation_bases(ns.as_slice());
        counts.merge(ns_counts);
        i += 1;
    }
    counts
}

/// The running totals of the core namespaces never decrease.
pub proof fn lemma_core_ns_monotone(a: int, b: int)
    requires
        0 <= a <= b,
    ensures
        spec_core_ns_symbols(a) <= spec_core_ns_symbols(b),
        spec_core_ns_scopes(a) <= spec_core_ns_scopes(b),
        spec_core_ns_variables(a) <= spec_core_ns_variables(b),
    decreases b - a,
{
    if a < b {
        lemma_core_ns_monotone(a, b - 1);
    }
}


/// The core `TypeId` of each built-in of the dataset is its position in the dataset, which is
/// where loading puts it.
pub proof fn lemma_builtin_id_is_position(i: int)
    requires
        0 <= i < CORE_BUILTIN_COUNT,
    ensures
        has_core_id(spec_builtin_kind(spec_core_builtin_types()[i])),
        spec_builtin_ty_to_id(spec_builtin_kind(spec_core_builtin_types()[i])) == i,
{
}

} // verus!
