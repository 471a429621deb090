//! Platform namespaces of complex sections, such as `RUST::types::rust::u8`.
//!
//! The dataset is written out here from how the compiler uses it (two roots, `RUST` and `JAVA`,
//! each `types` then the platform's namespace); the module that holds it in the compiler is not
//! available to this crate, so the list of platform types could not be held against it.
use vstd::prelude::*;
use crate::builtins::{ExternPlatformType, JavaTypeKind, RustTypeKind};
use crate::hir::SymbolOrigin;
use crate::instantiation_symbols::{InstantiationSymbolBase, InstantiationSymbolKind};
use crate::intern::{INTERNED_BOOL, INTERNED_BOOLEAN, INTERNED_BYTE, INTERNED_CHAR, INTERNED_DOUBLE, INTERNED_F128, INTERNED_F32, INTERNED_F64, INTERNED_FLOAT_LOWER, INTERNED_I128, INTERNED_I16, INTERNED_I32, INTERNED_I64, INTERNED_I8, INTERNED_INT, INTERNED_ISIZE, INTERNED_JAVA_LOWER, INTERNED_JAVA_UPPER, INTERNED_LONG, INTERNED_RUST_LOWER, INTERNED_RUST_UPPER, INTERNED_SHORT, INTERNED_STR, INTERNED_STRING, INTERNED_TYPES_LOWER, INTERNED_U128, INTERNED_U16, INTERNED_U32, INTERNED_U64, INTERNED_U8, INTERNED_USIZE};
use crate::scopes::ScopeType;

verus! {

/// Description of a platform type named `name_id`.
pub open spec fn extern_type_base(name_id: u32, ty: ExternPlatformType) -> InstantiationSymbolBase {
    InstantiationSymbolBase {
        name_id,
        sym_origin: SymbolOrigin::Compiler,
        scope_origin: ScopeType::Compiler,
        is_priv: false,
        kind: InstantiationSymbolKind::ExternType(ty),
    }
}

/// Whether `base` is a compiler namespace named `name_id` holding exactly `members`.
pub open spec fn is_namespace_base(base: InstantiationSymbolBase, name_id: u32, members: Seq<InstantiationSymbolBase>) -> bool {
    &&& base.name_id == name_id
    &&& base.sym_origin == SymbolOrigin::Compiler
    &&& base.scope_origin == ScopeType::Compiler
    &&& !base.is_priv
    &&& base.kind matches InstantiationSymbolKind::Namespace(inner) && inner@ == members
}

/// Whether `base` is the namespace `upper`, holding only `types`, holding only `lower`, holding
/// exactly `members`.
pub open spec fn is_platform_namespace(base: InstantiationSymbolBase, upper: u32, lower: u32, members: Seq<InstantiationSymbolBase>) -> bool {
    &&& base.name_id == upper
    &&& base.sym_origin == SymbolOrigin::Compiler
    &&& base.scope_origin == ScopeType::Compiler
    &&& !base.is_priv
    &&& base.kind matches InstantiationSymbolKind::Namespace(types)
    &&& types@.len() == 1
    &&& types@[0].name_id == INTERNED_TYPES_LOWER
    &&& types@[0].sym_origin == SymbolOrigin::Compiler
    &&& types@[0].scope_origin == ScopeType::Compiler
    &&& !types@[0].is_priv
    &&& types@[0].kind matches InstantiationSymbolKind::Namespace(platform)
    &&& platform@.len() == 1
    &&& is_namespace_base(platform@[0], lower, members)
}

/// Rust types a complex section can name through `RUST::types::rust`.
pub open spec fn spec_rust_types() -> Seq<InstantiationSymbolBase> {
    seq![
        extern_type_base(INTERNED_U8, ExternPlatformType::Rust(RustTypeKind::U8)),
        extern_type_base(INTERNED_I8, ExternPlatformType::Rust(RustTypeKind::I8)),
        extern_type_base(INTERNED_U16, ExternPlatformType::Rust(RustTypeKind::U16)),
        extern_type_base(INTERNED_I16, ExternPlatformType::Rust(RustTypeKind::I16)),
        extern_type_base(INTERNED_U32, ExternPlatformType::Rust(RustTypeKind::U32)),
        extern_type_base(INTERNED_I32, ExternPlatformType::Rust(RustTypeKind::I32)),
        extern_type_base(INTERNED_F32, ExternPlatformType::Rust(RustTypeKind::F32)),
        extern_type_base(INTERNED_U64, ExternPlatformType::Rust(RustTypeKind::U64)),
        extern_type_base(INTERNED_I64, ExternPlatformType::Rust(RustTypeKind::I64)),
        extern_type_base(INTERNED_F64, ExternPlatformType::Rust(RustTypeKind::F64)),
        extern_type_base(INTERNED_I128, ExternPlatformType::Rust(RustTypeKind::I128)),
        extern_type_base(INTERNED_U128, ExternPlatformType::Rust(RustTypeKind::U128)),
        extern_type_base(INTERNED_F128, ExternPlatformType::Rust(RustTypeKind::F128)),
        extern_type_base(INTERNED_USIZE, ExternPlatformType::Rust(RustTypeKind::Usize)),
        extern_type_base(INTERNED_ISIZE, ExternPlatformType::Rust(RustTypeKind::Isize)),
        extern_type_base(INTERNED_BOOL, ExternPlatformType::Rust(RustTypeKind::Bool)),
        extern_type_base(INTERNED_CHAR, ExternPlatformType::Rust(RustTypeKind::Char)),
        extern_type_base(INTERNED_STR, ExternPlatformType::Rust(RustTypeKind::Str)),
        extern_type_base(INTERNED_STRING, ExternPlatformType::Rust(RustTypeKind::String)),
    ]
}

/// Java types a complex section can name through `JAVA::types::java`.
pub open spec fn spec_java_types() -> Seq<InstantiationSymbolBase> {
    seq![
        extern_type_base(INTERNED_LONG, ExternPlatformType::Java(JavaTypeKind::Long)),
        extern_type_base(INTERNED_INT, ExternPlatformType::Java(JavaTypeKind::Int)),
        extern_type_base(INTERNED_SHORT, ExternPlatformType::Java(JavaTypeKind::Short)),
        extern_type_base(INTERNED_BYTE, ExternPlatformType::Java(JavaTypeKind::Byte)),
        extern_type_base(INTERNED_FLOAT_LOWER, ExternPlatformType::Java(JavaTypeKind::Float)),
        extern_type_base(INTERNED_DOUBLE, ExternPlatformType::Java(JavaTypeKind::Double)),
        extern_type_base(INTERNED_BOOLEAN, ExternPlatformType::Java(JavaTypeKind::Boolean)),
        extern_type_base(INTERNED_CHAR, ExternPlatformType::Java(JavaTypeKind::Char)),
        extern_type_base(INTERNED_STRING, ExternPlatformType::Java(JavaTypeKind::String)),
    ]
}

fn extern_type(name_id: u32, ty: ExternPlatformType) -> (res: InstantiationSymbolBase)
    ensures
        res == extern_type_base(name_id, ty),
{
    InstantiationSymbolBase::new(
        name_id,
        SymbolOrigin::Compiler,
        ScopeType::Compiler,
        false,
        InstantiationSymbolKind::ExternType(ty),
    )
}

fn namespace(name_id: u32, members: Vec<InstantiationSymbolBase>) -> (res: InstantiationSymbolBase)
    ensures
        is_namespace_base(res, name_id, members@),
{
    InstantiationSymbolBase::new(
        name_id,
        SymbolOrigin::Compiler,
        ScopeType::Compiler,
        false,
        InstantiationSymbolKind::Namespace(members),
    )
}

fn platform_namespace(upper: u32, lower: u32, members: Vec<InstantiationSymbolBase>) -> (res:
    InstantiationSymbolBase)
    ensures
        is_platform_namespace(res, upper, lower, members@),
{
    let platform = namespace(lower, members);
    let types = namespace(INTERNED_TYPES_LOWER, vec![platform]);
    namespace(upper, vec![types])
}

fn rust_types() -> (res: Vec<InstantiationSymbolBase>)
    ensures
        res@ == spec_rust_types(),
{
    vec![
        extern_type(INTERNED_U8, ExternPlatformType::Rust(RustTypeKind::U8)),
        extern_type(INTERNED_I8, ExternPlatformType::Rust(RustTypeKind::I8)),
        extern_type(INTERNED_U16, ExternPlatformType::Rust(RustTypeKind::U16)),
        extern_type(INTERNED_I16, ExternPlatformType::Rust(RustTypeKind::I16)),
        extern_type(INTERNED_U32, ExternPlatformType::Rust(RustTypeKind::U32)),
        extern_type(INTERNED_I32, ExternPlatformType::Rust(RustTypeKind::I32)),
        extern_type(INTERNED_F32, ExternPlatformType::Rust(RustTypeKind::F32)),
        extern_type(INTERNED_U64, ExternPlatformType::Rust(RustTypeKind::U64)),
        extern_type(INTERNED_I64, ExternPlatformType::Rust(RustTypeKind::I64)),
        extern_type(INTERNED_F64, ExternPlatformType::Rust(RustTypeKind::F64)),
        extern_type(INTERNED_I128, ExternPlatformType::Rust(RustTypeKind::I128)),
        extern_type(INTERNED_U128, ExternPlatformType::Rust(RustTypeKind::U128)),
        extern_type(INTERNED_F128, ExternPlatformType::Rust(RustTypeKind::F128)),
        extern_type(INTERNED_USIZE, ExternPlatformType::Rust(RustTypeKind::Usize)),
        extern_type(INTERNED_ISIZE, ExternPlatformType::Rust(RustTypeKind::Isize)),
        extern_type(INTERNED_BOOL, ExternPlatformType::Rust(RustTypeKind::Bool)),
        extern_type(INTERNED_CHAR, ExternPlatformType::Rust(RustTypeKind::Char)),
        extern_type(INTERNED_STR, ExternPlatformType::Rust(RustTypeKind::Str)),
        extern_type(INTERNED_STRING, ExternPlatformType::Rust(RustTypeKind::String)),
    ]
}

fn java_types() -> (res: Vec<InstantiationSymbolBase>)
    ensures
        res@ == spec_java_types(),
{
    vec![
        extern_type(INTERNED_LONG, ExternPlatformType::Java(JavaTypeKind::Long)),
        extern_type(INTERNED_INT, ExternPlatformType::Java(JavaTypeKind::Int)),
        extern_type(INTERNED_SHORT, ExternPlatformType::Java(JavaTypeKind::Short)),
        extern_type(INTERNED_BYTE, ExternPlatformType::Java(JavaTypeKind::Byte)),
        extern_type(INTERNED_FLOAT_LOWER, ExternPlatformType::Java(JavaTypeKind::Float)),
        extern_type(INTERNED_DOUBLE, ExternPlatformType::Java(JavaTypeKind::Double)),
        extern_type(INTERNED_BOOLEAN, ExternPlatformType::Java(JavaTypeKind::Boolean)),
        extern_type(INTERNED_CHAR, ExternPlatformType::Java(JavaTypeKind::Char)),
        extern_type(INTERNED_STRING, ExternPlatformType::Java(JavaTypeKind::String)),
    ]
}

/// Every platform namespace a complex section can reach: `RUST::types::rust` and
/// `JAVA::types::java`, each a root entry of its own.
pub fn all_extern_namespaces_dataset() -> (res: Vec<Vec<InstantiationSymbolBase>>)
    ensures
        res.len() == 2,
        res@[0]@.len() == 1,
        res@[1]@.len() == 1,
        is_platform_namespace(res@[0]@[0], INTERNED_RUST_UPPER, INTERNED_RUST_LOWER, spec_rust_types()),
        is_platform_namespace(res@[1]@[0], INTERNED_JAVA_UPPER, INTERNED_JAVA_LOWER, spec_java_types()),
{
    let rust = platform_namespace(INTERNED_RUST_UPPER, INTERNED_RUST_LOWER, rust_types());
    let java = platform_namespace(INTERNED_JAVA_UPPER, INTERNED_JAVA_LOWER, java_types());
    vec![vec![rust], vec![java]]
}

} // verus!
