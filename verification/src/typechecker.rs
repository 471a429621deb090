//! Free functions that type check a symbol or a type against what a context expects.
use vstd::prelude::*;
use crate::hir::{spec_symbol_kind_flat, SymbolKind, Type, TypeInfo};
use crate::ids::{SymbolId, TypeId};
use crate::scopes::AssociatedScopeKind;
use crate::script_compiler::ScriptCompiler;
use crate::type_queries::{lemma_type_kind_of, resolved_type, spec_type_kind, type_resolves, walk_type_id_deferred};
use crate::typechecker_concepts::{ExpectedKind, ExpectedKindType, TypeKind};

verus! {

/// Whether the type `type_id` stands for meets `expected`.
pub open spec fn spec_expected_ty(types: Seq<TypeInfo>, expected: ExpectedKindType, type_id: int) -> bool {
    let ty = types[resolved_type(types, type_id)].ty;
    match expected {
        ExpectedKindType::AnyBuiltin => ty is BuiltinTypeInfo,
        ExpectedKindType::Kind(kind) => spec_type_kind(ty) == kind,
    }
}

/// Whether symbol `sym_id` meets `expected`: a symbol kind is met by the kind of the symbol, a
/// type by the type the symbol carries, if it carries one.
pub open spec fn spec_expected_sym(compiler: &ScriptCompiler, expected: ExpectedKind, sym_id: int) -> bool {
    match expected {
        ExpectedKind::Symbol(flat) => spec_symbol_kind_flat(compiler.syms@[sym_id].kind) == flat,
        ExpectedKind::Type(kind) => match compiler.spec_symbol_type(sym_id) {
            Some(type_id) => spec_expected_ty(compiler.types@, kind, type_id as int),
            None => false,
        },
    }
}

/// Whether the type a symbol carries, if it carries one, stands for a type of the table.
pub open spec fn symbol_type_resolves(compiler: &ScriptCompiler, sym_id: int) -> bool {
    compiler.spec_symbol_type(sym_id) matches Some(type_id) ==> type_resolves(compiler.types@, type_id as int)
}

/// Returns `true` if the expected `ExpectedKind` aligns with the given `SymbolId`.
pub fn is_expected_sym(compiler: &ScriptCompiler, expected: ExpectedKind, sym_id: SymbolId) -> (res: bool)
    requires
        compiler.symbol_valid(sym_id as int),
        expected is Type ==> symbol_type_resolves(compiler, sym_id as int),
    ensures
        res == spec_expected_sym(compiler, expected, sym_id as int),
{
    match expected {
        ExpectedKind::Symbol(expected_sym) => {
            let sym = &compiler.syms[sym_id as usize];
            sym.kind.to_flat() == expected_sym
        },
        ExpectedKind::Type(expected) => {
            let type_id = match compiler.get_type_id_from_sym_id(sym_id) {
                Some(type_id) => type_id,
                None => {
                    return false;
                },
            };
            is_expected_ty(compiler, expected, type_id)
        },
    }
}

/// Returns `true` if the expected `ExpectedKindType` aligns with the given `TypeId`.
pub fn is_expected_ty(compiler: &ScriptCompiler, expected: ExpectedKindType, type_id: TypeId) -> (res: bool)
    requires
        type_resolves(compiler.types@, type_id as int),
    ensures
        res == spec_expected_ty(compiler.types@, expected, type_id as int),
{
    match expected {
        ExpectedKindType::AnyBuiltin => compiler.check_builtin(type_id),
        ExpectedKindType::Kind(expected_ty) => Type::kind(compiler, type_id) == expected_ty,
    }
}

/// Whether a type that is not deferred can be the type of a field or a variant: a struct, an
/// enum or a built-in.
pub open spec fn spec_field_or_variant(ty: Type) -> bool {
    ty is Struct || ty is Enum || ty is BuiltinTypeInfo
}

/// Whether a type that is not deferred can be a config root or a complex config member: a
/// typedef, a struct or an enum.
pub open spec fn spec_cfg_type(ty: Type) -> bool {
    ty is TypeDef || ty is Struct || ty is Enum
}

/// Fields and variants encode the same type semantics so this is shared.
///
/// Returns `true` if the type is a valid field or variant candidate, `false` if invalid.
pub fn check_field_or_variant(types: &Vec<TypeInfo>, type_id: TypeId) -> (res: bool)
    requires
        type_resolves(types@, type_id as int),
    ensures
        res == spec_field_or_variant(types@[resolved_type(types@, type_id as int)].ty),
        ({
            let ty = types@[resolved_type(types@, type_id as int)].ty;
            &&& ty is Struct || ty is Enum || ty is BuiltinTypeInfo ==> res
            &&& ty is Unknown || ty is Boundaries || ty is Alias || ty is TypeDef || ty is Func ==> !res
        }),
{
    let checked = walk_type_id_deferred(types, type_id);
    match &types[checked as usize].ty {
        Type::Struct(_) | Type::Enum(_) | Type::BuiltinTypeInfo(_) => true,
        Type::Unknown | Type::Boundaries(_) | Type::Alias(_) | Type::TypeDef(_) | Type::Func(_) => false,
        Type::Deferred(_) => vstd::pervasive::unreached(),
    }
}

/// A field or a variant can be typed by a struct, an enum or a built-in, and by nothing else: not
/// by an unknown type, a boundary, an alias, a typedef or a function.
pub proof fn lemma_field_or_variant_kinds(ty: Type)
    ensures
        ty is Struct ==> spec_field_or_variant(ty),
        ty is Enum ==> spec_field_or_variant(ty),
        ty is BuiltinTypeInfo ==> spec_field_or_variant(ty),
        ty is Unknown || ty is Boundaries || ty is Alias || ty is TypeDef || ty is Func || ty is Deferred
            ==> !spec_field_or_variant(ty),
{
}

/// A config root or complex member can be typed by a typedef, a struct or an enum, and by nothing
/// else: not by a built-in, an unknown type, a boundary, a function or an alias.
pub proof fn lemma_cfg_type_kinds(ty: Type)
    ensures
        ty is TypeDef ==> spec_cfg_type(ty),
        ty is Struct ==> spec_cfg_type(ty),
        ty is Enum ==> spec_cfg_type(ty),
        ty is BuiltinTypeInfo || ty is Unknown || ty is Boundaries || ty is Func || ty is Alias || ty is Deferred
            ==> !spec_cfg_type(ty),
{
}

/// A context expecting any built-in is met exactly by a built-in; one expecting a kind of type is
/// met exactly by a type of that kind: an enum meets an expected enum and no other kind, a struct
/// an expected struct, and so on.
pub proof fn lemma_expected_ty_kinds(types: Seq<TypeInfo>, type_id: int, kind: TypeKind)
    ensures
        spec_expected_ty(types, ExpectedKindType::AnyBuiltin, type_id) <==> types[resolved_type(types, type_id)].ty is BuiltinTypeInfo,
        spec_expected_ty(types, ExpectedKindType::Kind(kind), type_id) <==> spec_type_kind(types[resolved_type(types, type_id)].ty)
            == kind,
        types[resolved_type(types, type_id)].ty is Enum ==> (spec_expected_ty(types, ExpectedKindType::Kind(kind), type_id) <==> kind
            == TypeKind::Enum),
        types[resolved_type(types, type_id)].ty is Struct ==> (spec_expected_ty(types, ExpectedKindType::Kind(kind), type_id) <==> kind
            == TypeKind::Struct),
        types[resolved_type(types, type_id)].ty is BuiltinTypeInfo ==> (spec_expected_ty(types, ExpectedKindType::Kind(kind), type_id)
            <==> kind == TypeKind::Builtin),
{
    lemma_type_kind_of(types[resolved_type(types, type_id)].ty);
}

/// Whether symbol `sym_id` can be a config root: a typedef, struct or enum type, or a namespace
/// that owns a scope (never a whole module).
pub open spec fn spec_cfg_root(compiler: &ScriptCompiler, sym_id: int) -> bool {
    let sym = compiler.syms@[sym_id];
    match sym.kind {
        SymbolKind::Type(type_id) => spec_cfg_type(
            compiler.types@[resolved_type(compiler.types@, type_id as int)].ty,
        ),
        SymbolKind::Namespace => sym.associated_scope matches Some(AssociatedScopeKind::Scope(_)),
        _ => false,
    }
}

/// Whether symbol `sym_id` exists and, when it names a type, that type stands for a type of the
/// table.
pub open spec fn symbol_checkable(compiler: &ScriptCompiler, sym_id: int) -> bool {
    &&& 0 <= sym_id < compiler.syms.len()
    &&& compiler.syms@[sym_id].kind matches SymbolKind::Type(type_id) ==> type_resolves(
        compiler.types@,
        type_id as int,
    )
}

/// Returns `true` if the symbol is a valid config root candidate, `false` if invalid.
pub fn check_cfg_root(compiler: &ScriptCompiler, sym_id: SymbolId) -> (res: bool)
    requires
        symbol_checkable(compiler, sym_id as int),
    ensures
        res == spec_cfg_root(compiler, sym_id as int),
        compiler.syms@[sym_id as int].kind matches SymbolKind::Type(type_id) ==> (res <==> spec_cfg_type(
            compiler.types@[resolved_type(compiler.types@, type_id as int)].ty,
        )),
        compiler.syms@[sym_id as int].kind is Namespace ==> (res <==> compiler.syms@[sym_id as int].associated_scope matches Some(
            AssociatedScopeKind::Scope(_),
        )),
        compiler.syms@[sym_id as int].kind is Variable || compiler.syms@[sym_id as int].kind is Directive
            || compiler.syms@[sym_id as int].kind is ExternType ==> !res,
{
    let sym = &compiler.syms[sym_id as usize];
    match sym.kind {
        SymbolKind::Type(type_id) => {
            let checked = walk_type_id_deferred(&compiler.types, type_id);
            match &compiler.types[checked as usize].ty {
                Type::TypeDef(_) | Type::Struct(_) | Type::Enum(_) => true,
                Type::BuiltinTypeInfo(_)
                | Type::Unknown
                | Type::Boundaries(_)
                | Type::Func(_)
                | Type::Alias(_) => false,
                Type::Deferred(_) => vstd::pervasive::unreached(),
            }
        },
        // Only a scope can be a root: `for module {}` must not be possible
        SymbolKind::Namespace => match sym.associated_scope {
            Some(AssociatedScopeKind::Scope(_)) => true,
            _ => false,
        },
        SymbolKind::Variable(_) | SymbolKind::Directive(_) | SymbolKind::ExternType(_) => false,
    }
}

/// Returns `true` if the symbol is a valid override config member candidate, `false` if
/// invalid: only namespaces are.
pub fn check_cfg_memb_override(compiler: &ScriptCompiler, sym_id: SymbolId) -> (res: bool)
    requires
        sym_id < compiler.syms.len(),
    ensures
        res == compiler.syms@[sym_id as int].kind is Namespace,
{
    let sym = &compiler.syms[sym_id as usize];
    match sym.kind {
        // Only override section symbols can access a namespace in its config root.
        SymbolKind::Namespace => true,
        SymbolKind::Variable(_)
        | SymbolKind::Type(_)
        | SymbolKind::Directive(_)
        | SymbolKind::ExternType(_) => false,
    }
}

/// Whether symbol `sym_id` can be a complex config member: a typedef, struct or enum type, or
/// any namespace.
pub open spec fn spec_cfg_memb_complex(compiler: &ScriptCompiler, sym_id: int) -> bool {
    match compiler.syms@[sym_id].kind {
        SymbolKind::Type(type_id) => spec_cfg_type(
            compiler.types@[resolved_type(compiler.types@, type_id as int)].ty,
        ),
        SymbolKind::Namespace => true,
        _ => false,
    }
}

/// Returns `true` if the symbol is a valid complex config member candidate, `false` if invalid.
pub fn check_cfg_memb_complex(compiler: &ScriptCompiler, sym_id: SymbolId) -> (res: bool)
    requires
        symbol_checkable(compiler, sym_id as int),
    ensures
        res == spec_cfg_memb_complex(compiler, sym_id as int),
        compiler.syms@[sym_id as int].kind matches SymbolKind::Type(type_id) ==> (res <==> spec_cfg_type(
            compiler.types@[resolved_type(compiler.types@, type_id as int)].ty,
        )),
        compiler.syms@[sym_id as int].kind is Namespace ==> res,
        compiler.syms@[sym_id as int].kind is Variable || compiler.syms@[sym_id as int].kind is Directive
            || compiler.syms@[sym_id as int].kind is ExternType ==> !res,
{
    let sym = &compiler.syms[sym_id as usize];
    match sym.kind {
        SymbolKind::Type(type_id) => {
            let checked = walk_type_id_deferred(&compiler.types, type_id);
            match &compiler.types[checked as usize].ty {
                Type::TypeDef(_) | Type::Struct(_) | Type::Enum(_) => true,
                Type::BuiltinTypeInfo(_)
                | Type::Unknown
                | Type::Boundaries(_)
                | Type::Func(_)
                | Type::Alias(_) => false,
                Type::Deferred(_) => vstd::pervasive::unreached(),
            }
        },
        // Only override section symbols can access a namespace in its config root.
        SymbolKind::Namespace => true,
        SymbolKind::Variable(_) | SymbolKind::Directive(_) | SymbolKind::ExternType(_) => false,
    }
}

} // verus!
