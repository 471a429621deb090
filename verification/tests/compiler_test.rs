use lib::builtins::{BuiltinTypeKind, TypeBoundaryFlags};
use lib::compiler_consts::{builtin_ty_to_id, directive_to_id_const, CORE_BOOL, CORE_I64};
use lib::compiler_helpers::directives_dataset;
use lib::core_helpers::{core_builtin_types_dataset, core_funcs_dataset, InstantiationReservations};
use lib::hir::{
    AliasDef, EnumDef, StructDef, Symbol, SymbolKind, SymbolOrigin, Type, TypeDef, TypeInfo,
    VariableMetadata, VariableState,
};
use lib::intern;
use lib::module::{Import, ImportKind, Module, ModuleState};
use lib::scopes::{AssociatedScopeKind, ScopeType};
use lib::script_compiler::{ResolverState, ScriptCompiler};
use lib::type_context::{
    ParentState, ParentStateBase, PendingExpr, PendingExprKind, StandingExprState, TypeContext,
};
use lib::type_queries::walk_type_id_deferred;
use lib::typechecker::{
    check_cfg_memb_complex, check_cfg_memb_override, check_cfg_root, check_field_or_variant,
    is_expected_sym, is_expected_ty,
};
use lib::typechecker_concepts::{ExpectedKind, ExpectedKindType, SymbolKindFlat, TypeKind};

fn core_only() -> ScriptCompiler {
    ScriptCompiler::init(None, Vec::new())
}

/// Symbol bound to `name` in `scope`.
fn bound(compiler: &ScriptCompiler, scope: u16, name: u32) -> Option<u32> {
    compiler.scopes[scope as usize].scope.table.interned_to_sym.get(&name).copied()
}

#[test]
fn modules_bind_their_name_and_each_reachable_import_once() {
    // Module 0 imports module 1 under its file name, module 1 again under an alias, an unreadable
    // source, and module 1 once more under its file name (filtered as a duplicate).
    let main = Module::new(
        100,
        ModuleState::Loaded,
        0,
        vec![
            Import::new(101, ImportKind::Source(0, 1), None),
            Import::new(101, ImportKind::Source(0, 1), Some(102)),
            Import::new(103, ImportKind::ErrorSource(1), None),
            Import::new(101, ImportKind::Source(0, 1), None),
        ],
    );
    let other = Module::new(101, ModuleState::Loaded, 1, Vec::new());
    let compiler = ScriptCompiler::init(None, vec![main, other]);

    let core_mod_id = compiler.intrinsic_registry.core_mod_id;
    assert_eq!(core_mod_id, 2);
    assert_eq!(compiler.mods.len(), 3);

    // Each module has the core scope, then its compiler scope
    let main_scope = compiler.get_scope_id(ScopeType::Compiler, 0).unwrap();
    let other_scope = compiler.get_scope_id(ScopeType::Compiler, 1).unwrap();
    let core_scope = compiler.get_scope_id(ScopeType::Compiler, 2).unwrap();
    assert_eq!((main_scope, other_scope, core_scope), (12, 13, 14));
    assert_eq!(compiler.mods[0].scopes, vec![0, 12]);
    assert_eq!(compiler.mods[2].scopes, vec![0, 0, 14]);

    // main: its name, `101`, the alias `102`, and `core`; the unreadable source binds nothing
    let table = &compiler.scopes[main_scope as usize].scope.table.interned_to_sym;
    assert_eq!(table.len(), 4);
    let first = 41 + 140 + 7;
    assert_eq!(bound(&compiler, main_scope, 100), Some(first));
    assert_eq!(bound(&compiler, main_scope, 101), Some(first + 1));
    assert_eq!(bound(&compiler, main_scope, 102), Some(first + 2));
    assert_eq!(bound(&compiler, main_scope, intern::INTERNED_CORE), Some(first + 3));
    assert_eq!(bound(&compiler, main_scope, 103), None);

    let own = &compiler.syms[first as usize];
    assert_eq!(own.associated_scope, Some(AssociatedScopeKind::Module(0)));
    assert_eq!(own.sym_origin, SymbolOrigin::Module(0));
    assert!(own.is_priv);
    assert_eq!(own.kind, SymbolKind::Namespace);
    let aliased = &compiler.syms[(first + 2) as usize];
    assert_eq!(aliased.name_id, 102);
    assert_eq!(aliased.associated_scope, Some(AssociatedScopeKind::Module(1)));
    let core_import = &compiler.syms[(first + 3) as usize];
    assert_eq!(core_import.associated_scope, Some(AssociatedScopeKind::Module(core_mod_id)));

    // other: its name and `core`; core: only its own name, its import of itself is filtered
    assert_eq!(compiler.scopes[other_scope as usize].scope.table.interned_to_sym.len(), 2);
    assert_eq!(compiler.scopes[core_scope as usize].scope.table.interned_to_sym.len(), 1);
    assert_eq!(bound(&compiler, core_scope, intern::INTERNED_CORE), Some(first + 6));
    assert_eq!(compiler.syms.len() as u32, first + 7);
}

#[test]
fn every_module_imports_core_last() {
    let main = Module::new(100, ModuleState::Loaded, 0, vec![Import::new(7, ImportKind::Source(0, 0), None)]);
    let compiler = ScriptCompiler::init(None, vec![main]);
    let core_import = Import::new(intern::INTERNED_CORE, ImportKind::Core(1), None);
    assert_eq!(compiler.mods[0].imports.last(), Some(&core_import));
    assert_eq!(compiler.mods[1].imports, vec![core_import]);
    assert_eq!(compiler.mods[1].name_id, intern::INTERNED_CORE);
    assert_eq!(compiler.mods[1].state, ModuleState::Loaded);
    assert_eq!(compiler.resolver_state, ResolverState::Namespace);
    assert_eq!(compiler.intrinsic_registry.complex_scope_id, None);
}

#[test]
fn core_exports_are_what_the_core_scope_binds() {
    let compiler = core_only();
    let core = &compiler.mods[compiler.intrinsic_registry.core_mod_id as usize];
    let mut exports = core.exports.clone();
    exports.sort();
    let mut bound: Vec<u32> = compiler.scopes[0].scope.table.interned_to_sym.values().copied().collect();
    bound.sort();
    assert_eq!(exports, bound);
    assert_eq!(exports.len(), 41);
}

#[test]
fn pushing_a_scope_twice_returns_the_same_scope() {
    let mut compiler = core_only();
    let core_mod_id = compiler.intrinsic_registry.core_mod_id;
    let before = compiler.scopes.len();
    let local = compiler.push_scope(ScopeType::Local, core_mod_id);
    assert_eq!(local as usize, before);
    assert_eq!(compiler.scopes.len(), before + 1);
    assert_eq!(compiler.scopes[local as usize].scope.intrinsic_scope, None);
    let again = compiler.push_scope(ScopeType::Local, core_mod_id);
    assert_eq!(again, local);
    assert_eq!(compiler.scopes.len(), before + 1);
    assert_eq!(compiler.mods[core_mod_id as usize].scopes.last(), Some(&local));
    // The core scope already exists, so it is found rather than pushed
    assert_eq!(compiler.push_scope(ScopeType::Core, core_mod_id), 0);
    assert_eq!(compiler.scopes.len(), before + 1);
}

#[test]
fn complex_scopes_share_one_intrinsic_scope() {
    let main = Module::new(100, ModuleState::Loaded, 0, Vec::new());
    let mut compiler = ScriptCompiler::init(None, vec![main]);
    let syms_before = compiler.syms.len();
    let scopes_before = compiler.scopes.len();

    let first = compiler.push_scope(ScopeType::Complex, 0);
    let intrinsic = compiler.intrinsic_registry.complex_scope_id.unwrap();
    assert_eq!(intrinsic as usize, scopes_before);
    assert_eq!(first as usize, scopes_before + 7);
    assert_eq!(compiler.syms.len(), syms_before + 34);
    assert_eq!(compiler.scopes[first as usize].scope.intrinsic_scope, Some(intrinsic));
    assert_eq!(compiler.scopes[intrinsic as usize].scope.scope_type, ScopeType::Complex);
    assert_eq!(compiler.scopes[intrinsic as usize].scope.table.interned_to_sym.len(), 2);
    assert_eq!(bound(&compiler, intrinsic, intern::INTERNED_RUST_UPPER), Some(syms_before as u32));
    assert_eq!(bound(&compiler, intrinsic, intern::INTERNED_JAVA_UPPER), Some(syms_before as u32 + 22));

    // Core's complex scope reuses the intrinsic scope
    let second = compiler.push_scope(ScopeType::Complex, 1);
    assert_eq!(second as usize, scopes_before + 8);
    assert_eq!(compiler.scopes[second as usize].scope.intrinsic_scope, Some(intrinsic));
    assert_eq!(compiler.syms.len(), syms_before + 34);
}

#[test]
fn scope_ids_are_found_per_module() {
    let mut compiler = core_only();
    let core_mod_id = compiler.intrinsic_registry.core_mod_id;
    assert_eq!(compiler.get_scope_id(ScopeType::Core, core_mod_id), Some(0));
    assert_eq!(compiler.extract_scope_id(ScopeType::Compiler, core_mod_id), 12);
    assert_eq!(compiler.get_scope_id(ScopeType::Nest, core_mod_id), None);
    assert_eq!(compiler.get_scope(12).mod_owner, core_mod_id);

    let scope = compiler.get_scope_mut(12);
    scope.scope.table.interned_to_sym.insert(7, 9);
    assert_eq!(bound(&compiler, 12, 7), Some(9));
}

#[test]
fn directives_follow_core_symbols_in_id_order() {
    let compiler = core_only();
    let first = 41 + 140;
    for (k, (name_id, directive)) in directives_dataset().into_iter().enumerate() {
        assert_eq!(directive_to_id_const(&directive), k as u32);
        assert_eq!(compiler.directives[k], directive);
        let sym = &compiler.syms[first + k];
        assert_eq!(sym.name_id, name_id);
        assert_eq!(sym.kind, SymbolKind::Directive(k as u32));
        assert_eq!(sym.sym_origin, SymbolOrigin::Compiler);
        assert_eq!(compiler.get_directive((first + k) as u32), &directive);
        // Directives are known to every module without being bound in a scope
        assert_eq!(bound(&compiler, 0, name_id), None);
        assert_eq!(compiler.get_owner((first + k) as u32), compiler.intrinsic_registry.core_mod_id);
    }
}

#[test]
fn builtin_ids_are_distinct_positions() {
    let dataset = core_builtin_types_dataset();
    let mut ids: Vec<u32> = dataset.iter().map(|(_, b, _)| builtin_ty_to_id(b.kind())).collect();
    ids.dedup();
    assert_eq!(ids, (0..23).collect::<Vec<u32>>());
    assert_eq!(builtin_ty_to_id(BuiltinTypeKind::Bool), CORE_BOOL);
    assert_eq!(builtin_ty_to_id(BuiltinTypeKind::I64), 8);
}

#[test]
fn symbols_lead_to_their_types() {
    let compiler = core_only();
    // `i8::MAX` is a variable typed `i64`
    let i8_sym = compiler.syms.iter().position(|s| s.name_id == intern::INTERNED_I8).unwrap() as u32;
    let Some(AssociatedScopeKind::Scope(ns)) = compiler.syms[i8_sym as usize].associated_scope else {
        panic!("i8 owns its namespace");
    };
    let max = bound(&compiler, ns, intern::INTERNED_MAX_UPPER).unwrap();
    assert_eq!(compiler.extract_type_id(max), CORE_I64);
    assert_eq!(compiler.get_type_id_from_sym_id(max), Some(CORE_I64));
    let var = compiler.get_var(max);
    assert!(matches!(var.state, VariableState::Known(_)));
    assert_eq!(var.self_id, max);
    assert_eq!(compiler.get_owner(max), compiler.intrinsic_registry.core_mod_id);

    assert_eq!(compiler.extract_type_id(i8_sym), 0);
    assert_eq!(compiler.get_sym_id_from_type_id(0), Some(i8_sym));
    // Boundaries and the unknown type have no symbol
    assert_eq!(compiler.get_sym_id_from_type_id(24), None);
    assert_eq!(compiler.get_sym_id_from_type_id(23), None);
    // A directive carries no type
    assert_eq!(compiler.get_type_id_from_sym_id(41 + 140), None);

    // The first core function
    let is_empty = bound(&compiler, 0, intern::INTERNED_IS_EMPTY).unwrap();
    let func = compiler.get_func(is_empty);
    assert_eq!(func.kind, core_funcs_dataset()[0].kind);
    assert_eq!(func.self_id, is_empty);
}

#[test]
fn core_functions_change_in_place() {
    let mut compiler = core_only();
    let equals = bound(&compiler, 0, intern::INTERNED_EQUALS).unwrap();
    compiler.get_func_mut(equals).affects_type_constraint = false;
    assert!(!compiler.get_func(equals).affects_type_constraint);
    assert_eq!(compiler.get_func(equals).ret_type, CORE_BOOL);
}

/// A core-only compiler with a struct `S`, a type deferring to it, and a symbol naming the
/// deferring type.
fn with_struct() -> (ScriptCompiler, u32, u32, u32) {
    let mut compiler = core_only();
    let struct_ty = compiler.types.len() as u32;
    let struct_sym = compiler.syms.len() as u32;
    compiler.types.push(TypeInfo::new(Type::Struct(StructDef { sym_id: struct_sym, fields: Vec::new() }), 0));
    compiler.syms.push(Symbol::new(500, struct_sym, None, SymbolOrigin::Module(0), false, None, ScopeType::Neutral, SymbolKind::Type(struct_ty)));
    let deferred_ty = compiler.types.len() as u32;
    compiler.types.push(TypeInfo::new(Type::Deferred(struct_ty), 0));
    let deferred_sym = compiler.syms.len() as u32;
    compiler.syms.push(Symbol::new(501, deferred_sym, None, SymbolOrigin::Module(0), false, None, ScopeType::Neutral, SymbolKind::Type(deferred_ty)));
    (compiler, struct_sym, deferred_ty, deferred_sym)
}

#[test]
fn deferred_types_resolve_to_what_they_stand_for() {
    let (compiler, struct_sym, deferred_ty, deferred_sym) = with_struct();
    assert_eq!(walk_type_id_deferred(&compiler.types, deferred_ty), deferred_ty - 1);
    assert_eq!(walk_type_id_deferred(&compiler.types, 3), 3);
    assert_eq!(Type::kind(&compiler, deferred_ty), TypeKind::Struct);
    assert_eq!(Type::kind(&compiler, 24), TypeKind::Boundaries);
    assert_eq!(compiler.get_sym_id_from_type_id(deferred_ty), Some(struct_sym));
    assert!(!compiler.check_builtin(deferred_ty));
    assert!(compiler.check_builtin(CORE_BOOL));
    assert!(compiler.check_unknown(23));
    assert!(!compiler.check_unknown(deferred_ty));
    assert_eq!(compiler.get_struct(struct_sym).sym_id, struct_sym);
    assert_eq!(compiler.extract_type_id(deferred_sym), deferred_ty);
}

#[test]
fn expected_kinds_check_symbols_and_types() {
    let (compiler, _struct_sym, deferred_ty, deferred_sym) = with_struct();
    let struct_kind = ExpectedKind::from_type_kind(TypeKind::Struct);
    assert!(is_expected_sym(&compiler, struct_kind, deferred_sym));
    assert!(!is_expected_sym(&compiler, ExpectedKind::from_type_kind(TypeKind::Enum), deferred_sym));
    assert!(is_expected_sym(&compiler, ExpectedKind::from_symbol_kind(SymbolKindFlat::Type), deferred_sym));
    assert!(!is_expected_sym(&compiler, ExpectedKind::from_symbol_kind(SymbolKindFlat::Namespace), deferred_sym));
    // A directive carries no type, so no type is expected of it
    assert!(!is_expected_sym(&compiler, ExpectedKind::Type(ExpectedKindType::AnyBuiltin), 41 + 140));
    assert!(is_expected_ty(&compiler, ExpectedKindType::AnyBuiltin, CORE_BOOL));
    assert!(!is_expected_ty(&compiler, ExpectedKindType::AnyBuiltin, deferred_ty));
    assert!(is_expected_ty(&compiler, ExpectedKindType::Kind(TypeKind::Struct), deferred_ty));
}

#[test]
fn field_and_config_candidates() {
    let (compiler, struct_sym, deferred_ty, deferred_sym) = with_struct();
    assert!(check_field_or_variant(&compiler.types, deferred_ty));
    assert!(check_field_or_variant(&compiler.types, CORE_BOOL));
    assert!(!check_field_or_variant(&compiler.types, 23));
    assert!(!check_field_or_variant(&compiler.types, 24));

    assert!(check_cfg_root(&compiler, struct_sym));
    assert!(check_cfg_root(&compiler, deferred_sym));
    let bool_sym = bound(&compiler, 0, intern::INTERNED_BOOL).unwrap();
    assert!(!check_cfg_root(&compiler, bool_sym));
    // A module namespace cannot be a root, a scope namespace can
    let main_scope = compiler.get_scope_id(ScopeType::Compiler, compiler.intrinsic_registry.core_mod_id).unwrap();
    let core_self = bound(&compiler, main_scope, intern::INTERNED_CORE).unwrap();
    assert!(!check_cfg_root(&compiler, core_self));
    assert!(check_cfg_memb_override(&compiler, core_self));
    assert!(check_cfg_memb_complex(&compiler, core_self));
    assert!(check_cfg_memb_complex(&compiler, struct_sym));
    assert!(!check_cfg_memb_complex(&compiler, bool_sym));
    assert!(!check_cfg_memb_override(&compiler, struct_sym));
}

#[test]
fn complex_namespaces_are_config_roots() {
    let mut compiler = core_only();
    let core_mod_id = compiler.intrinsic_registry.core_mod_id;
    compiler.push_scope(ScopeType::Complex, core_mod_id);
    let intrinsic = compiler.intrinsic_registry.complex_scope_id.unwrap();
    let rust = bound(&compiler, intrinsic, intern::INTERNED_RUST_UPPER).unwrap();
    assert!(check_cfg_root(&compiler, rust));
    assert!(check_cfg_memb_override(&compiler, rust));
}

#[test]
fn pending_expressions_wait_in_order() {
    let mut ctx = TypeContext::new();
    assert!(!ctx.needs_check);
    assert!(ctx.sym_queue.is_empty());
    let first = PendingExpr::new(3, PendingExprKind::Standing(StandingExprState::Unresolved));
    let second = PendingExpr::new(
        4,
        PendingExprKind::Parent(ParentStateBase::new(9, ParentState::Notified { has_resolved_ty: true, has_const_val: false })),
    );
    ctx.store_pending_expr(7, first);
    ctx.store_pending_expr(7, second);
    ctx.store_pending_expr(8, first);
    assert_eq!(ctx.sym_queue.len(), 2);
    let pending = &ctx.sym_queue[&7];
    assert_eq!(pending.pending_exprs, vec![first, second]);
    assert!(!pending.has_const_val && !pending.has_resolved_ty);
    assert_eq!(ctx.sym_queue[&8].pending_exprs, vec![first]);
}

#[test]
fn resolver_stages_advance_to_done() {
    let mut state = ResolverState::Namespace;
    let mut seen = vec![state];
    for _ in 0..5 {
        state.advance();
        seen.push(state);
    }
    assert_eq!(
        seen,
        vec![
            ResolverState::Namespace,
            ResolverState::Member,
            ResolverState::Type,
            ResolverState::Constraint,
            ResolverState::Done,
            ResolverState::Done,
        ]
    );
}

#[test]
fn expected_kinds_read_as_words() {
    assert_eq!(ExpectedKindType::AnyBuiltin.to_string(), "builtin type");
    assert_eq!(ExpectedKind::Type(ExpectedKindType::AnyBuiltin).to_string(), "builtin type");
    assert_eq!(ExpectedKind::from_symbol_kind(SymbolKindFlat::Namespace).to_string(), "namespace");
    assert_eq!(ExpectedKind::from_type_kind(TypeKind::Func).to_string(), "function");
    assert_eq!(ExpectedKindType::from_type_kind(TypeKind::Struct).to_string(), "struct");
}

#[test]
fn reservations_merge_by_adding() {
    let mut counts = InstantiationReservations::default();
    counts.merge(InstantiationReservations { symbols: 3, scopes: 1, variables: 2 });
    counts.merge(InstantiationReservations { symbols: 4, scopes: 0, variables: 5 });
    assert_eq!(counts, InstantiationReservations { symbols: 7, scopes: 1, variables: 7 });
}

#[test]
fn boundaries_keep_their_flags() {
    let compiler = core_only();
    let Type::Boundaries(flags) = compiler.types[24].ty else {
        panic!("a boundary follows the unknown type");
    };
    assert_ne!(flags, TypeBoundaryFlags { bits: 0 });
    assert_eq!(compiler.types[24].owner, compiler.intrinsic_registry.core_mod_id);
}

/// Pushes type `ty` and a symbol naming it; returns the symbol.
fn push_named(compiler: &mut ScriptCompiler, name: u32, ty: Type) -> u32 {
    let type_id = compiler.types.len() as u32;
    let sym_id = compiler.syms.len() as u32;
    compiler.types.push(TypeInfo::new(ty, 0));
    compiler.syms.push(Symbol::new(name, sym_id, None, SymbolOrigin::Module(0), false, None, ScopeType::Neutral, SymbolKind::Type(type_id)));
    sym_id
}

#[test]
fn definitions_are_read_and_changed_through_their_symbols() {
    let mut compiler = core_only();
    let next_sym = compiler.syms.len() as u32;
    let struct_sym = push_named(&mut compiler, 600, Type::Struct(StructDef { sym_id: next_sym, fields: vec![1] }));
    let enum_sym = push_named(&mut compiler, 601, Type::Enum(EnumDef { sym_id: next_sym + 1, variants: vec![] }));
    let alias_sym = push_named(&mut compiler, 602, Type::Alias(AliasDef { sym_id: next_sym + 2, local_scope_id: 3 }));
    let typedef_sym = push_named(
        &mut compiler,
        603,
        Type::TypeDef(TypeDef { sym_id: next_sym + 3, name_id: 603, inner_type_id: CORE_BOOL }),
    );

    assert_eq!(compiler.get_struct(struct_sym).fields, vec![1]);
    assert_eq!(compiler.get_enum(enum_sym).sym_id, enum_sym);
    assert_eq!(compiler.get_alias(alias_sym).local_scope_id, 3);
    assert_eq!(compiler.get_typedef(typedef_sym).inner_type_id, CORE_BOOL);

    compiler.get_struct_mut(struct_sym).fields.push(2);
    compiler.get_enum_mut(enum_sym).variants.push(5);
    compiler.get_alias_mut(alias_sym).local_scope_id = 4;
    compiler.get_typedef_mut(typedef_sym).inner_type_id = CORE_I64;
    assert_eq!(compiler.get_struct(struct_sym).fields, vec![1, 2]);
    assert_eq!(compiler.get_enum(enum_sym).variants, vec![5]);
    assert_eq!(compiler.get_alias(alias_sym).local_scope_id, 4);
    assert_eq!(compiler.get_typedef(typedef_sym).inner_type_id, CORE_I64);
    assert_eq!(Type::kind(&compiler, compiler.extract_type_id(typedef_sym)), TypeKind::TypeDef);

    // A variable whose type slot is reserved until its value is known
    let max_sym = compiler.syms.iter().position(|s| s.name_id == intern::INTERNED_MAX_UPPER).unwrap() as u32;
    let var = compiler.get_var_mut(max_sym);
    var.state = VariableState::ReservedTypeSlot(CORE_BOOL);
    var.meta = VariableMetadata::User(9);
    assert_eq!(compiler.get_type_id_from_sym_id(max_sym), Some(CORE_BOOL));
    assert_eq!(compiler.get_var(max_sym).meta, VariableMetadata::User(9));
}
