use lib::declarations::{DeclHeader, Registered};
use lib::hir::{AliasDef, SymbolKind, SymbolOrigin, Type, TypeDef, VariableMetadata, VariableState};
use lib::intern;
use lib::module::{Module, ModuleState};
use lib::scopes::ScopeType;
use lib::script_compiler::ScriptCompiler;

fn one_module() -> ScriptCompiler {
    let main = Module::new(100, ModuleState::Loaded, 0, Vec::new());
    ScriptCompiler::init(None, vec![main])
}

fn public(name_id: u32) -> DeclHeader {
    DeclHeader { name_id, is_priv: false }
}

/// Symbol bound to `name` in `scope`.
fn bound(compiler: &ScriptCompiler, scope: u16, name: u32) -> Option<u32> {
    compiler.scopes[scope as usize].scope.table.interned_to_sym.get(&name).copied()
}

/// Symbol registered for syntax item `ast_id` in `scope`.
fn bound_ast(compiler: &ScriptCompiler, scope: u16, ast_id: u32) -> Option<u32> {
    compiler.scopes[scope as usize].scope.table.ast_to_sym.get(&ast_id).copied()
}

#[test]
fn typedef_reserves_its_inner_type_and_is_not_exported() {
    let mut compiler = one_module();
    let syms = compiler.syms.len() as u32;
    let types = compiler.types.len() as u32;
    let scopes = compiler.scopes.len() as u16;

    let res = compiler.register_typedef(public(500), 7, ScopeType::Var, 0);
    assert_eq!(res, Registered { sym_id: syms, original: None });
    assert_eq!(compiler.get_scope_id(ScopeType::Var, 0), Some(scopes));
    assert_eq!(bound(&compiler, scopes, 500), Some(syms));
    assert_eq!(bound_ast(&compiler, scopes, 7), Some(syms));

    let symbol = &compiler.syms[syms as usize];
    assert_eq!(symbol.self_id, syms);
    assert_eq!(symbol.name_id, 500);
    assert_eq!(symbol.ast_id, Some(7));
    assert_eq!(symbol.sym_origin, SymbolOrigin::Module(0));
    assert_eq!(symbol.scope_origin, ScopeType::Var);
    assert_eq!(symbol.kind, SymbolKind::Type(types));

    assert_eq!(compiler.types.len() as u32, types + 2);
    assert_eq!(
        compiler.types[types as usize].ty,
        Type::TypeDef(TypeDef { sym_id: syms, name_id: 500, inner_type_id: types + 1 })
    );
    assert_eq!(compiler.types[(types + 1) as usize].ty, Type::Unknown);
    assert_eq!(compiler.types[(types + 1) as usize].owner, 0);
    assert!(compiler.mods[0].exports.is_empty());
}

#[test]
fn duplicate_names_keep_the_first_symbol() {
    let mut compiler = one_module();
    let syms = compiler.syms.len() as u32;
    let scope = compiler.scopes.len() as u16;

    let first = compiler.register_struct(public(500), 1, ScopeType::Nest, 0);
    let second = compiler.register_enum(public(500), 2, ScopeType::Nest, 0);
    assert_eq!(first, Registered { sym_id: syms, original: None });
    assert_eq!(second, Registered { sym_id: syms + 1, original: Some(syms) });

    // One scope for the section; the name keeps its first symbol, each item has its own
    assert_eq!(compiler.scopes.len() as u16, scope + 1);
    assert_eq!(bound(&compiler, scope, 500), Some(syms));
    assert_eq!(bound_ast(&compiler, scope, 1), Some(syms));
    assert_eq!(bound_ast(&compiler, scope, 2), Some(syms + 1));

    // Both are registered and exported
    assert_eq!(compiler.syms.len() as u32, syms + 2);
    assert_eq!(compiler.mods[0].exports, vec![syms, syms + 1]);
}

#[test]
fn private_declarations_are_not_exported() {
    let mut compiler = one_module();
    let syms = compiler.syms.len() as u32;
    compiler.register_enum(DeclHeader { name_id: 501, is_priv: true }, 3, ScopeType::Var, 0);
    compiler.register_struct(public(502), 4, ScopeType::Var, 0);
    assert_eq!(compiler.mods[0].exports, vec![syms + 1]);
    assert!(compiler.syms[syms as usize].is_priv);
    assert!(!compiler.syms[(syms + 1) as usize].is_priv);
}

#[test]
fn struct_and_enum_types_start_empty() {
    let mut compiler = one_module();
    let types = compiler.types.len();
    let s = compiler.register_struct(public(500), 1, ScopeType::Var, 0);
    let e = compiler.register_enum(public(501), 2, ScopeType::Var, 0);
    match &compiler.types[types].ty {
        Type::Struct(def) => {
            assert_eq!(def.sym_id, s.sym_id);
            assert!(def.fields.is_empty());
        }
        other => panic!("expected a struct, found {:?}", other),
    }
    match &compiler.types[types + 1].ty {
        Type::Enum(def) => {
            assert_eq!(def.sym_id, e.sym_id);
            assert!(def.variants.is_empty());
        }
        other => panic!("expected an enum, found {:?}", other),
    }
    assert_eq!(compiler.syms[s.sym_id as usize].kind, SymbolKind::Type(types as u32));
    assert_eq!(compiler.syms[e.sym_id as usize].kind, SymbolKind::Type(types as u32 + 1));
}

#[test]
fn variables_reserve_a_type_slot() {
    let mut compiler = one_module();
    let syms = compiler.syms.len() as u32;
    let types = compiler.types.len() as u32;
    let variables = compiler.variables.len() as u32;

    let res = compiler.register_var(public(510), 9, ScopeType::Var, 0);
    assert_eq!(res, Registered { sym_id: syms, original: None });
    assert_eq!(compiler.syms[syms as usize].kind, SymbolKind::Variable(variables));
    assert_eq!(compiler.types[types as usize].ty, Type::Unknown);
    let var = &compiler.variables[variables as usize];
    assert_eq!(var.self_id, syms);
    assert_eq!(var.name_id, 510);
    assert_eq!(var.meta, VariableMetadata::User(9));
    assert_eq!(var.state, VariableState::ReservedTypeSlot(types));
    assert_eq!(compiler.mods[0].exports, vec![syms]);
}

#[test]
fn alias_gets_a_local_scope_of_its_own() {
    let mut compiler = one_module();
    let syms = compiler.syms.len() as u32;
    let types = compiler.types.len();
    let scopes = compiler.scopes.len() as u16;
    let listed = compiler.mods[0].scopes.clone();

    let res = compiler.register_alias(public(520), 5, ScopeType::Var, 0);
    assert_eq!(res.sym_id, syms);
    // The section's scope, then the alias's local scope
    assert_eq!(compiler.scopes.len() as u16, scopes + 2);
    let mut expected = listed;
    expected.push(scopes);
    expected.push(scopes + 1);
    assert_eq!(compiler.mods[0].scopes, expected);

    let local = &compiler.scopes[(scopes + 1) as usize];
    assert_eq!(local.scope.scope_id, scopes + 1);
    assert_eq!(local.scope.scope_type, ScopeType::Local);
    assert_eq!(local.sym_owner, Some(syms));
    assert_eq!(local.mod_owner, 0);
    assert!(local.scope.table.interned_to_sym.is_empty());
    assert_eq!(
        compiler.types[types].ty,
        Type::Alias(AliasDef { sym_id: syms, local_scope_id: scopes + 1 })
    );
    // The section is still found first for the module
    assert_eq!(compiler.get_scope_id(ScopeType::Var, 0), Some(scopes));
}

#[test]
fn complex_registrations_follow_the_platform_namespaces() {
    let mut compiler = one_module();
    let syms = compiler.syms.len() as u32;
    let scopes = compiler.scopes.len() as u16;

    // An enum takes its id once the complex scope's namespaces exist
    let res = compiler.register_enum(public(530), 1, ScopeType::Complex, 0);
    assert_eq!(res.sym_id, syms + 34);
    assert_eq!(compiler.syms[(syms + 34) as usize].self_id, syms + 34);
    assert_eq!(compiler.get_scope_id(ScopeType::Complex, 0), Some(scopes + 7));
    assert_eq!(compiler.intrinsic_registry.complex_scope_id, Some(scopes));
    assert_eq!(bound(&compiler, scopes, intern::INTERNED_RUST_UPPER), Some(syms));
}

#[test]
fn struct_id_is_taken_before_the_complex_namespaces() {
    let mut compiler = one_module();
    let syms = compiler.syms.len() as u32;

    let res = compiler.register_struct(public(531), 1, ScopeType::Complex, 0);
    // The id the struct got is the first platform namespace's place; its symbol follows them
    assert_eq!(res.sym_id, syms);
    assert_eq!(compiler.syms[syms as usize].name_id, intern::INTERNED_RUST_UPPER);
    assert_eq!(compiler.syms[(syms + 34) as usize].self_id, syms);
    assert_eq!(compiler.syms[(syms + 34) as usize].name_id, 531);
    assert_eq!(compiler.mods[0].exports, vec![syms]);
}
