use lib::builtins::{BuiltinType, BuiltinTypeKind, ExternPlatformType, JavaTypeKind, RustTypeKind};
use lib::compiler_consts::{builtin_ty_to_id, CORE_UNKNOWN};
use lib::compiler_helpers::directives_dataset;
use lib::core_helpers::{
    core_boundaries_dataset, core_builtin_types_dataset, core_funcs_dataset,
    core_instantiation_reservations, count_instantiation_bases,
};
use lib::hir::{
    ExprHir, ResolvedExpr, ResolvedExprMetadata, Symbol,
    SymbolKind, SymbolOrigin, Type, TypeInfo, Value, ValueInfo, VarDef, VariableMetadata,
    VariableState,
};
use lib::ids::{InternedId, ScopeId, TypeId};
use lib::instantiation_symbols::{
    InstantiationSymbolBase, InstantiationSymbolKind, InstantiationVariable, InstiationType,
    InstiationValue,
};
use lib::intern;
use lib::module::{Import, ImportKind, Module, ModuleState};
use lib::scopes::{AssociatedScopeKind, ScopeType};
use lib::script_compiler::ScriptCompiler;

/// Builds the core module the same way `ScriptCompiler::init` does, with no user modules
fn core_only_compiler() -> ScriptCompiler {
    ScriptCompiler::init(None, Vec::new())
}

#[test]
fn complex_scope_instantiates_extern_type_namespaces() {
    let mut compiler = core_only_compiler();
    let core_mod_id = compiler.intrinsic_registry.core_mod_id;
    compiler.push_scope(ScopeType::Complex, core_mod_id);
    let complex_scope_id = compiler
        .intrinsic_registry
        .complex_scope_id
        .expect("pushing a complex scope should create its intrinsic scope");

    let descend_namespace = |scope_id: ScopeId, name_id: u32| {
        let sym_id = compiler.scopes[scope_id as usize]
            .scope
            .table
            .interned_to_sym
            .get(&name_id)
            .copied()
            .expect("namespace should be instantiated");
        let sym = &compiler.syms[sym_id as usize];
        assert!(matches!(sym.kind, SymbolKind::Namespace));
        let Some(AssociatedScopeKind::Scope(child_scope_id)) = sym.associated_scope else {
            panic!("namespace should own a scope");
        };
        child_scope_id
    };

    let rust_upper_scope = descend_namespace(complex_scope_id, intern::INTERNED_RUST_UPPER);
    let types_scope = descend_namespace(rust_upper_scope, intern::INTERNED_TYPES_LOWER);
    let rust_lower_scope = descend_namespace(types_scope, intern::INTERNED_RUST_LOWER);

    assert_eq!(
        compiler.scopes[rust_upper_scope as usize].scope.table.interned_to_sym.len(),
        1
    );
    assert_eq!(
        compiler.scopes[types_scope as usize].scope.table.interned_to_sym.len(),
        1
    );

    let expected = [
        (intern::INTERNED_U8, RustTypeKind::U8),
        (intern::INTERNED_I8, RustTypeKind::I8),
        (intern::INTERNED_U16, RustTypeKind::U16),
        (intern::INTERNED_I16, RustTypeKind::I16),
        (intern::INTERNED_U32, RustTypeKind::U32),
        (intern::INTERNED_I32, RustTypeKind::I32),
        (intern::INTERNED_F32, RustTypeKind::F32),
        (intern::INTERNED_U64, RustTypeKind::U64),
        (intern::INTERNED_I64, RustTypeKind::I64),
        (intern::INTERNED_F64, RustTypeKind::F64),
        (intern::INTERNED_I128, RustTypeKind::I128),
        (intern::INTERNED_U128, RustTypeKind::U128),
        (intern::INTERNED_F128, RustTypeKind::F128),
        (intern::INTERNED_USIZE, RustTypeKind::Usize),
        (intern::INTERNED_ISIZE, RustTypeKind::Isize),
        (intern::INTERNED_BOOL, RustTypeKind::Bool),
        (intern::INTERNED_CHAR, RustTypeKind::Char),
        (intern::INTERNED_STR, RustTypeKind::Str),
        (intern::INTERNED_STRING, RustTypeKind::String),
    ];
    let rust_table = &compiler.scopes[rust_lower_scope as usize].scope.table.interned_to_sym;

    assert_eq!(rust_table.len(), expected.len());
    for (name_id, rust_kind) in expected {
        let sym_id = rust_table
            .get(&name_id)
            .copied()
            .expect("Rust extern type should be instantiated");
        assert!(
            matches!(
                compiler.syms[sym_id as usize].kind,
                SymbolKind::ExternType(ExternPlatformType::Rust(found)) if found == rust_kind
            ),
            "Rust extern symbol for interned id {name_id} has the wrong type"
        );
    }

    let java_upper_scope = descend_namespace(complex_scope_id, intern::INTERNED_JAVA_UPPER);
    let types_scope = descend_namespace(java_upper_scope, intern::INTERNED_TYPES_LOWER);
    let java_lower_scope = descend_namespace(types_scope, intern::INTERNED_JAVA_LOWER);

    assert_eq!(
        compiler.scopes[java_upper_scope as usize].scope.table.interned_to_sym.len(),
        1
    );
    assert_eq!(
        compiler.scopes[types_scope as usize].scope.table.interned_to_sym.len(),
        1
    );

    let expected = [
        (intern::INTERNED_LONG, JavaTypeKind::Long),
        (intern::INTERNED_INT, JavaTypeKind::Int),
        (intern::INTERNED_SHORT, JavaTypeKind::Short),
        (intern::INTERNED_BYTE, JavaTypeKind::Byte),
        (intern::INTERNED_FLOAT_LOWER, JavaTypeKind::Float),
        (intern::INTERNED_DOUBLE, JavaTypeKind::Double),
        (intern::INTERNED_BOOLEAN, JavaTypeKind::Boolean),
        (intern::INTERNED_CHAR, JavaTypeKind::Char),
        (intern::INTERNED_STRING, JavaTypeKind::String),
    ];
    let java_table = &compiler.scopes[java_lower_scope as usize].scope.table.interned_to_sym;

    assert_eq!(java_table.len(), expected.len());
    for (name_id, java_kind) in expected {
        let sym_id = java_table
            .get(&name_id)
            .copied()
            .expect("Java extern type should be instantiated");
        assert!(
            matches!(
                compiler.syms[sym_id as usize].kind,
                SymbolKind::ExternType(ExternPlatformType::Java(found)) if found == java_kind
            ),
            "Java extern symbol for interned id {name_id} has the wrong type"
        );
    }
}

#[test]
fn core_builtin_type_id_alignment() {
    let compiler = core_only_compiler();

    for (idx, (interned, builtin_ty, _ns)) in core_builtin_types_dataset().into_iter().enumerate() {
        // The dataset is loaded sequentially, so an entry's index is the `TypeId` it gets, and the
        // `CORE_*` constant behind `builtin_ty_to_id` must name that same id
        let core_id = idx as u32;
        assert_eq!(
            builtin_ty_to_id(builtin_ty.kind()),
            core_id,
            "CORE constant for {:?} does not match its position in the table",
            builtin_ty.kind()
        );

        let type_info: &TypeInfo = &compiler.types[core_id as usize];

        let Type::BuiltinTypeInfo(info) = &type_info.ty else {
            panic!("expected builtin type at CORE id {core_id}, got {:?}", type_info.ty);
        };

        assert_eq!(
            info.ty.kind(),
            builtin_ty.kind(),
            "builtin at CORE id {core_id} does not match the table entry"
        );

        let sym = &compiler.syms[info.sym_id as usize];
        assert_eq!(
            sym.name_id, interned,
            "symbol name for interned id {interned} does not match its interned id"
        );
    }
}

#[test]
fn core_unknown_type_id_alignment() {
    let compiler = core_only_compiler();
    let type_info = &compiler.types[CORE_UNKNOWN as usize];

    assert!(
        matches!(type_info.ty, Type::Unknown),
        "expected Type::Unknown at CORE_UNKNOWN, got {:?}",
        type_info.ty
    );
}

#[test]
fn core_boundaries_follow_builtins() {
    let compiler = core_only_compiler();

    // Boundaries are pushed directly after the unknown type
    let first = CORE_UNKNOWN + 1;

    for (idx, (interned, flags)) in core_boundaries_dataset().into_iter().enumerate() {
        let type_id: TypeId = first + idx as u32;
        let type_info = &compiler.types[type_id as usize];

        let Type::Boundaries(found) = type_info.ty else {
            panic!("expected boundary type at {type_id:?}, got {:?}", type_info.ty);
        };

        assert_eq!(found, flags, "boundary at {type_id:?} does not match");

        let sym = compiler
            .syms
            .iter()
            .find(|sym| sym.name_id == interned)
            .expect("boundary symbol should exist");

        assert!(
            matches!(sym.kind, SymbolKind::Type(id) if id == type_id),
            "boundary symbol does not point at its type"
        );
    }
}

/// `TypeId` of the first core function, which is pushed after the builtins, the unknown type and
/// the boundaries
fn first_core_func_type_id() -> u32 {
    CORE_UNKNOWN + 1 + core_boundaries_dataset().len() as u32
}

#[test]
fn core_funcs_follow_boundaries() {
    let compiler = core_only_compiler();
    let first = first_core_func_type_id();

    for (idx, core_func) in core_funcs_dataset().iter().enumerate() {
        let type_id: TypeId = first + idx as u32;
        let type_info = &compiler.types[type_id as usize];

        let Type::Func(func_def) = &type_info.ty else {
            panic!("expected func type at {type_id:?}, got {:?}", type_info.ty);
        };

        assert_eq!(func_def.kind, core_func.kind, "kind at {type_id:?}");
        assert_eq!(func_def.name_id, core_func.name, "name at {type_id:?}");
        assert_eq!(
            func_def.affects_type_constraint, core_func.affects_type_constraint,
            "affects_type_constraint at {type_id:?}"
        );
        assert_eq!(
            func_def.type_constraints, core_func.type_constraints,
            "type_constraints at {type_id:?}"
        );
        assert_eq!(
            func_def.arg_constraints, core_func.arg_constraints,
            "arg_constraints at {type_id:?}"
        );
        assert_eq!(func_def.ret_type, core_func.ret_type, "ret_type at {type_id:?}");
    }
}

#[test]
fn core_funcs_are_symbols_in_core_scope() {
    let compiler = core_only_compiler();
    let first = first_core_func_type_id();

    let core_mod_id = compiler.intrinsic_registry.core_mod_id;
    let core_scope_id = compiler.extract_scope_id(ScopeType::Core, core_mod_id);
    let table = &compiler.get_scope(core_scope_id).scope.table;

    for (idx, core_func) in core_funcs_dataset().iter().enumerate() {
        let type_id: TypeId = first + idx as u32;
        let name_id: InternedId = core_func.name;

        let sym_id = *table
            .interned_to_sym
            .get(&name_id)
            .unwrap_or_else(|| panic!("core func {:?} is not in the core scope", core_func.kind));

        let sym = &compiler.syms[sym_id as usize];

        assert_eq!(sym.name_id, name_id, "symbol name for {:?}", core_func.kind);
        assert!(
            matches!(sym.kind, SymbolKind::Type(id) if id == type_id),
            "symbol for {:?} does not point at {type_id:?}",
            core_func.kind
        );

        let Type::Func(func_def) = &compiler.types[type_id as usize].ty else {
            panic!("expected func type at {type_id:?}");
        };

        assert_eq!(
            func_def.self_id, sym_id,
            "func def for {:?} does not point back at its symbol",
            core_func.kind
        );
    }
}

#[test]
fn core_func_return_types_are_loaded() {
    let compiler = core_only_compiler();

    // Return types are indexes into types loaded before the funcs themselves
    for core_func in &core_funcs_dataset() {
        assert!(
            core_func.ret_type < first_core_func_type_id(),
            "return type of {:?} is not loaded before the funcs",
            core_func.kind
        );

        let type_info = &compiler.types[core_func.ret_type as usize];
        assert!(
            matches!(type_info.ty, Type::BuiltinTypeInfo(_)),
            "return type of {:?} is not a builtin, got {:?}",
            core_func.kind,
            type_info.ty
        );
    }
}

/// A module binds its own name plus one identifier per import -- the alias when given, the file
/// name otherwise. An identifier already bound in the module's scope is filtered out, which is
/// what happens to the implicit `core` import inside the `core` module itself.
fn expected_module_symbol_count(compiler: &ScriptCompiler) -> usize {
    compiler
        .mods
        .iter()
        .map(|module| {
            let mut idents: Vec<InternedId> = vec![module.name_id];
            for import in &module.imports {
                let ident = import.alias_id.unwrap_or(import.name_id);
                if !idents.contains(&ident) {
                    idents.push(ident);
                }
            }
            idents.len()
        })
        .sum()
}

#[test]
fn startup_reservations_match_loaded_data() {
    let compiler = core_only_compiler();
    let ns_counts = core_instantiation_reservations();

    let expected_type_count = core_builtin_types_dataset().len()
        + core_boundaries_dataset().len()
        + core_funcs_dataset().len()
        + 1;
    assert_eq!(compiler.types.len(), expected_type_count);
    assert_eq!(compiler.types.capacity(), expected_type_count);

    let expected_symbol_count = core_builtin_types_dataset().len()
        + core_boundaries_dataset().len()
        + core_funcs_dataset().len()
        + directives_dataset().len()
        + expected_module_symbol_count(&compiler)
        + ns_counts.symbols;
    assert_eq!(compiler.syms.len(), expected_symbol_count);
    assert_eq!(compiler.syms.capacity(), expected_symbol_count);

    assert_eq!(compiler.directives.len(), directives_dataset().len());
    assert_eq!(compiler.directives.capacity(), directives_dataset().len());

    // `load_core` creates one core scope plus a scope for every built-in carrying an intrinsic
    // namespace; module-symbol registration creates one compiler scope for every module, including
    // the implicit core module.
    let expected_scope_count = compiler.mods.len() + 1 + ns_counts.scopes;
    assert_eq!(compiler.scopes.len(), expected_scope_count);
    assert_eq!(compiler.scopes.capacity(), expected_scope_count);

    let core_mod = &compiler.mods[compiler.intrinsic_registry.core_mod_id as usize];
    let expected_core_exports = core_builtin_types_dataset().len()
        + core_boundaries_dataset().len()
        + core_funcs_dataset().len();
    assert_eq!(core_mod.exports.len(), expected_core_exports);
    assert_eq!(core_mod.exports.capacity(), expected_core_exports);
}

#[test]
fn startup_reservations_include_user_module_symbols() {
    let import = Import::new(0, ImportKind::Core(0), Some(1));
    let module = Module::new(2, ModuleState::Unloaded, 0, vec![import]);
    let compiler = ScriptCompiler::init(None, vec![module]);
    let ns_counts = core_instantiation_reservations();

    let expected_symbol_count = core_builtin_types_dataset().len()
        + core_boundaries_dataset().len()
        + core_funcs_dataset().len()
        + directives_dataset().len()
        + expected_module_symbol_count(&compiler)
        + ns_counts.symbols;

    assert_eq!(compiler.syms.len(), expected_symbol_count);
    assert_eq!(compiler.syms.capacity(), expected_symbol_count);
    let expected_scope_count = compiler.mods.len() + 1 + ns_counts.scopes;
    assert_eq!(compiler.scopes.len(), expected_scope_count);
    assert_eq!(compiler.scopes.capacity(), expected_scope_count);
}

// -- Intrinsic namespaces --

/// Everything `register_instantiation_var` pushed for one constant.
struct RegisteredConstant<'a> {
    sym: &'a Symbol,
    var: &'a VarDef,
    val: &'a ValueInfo,
    expr: &'a ResolvedExpr,
}

/// Looks up `name_id` in the scope a namespaced built-in owns and gathers everything
/// `register_instantiation_var` pushed for it.
fn registered_constant<'a>(
    compiler: &'a ScriptCompiler,
    scope_id: ScopeId,
    name_id: InternedId,
) -> RegisteredConstant<'a> {
    let sym_id = compiler.get_scope(scope_id).scope.table.interned_to_sym[&name_id];
    let sym = &compiler.syms[sym_id as usize];

    let SymbolKind::Variable(var_id) = sym.kind else {
        panic!("`{name_id:?}` in {scope_id:?} is not a variable, got {:?}", sym.kind);
    };

    let var = &compiler.variables[var_id as usize];

    let VariableState::Known(val_id) = var.state else {
        panic!("`{name_id:?}` in {scope_id:?} has no known value");
    };

    let val = &compiler.values[val_id as usize];
    let expr = &compiler.exprs[val.expr_id as usize];

    RegisteredConstant { sym, var, val, expr }
}

/// The scope a namespaced built-in owns, or `None` when the entry declares no namespace.
/// Panics when the two disagree, since `register_builtin` derives one from the other.
fn builtin_ns_scope(
    compiler: &ScriptCompiler,
    type_id: TypeId,
    ns: &[InstantiationSymbolBase],
) -> Option<ScopeId> {
    let Type::BuiltinTypeInfo(info) = &compiler.types[type_id as usize].ty else {
        panic!(
            "expected a builtin at {type_id:?}, got {:?}",
            compiler.types[type_id as usize].ty
        );
    };

    match compiler.syms[info.sym_id as usize].associated_scope {
        Some(AssociatedScopeKind::Scope(scope_id)) => {
            assert!(
                !ns.is_empty(),
                "builtin at {type_id:?} declares no namespace but owns {scope_id:?}"
            );
            Some(scope_id)
        }
        None => {
            assert!(
                ns.is_empty(),
                "builtin at {type_id:?} declares a namespace but owns no scope"
            );
            None
        }
        other => panic!("builtin at {type_id:?} has a non-scope association: {other:?}"),
    }
}

/// `MAX` or `MIN`, or math constants, for messages.
fn bound_name(name_id: InternedId) -> &'static str {
    match name_id {
        intern::INTERNED_MAX_UPPER => "MAX",
        intern::INTERNED_MIN_UPPER => "MIN",
        intern::INTERNED_BITS_UPPER => "BITS",
        intern::INTERNED_BYTES_UPPER => "BYTES",
        intern::INTERNED_RADIX => "RADIX",
        intern::INTERNED_DIGITS => "DIGITS",
        intern::INTERNED_MANTISSA_DIGITS => "MANTISSA_DIGITS",
        intern::INTERNED_EPSILON => "EPSILON",
        intern::INTERNED_INFINITY => "INFINITY",
        intern::INTERNED_NEG_INFINITY => "NEG_INFINITY",
        intern::INTERNED_NAN => "NAN",
        intern::INTERNED_MIN_POSITIVE => "MIN_POSITIVE",
        intern::INTERNED_SQRT_3 => "SQRT_3",
        intern::INTERNED_PI_UPPER => "PI",
        intern::INTERNED_E_UPPER => "E",
        intern::INTERNED_TAU => "TAU",
        intern::INTERNED_FRAC_1_PI => "FRAC_1_PI",
        intern::INTERNED_FRAC_1_SQRT_2 => "FRAC_1_SQRT_2",
        intern::INTERNED_FRAC_2_PI => "FRAC_2_PI",
        intern::INTERNED_FRAC_2_SQRT_PI => "FRAC_2_SQRT_PI",
        intern::INTERNED_FRAC_PI_2 => "FRAC_PI_2",
        intern::INTERNED_FRAC_PI_3 => "FRAC_PI_3",
        intern::INTERNED_FRAC_PI_4 => "FRAC_PI_4",
        intern::INTERNED_FRAC_PI_6 => "FRAC_PI_6",
        intern::INTERNED_FRAC_PI_8 => "FRAC_PI_8",
        intern::INTERNED_LN_2 => "LN_2",
        intern::INTERNED_LN_10 => "LN_10",
        intern::INTERNED_LOG2_10 => "LOG2_10",
        intern::INTERNED_LOG2_E => "LOG2_E",
        intern::INTERNED_LOG10_2 => "LOG10_2",
        intern::INTERNED_LOG10_E => "LOG10_E",
        intern::INTERNED_SQRT_2 => "SQRT_2",
        intern::INTERNED_GOLDEN_RATIO => "GOLDEN_RATIO",
        intern::INTERNED_EULER_GAMMA => "EULER_GAMMA",
        _ => "UNKNOWN",
    }
}

/// The `Value` of a float constant, which holds the float's bits.
fn float_value(x: f64) -> Value {
    Value::F64(x.to_bits())
}

/// Only the variants `InstiationValue` can produce are compared; floats by their bits, so a
/// bound that lost precision on the way in fails.
fn same_value(left: &Value, right: &Value) -> bool {
    match (left, right) {
        (Value::I64(l), Value::I64(r)) => l == r,
        (Value::F64(l), Value::F64(r)) => l == r,
        (Value::Bool(l), Value::Bool(r)) => l == r,
        (Value::Char(l), Value::Char(r)) => l == r,
        (Value::InternedStr(l), Value::InternedStr(r)) => l == r,
        _ => false,
    }
}

/// The bound a built-in's `MAX` and `MIN` must carry, as `(max, min)`. Spelled out here rather
/// than derived from the dataset so a wrong constant in the dataset fails instead of agreeing
/// with itself.
fn expected_bounds(kind: BuiltinTypeKind) -> Option<(Value, Value)> {
    let pair = match kind {
        BuiltinTypeKind::I8 => (Value::I64(127), Value::I64(-128)),
        BuiltinTypeKind::U8 => (Value::I64(255), Value::I64(0)),
        BuiltinTypeKind::I16 => (Value::I64(32_767), Value::I64(-32_768)),
        BuiltinTypeKind::U16 => (Value::I64(65_535), Value::I64(0)),
        BuiltinTypeKind::F16 => (float_value(65_504.0), float_value(-65_504.0)),
        BuiltinTypeKind::I32 => (Value::I64(2_147_483_647), Value::I64(-2_147_483_648)),
        BuiltinTypeKind::U32 => (Value::I64(4_294_967_295), Value::I64(0)),
        BuiltinTypeKind::F32 => (float_value(f32::MAX as f64), float_value(f32::MIN as f64)),
        BuiltinTypeKind::I64 => (Value::I64(i64::MAX), Value::I64(i64::MIN)),
        BuiltinTypeKind::F64 => (float_value(f64::MAX), float_value(f64::MIN)),
        // `u64`, `i128`, `u128` and `f128` do not fit `InstiationValue`, and `sized`/`unsized`
        // are pointer-sized, so their bounds belong to the target rather than the host
        _ => return None,
    };

    Some(pair)
}

#[test]
fn core_namespaced_builtins_own_a_core_scope() {
    let compiler = core_only_compiler();
    let core_mod_id = compiler.intrinsic_registry.core_mod_id;

    for (idx, (_, builtin_ty, ns)) in core_builtin_types_dataset().iter().enumerate() {
        let type_id = idx as u32;
        let Some(scope_id) = builtin_ns_scope(&compiler, type_id, ns) else {
            continue;
        };

        let Type::BuiltinTypeInfo(info) = &compiler.types[type_id as usize].ty else {
            unreachable!("checked by `builtin_ns_scope`");
        };
        let scope_info = compiler.get_scope(scope_id);

        assert_eq!(
            scope_info.sym_owner,
            Some(info.sym_id),
            "namespace scope of {:?} is not owned by its builtin's symbol",
            builtin_ty.kind()
        );
        assert_eq!(
            scope_info.mod_owner, core_mod_id,
            "namespace scope of {:?} is not owned by the core module",
            builtin_ty.kind()
        );
        assert_eq!(
            scope_info.scope.scope_type,
            ScopeType::Core,
            "namespace scope of {:?} is not a core scope",
            builtin_ty.kind()
        );
        assert_eq!(
            scope_info.scope.table.interned_to_sym.len(),
            ns.len(),
            "namespace scope of {:?} does not hold exactly its dataset entries",
            builtin_ty.kind()
        );
    }
}

#[test]
fn core_namespaces_declare_max_and_min() {
    for (_, builtin_ty, ns) in &core_builtin_types_dataset() {
        if ns.is_empty() {
            continue;
        }

        if builtin_ty.kind() == BuiltinTypeKind::U64 {
            let names: Vec<u32> = ns.iter().map(|base| base.name_id).collect();
            assert!(
                names.len() == 3
                    && names[0] == intern::INTERNED_BITS_UPPER
                    && names[1] == intern::INTERNED_BYTES_UPPER
                    && names[2] == intern::INTERNED_RADIX,
                "namespace of u64 must declare BITS, BYTES, RADIX"
            );
            continue;
        }

        let names: Vec<u32> = ns.iter().map(|base| base.name_id).collect();

        assert!(
            names.len() >= 5
                && names[0] == intern::INTERNED_MAX_UPPER
                && names[1] == intern::INTERNED_MIN_UPPER
                && names[2] == intern::INTERNED_BITS_UPPER
                && names[3] == intern::INTERNED_BYTES_UPPER
                && names[4] == intern::INTERNED_RADIX,
            "namespace of {:?} does not start with `MAX`, `MIN`, `BITS`, `BYTES`, `RADIX`",
            builtin_ty.kind()
        );
    }
}

#[test]
fn core_namespace_entries_are_typed_as_i64_or_f64() {
    for (_, builtin_ty, ns) in &core_builtin_types_dataset() {
        for base in ns.iter() {
            let InstantiationSymbolKind::Variable(var) = &base.kind else {
                panic!(
                    "namespace of {:?} holds a non-variable entry: {:?}",
                    builtin_ty.kind(),
                    base.kind
                );
            };

            let InstiationType::BuiltinType(entry_ty) = &var.ty;

            let is_integer_attr = matches!(
                base.name_id,
                intern::INTERNED_BITS_UPPER
                    | intern::INTERNED_BYTES_UPPER
                    | intern::INTERNED_RADIX
                    | intern::INTERNED_DIGITS
                    | intern::INTERNED_MANTISSA_DIGITS
            );
            // Internally only `I64` and `F64` are accepted: integer attributes and
            // integer-valued entries are `I64`, float-valued entries are `F64`.
            // Rounded values such as `f32::PI` keep their rounded payload but are
            // still typed `F64`.
            let expected_kind = if is_integer_attr {
                BuiltinTypeKind::I64
            } else {
                match &var.val {
                    InstiationValue::I64(_) => BuiltinTypeKind::I64,
                    InstiationValue::F64(_) => BuiltinTypeKind::F64,
                    _ => panic!(
                        "namespace of {:?} declares an entry with an unexpected value type: {:?}",
                        builtin_ty.kind(),
                        var.val
                    ),
                }
            };
            assert_eq!(
                entry_ty.kind(),
                expected_kind,
                "namespace of {:?} declares {:?} typed {:?}, expected {:?}",
                builtin_ty.kind(),
                bound_name(base.name_id),
                entry_ty.kind(),
                expected_kind
            );
        }
    }
}

#[test]
fn core_namespace_bounds_match_target_limits() {
    for (_, builtin_ty, ns) in &core_builtin_types_dataset() {
        let Some((expected_max, expected_min)) = expected_bounds(builtin_ty.kind()) else {
            if builtin_ty.kind() != BuiltinTypeKind::U64 {
                assert!(
                    ns.is_empty(),
                    "{:?} carries a namespace with no expected bounds",
                    builtin_ty.kind()
                );
            }
            continue;
        };

        assert!(
            ns.len() >= 2,
            "{:?} has target bounds but no namespace holding them",
            builtin_ty.kind()
        );

        for (base, expected) in ns[..2].iter().zip([expected_max, expected_min]) {
            let InstantiationSymbolKind::Variable(var) = &base.kind else {
                unreachable!("checked by `core_namespace_entries_are_typed_as_i64_or_f64`");
            };

            let found = var.val.to_val();

            assert!(
                same_value(&found, &expected),
                "{:?}::{} is {found:?}, expected {expected:?}",
                builtin_ty.kind(),
                bound_name(base.name_id)
            );
        }
    }
}

#[test]
fn core_namespace_constants_are_registered_as_variables() {
    let compiler = core_only_compiler();

    for (idx, (_, builtin_ty, ns)) in core_builtin_types_dataset().iter().enumerate() {
        let type_id = idx as u32;
        let Some(scope_id) = builtin_ns_scope(&compiler, type_id, ns) else {
            continue;
        };

        for base in ns.iter() {
            let InstantiationSymbolKind::Variable(var) = &base.kind else {
                unreachable!("checked by `core_namespace_entries_are_typed_as_i64_or_f64`");
            };

            let found = registered_constant(&compiler, scope_id, base.name_id);
            let label = format!("{:?}::{}", builtin_ty.kind(), bound_name(base.name_id));

            assert_eq!(found.sym.name_id, base.name_id, "symbol name of {label}");
            let origins_match = match (found.sym.sym_origin, base.sym_origin) {
                (SymbolOrigin::Compiler, SymbolOrigin::Compiler) => true,
                (SymbolOrigin::Module(found_id), SymbolOrigin::Module(declared)) => {
                    found_id == declared
                }
                _ => false,
            };
            assert!(
                origins_match,
                "origin of {label} is {:?}, dataset declares {:?}",
                found.sym.sym_origin, base.sym_origin
            );
            assert_eq!(found.sym.is_priv, base.is_priv, "privacy of {label}");
            assert!(
                found.sym.ast_id.is_none(),
                "{label} is compiler generated and must have no ast id"
            );
            assert!(
                found.sym.associated_scope.is_none(),
                "{label} is a value and must own no scope"
            );

            assert_eq!(found.var.self_id, found.sym.self_id, "var of {label}");
            assert_eq!(found.var.name_id, base.name_id, "var name of {label}");
            assert!(
                matches!(found.var.meta, VariableMetadata::Generated),
                "{label} is compiler generated"
            );

            // The constant is typed as its variable definition, not as whatever its `Value`
            // payload happens to be -- `u8::MAX` is an `i64` holding an `I64`,
            // `f32::PI` is an `f64` holding the `f32`-rounded `F64` payload.
            let InstiationType::BuiltinType(var_bt) = &var.ty;
            let expected_type_id: TypeId = builtin_ty_to_id(var_bt.kind());
            assert_eq!(found.val.type_id, expected_type_id, "{label} is not typed as expected");

            let expected = var.val.to_val();
            let const_val = found
                .val
                .const_val
                .as_ref()
                .unwrap_or_else(|| panic!("{label} has no constant value"));

            assert!(
                *const_val == expected,
                "{label} is {const_val:?}, expected {expected:?}"
            );

            // `register_instantiation_var` pushes the value and its expression as a pair, and
            // later stages follow the link in both directions
            assert_eq!(
                found.expr.type_id, found.val.type_id,
                "expr and value of {label} disagree on the type"
            );
            assert!(
                matches!(found.expr.expr_hir, ExprHir::Val(val_id) if val_id == found.expr.val_id),
                "expr of {label} does not hold its own value"
            );
            assert!(
                matches!(found.expr.meta, ResolvedExprMetadata::Generated),
                "expr of {label} is compiler generated"
            );
            assert_eq!(
                compiler.values[found.expr.val_id as usize].expr_id, found.val.expr_id,
                "value and expr of {label} do not point at each other"
            );
        }
    }
}

#[test]
fn core_namespace_constants_stay_out_of_the_core_scope() {
    let compiler = core_only_compiler();
    let core_mod_id = compiler.intrinsic_registry.core_mod_id;
    let core_scope_id = compiler.extract_scope_id(ScopeType::Core, core_mod_id);
    let table = &compiler.get_scope(core_scope_id).scope.table;

    // Intrinsic namespace constants are only reachable through the built-in that owns them.
    // Leaking them into the core scope would make them resolve bare, and would collide across the ten namespaces
    for (_, _, ns) in &core_builtin_types_dataset() {
        for base in ns.iter() {
            assert!(
                !table.interned_to_sym.contains_key(&base.name_id),
                "core scope must not bind the intrinsic constant at interned id {}",
                base.name_id
            );
        }
    }

    let core_mod = &compiler.mods[core_mod_id as usize];
    assert_eq!(
        core_mod.exports.len(),
        table.interned_to_sym.len(),
        "core exports must be exactly what the core scope binds"
    );
}

#[test]
fn core_namespace_arenas_are_reserved_exactly() {
    let compiler = core_only_compiler();
    let ns_counts = core_instantiation_reservations();

    // One `VarDef`, one `ResolvedExpr`, and one `ValueInfo` per constant, and nothing else has
    // been pushed yet, so the arenas are exactly as long as they were reserved
    for (label, len, capacity) in [
        ("variables", compiler.variables.len(), compiler.variables.capacity()),
        ("exprs", compiler.exprs.len(), compiler.exprs.capacity()),
        ("values", compiler.values.len(), compiler.values.capacity()),
    ] {
        assert_eq!(len, ns_counts.variables, "{label} length");
        assert_eq!(capacity, ns_counts.variables, "{label} capacity");
    }

    for (idx, var) in compiler.variables.iter().enumerate() {
        let var_id = idx as u32;
        let sym = &compiler.syms[var.self_id as usize];

        assert!(
            matches!(sym.kind, SymbolKind::Variable(found) if found == var_id),
            "variable {idx} and its symbol do not point at each other"
        );
    }
}

/// The core dataset is flat, so nesting is only covered here. `register_instantiation_bases`
/// descends into a namespace, which the reservation counts must follow.
#[test]
fn count_instantiation_bases_descends_into_namespaces() {
    let leaves = vec![
        InstantiationSymbolBase::new(
            intern::INTERNED_MAX_UPPER,
            SymbolOrigin::Compiler,
            ScopeType::Compiler,
            false,
            InstantiationSymbolKind::Variable(InstantiationVariable::new(
                InstiationType::BuiltinType(BuiltinType::I8),
                InstiationValue::I64(1),
            )),
        ),
        InstantiationSymbolBase::new(
            intern::INTERNED_INT,
            SymbolOrigin::Compiler,
            ScopeType::Compiler,
            false,
            InstantiationSymbolKind::ExternType(ExternPlatformType::Java(JavaTypeKind::Int)),
        ),
    ];
    let root = vec![
        InstantiationSymbolBase::new(
            intern::INTERNED_TYPES_LOWER,
            SymbolOrigin::Compiler,
            ScopeType::Compiler,
            false,
            InstantiationSymbolKind::Namespace(leaves),
        ),
        InstantiationSymbolBase::new(
            intern::INTERNED_MIN_UPPER,
            SymbolOrigin::Compiler,
            ScopeType::Compiler,
            false,
            InstantiationSymbolKind::Variable(InstantiationVariable::new(
                InstiationType::BuiltinType(BuiltinType::I8),
                InstiationValue::I64(0),
            )),
        ),
    ];
    let counts = count_instantiation_bases(&root);

    // Namespace, its two members, and the root variable
    assert_eq!(counts.symbols, 4);
    // Only the nested namespace owns one; the root's own scope belongs to its caller
    assert_eq!(counts.scopes, 1);
    // The extern type contributes no value
    assert_eq!(counts.variables, 2);
}

/// The namespace of the built-in `kind`, as loaded.
fn loaded_ns_scope(compiler: &ScriptCompiler, kind: BuiltinTypeKind) -> ScopeId {
    let dataset = core_builtin_types_dataset();
    let entry = dataset.iter().find(|(_, b, _)| b.kind() == kind).unwrap();
    builtin_ns_scope(compiler, builtin_ty_to_id(kind), &entry.2).unwrap()
}

#[test]
fn core_namespaces_f16_f32_and_f64_declare_math_constants() {
    let compiler = core_only_compiler();

    // `f16` has no stable Rust source, so these are the `f64` constants rounded to binary16,
    // spelled out as the exact `f64` holding each rounded value.
    let expected_f16: &[(u32, f64)] = &[
        (intern::INTERNED_PI_UPPER, 3.140625),
        (intern::INTERNED_E_UPPER, 2.71875),
        (intern::INTERNED_TAU, 6.28125),
        (intern::INTERNED_FRAC_1_PI, 0.318359375),
        (intern::INTERNED_FRAC_1_SQRT_2, 0.70703125),
        (intern::INTERNED_FRAC_2_PI, 0.63671875),
        (intern::INTERNED_FRAC_2_SQRT_PI, 1.1279296875),
        (intern::INTERNED_FRAC_PI_2, 1.5703125),
        (intern::INTERNED_FRAC_PI_3, 1.046875),
        (intern::INTERNED_FRAC_PI_4, 0.78515625),
        (intern::INTERNED_FRAC_PI_6, 0.5234375),
        (intern::INTERNED_FRAC_PI_8, 0.392578125),
        (intern::INTERNED_LN_2, 0.693359375),
        (intern::INTERNED_LN_10, 2.302734375),
        (intern::INTERNED_LOG2_10, 3.322265625),
        (intern::INTERNED_LOG2_E, 1.4423828125),
        (intern::INTERNED_LOG10_2, 0.301025390625),
        (intern::INTERNED_LOG10_E, 0.434326171875),
        (intern::INTERNED_SQRT_2, 1.4140625),
        (intern::INTERNED_SQRT_3, 1.732421875),
        (intern::INTERNED_GOLDEN_RATIO, 1.6181640625),
        (intern::INTERNED_EULER_GAMMA, 0.5771484375),
    ];

    let expected_f32: &[(u32, f64)] = &[
        (intern::INTERNED_PI_UPPER, std::f32::consts::PI as f64),
        (intern::INTERNED_E_UPPER, std::f32::consts::E as f64),
        (intern::INTERNED_TAU, std::f32::consts::TAU as f64),
        (intern::INTERNED_FRAC_1_PI, std::f32::consts::FRAC_1_PI as f64),
        (intern::INTERNED_FRAC_1_SQRT_2, std::f32::consts::FRAC_1_SQRT_2 as f64),
        (intern::INTERNED_FRAC_2_PI, std::f32::consts::FRAC_2_PI as f64),
        (intern::INTERNED_FRAC_2_SQRT_PI, std::f32::consts::FRAC_2_SQRT_PI as f64),
        (intern::INTERNED_FRAC_PI_2, std::f32::consts::FRAC_PI_2 as f64),
        (intern::INTERNED_FRAC_PI_3, std::f32::consts::FRAC_PI_3 as f64),
        (intern::INTERNED_FRAC_PI_4, std::f32::consts::FRAC_PI_4 as f64),
        (intern::INTERNED_FRAC_PI_6, std::f32::consts::FRAC_PI_6 as f64),
        (intern::INTERNED_FRAC_PI_8, std::f32::consts::FRAC_PI_8 as f64),
        (intern::INTERNED_LN_2, std::f32::consts::LN_2 as f64),
        (intern::INTERNED_LN_10, std::f32::consts::LN_10 as f64),
        (intern::INTERNED_LOG2_10, std::f32::consts::LOG2_10 as f64),
        (intern::INTERNED_LOG2_E, std::f32::consts::LOG2_E as f64),
        (intern::INTERNED_LOG10_2, std::f32::consts::LOG10_2 as f64),
        (intern::INTERNED_LOG10_E, std::f32::consts::LOG10_E as f64),
        (intern::INTERNED_SQRT_2, std::f32::consts::SQRT_2 as f64),
        (intern::INTERNED_SQRT_3, 1.732050807568877293527446341505872366_f32 as f64),
        (intern::INTERNED_GOLDEN_RATIO, 1.618033988749894848204586834365638118_f32 as f64),
        (intern::INTERNED_EULER_GAMMA, 0.577215664901532860606512090082402431_f32 as f64),
    ];

    let expected_f64: &[(u32, f64)] = &[
        (intern::INTERNED_PI_UPPER, std::f64::consts::PI),
        (intern::INTERNED_E_UPPER, std::f64::consts::E),
        (intern::INTERNED_TAU, std::f64::consts::TAU),
        (intern::INTERNED_FRAC_1_PI, std::f64::consts::FRAC_1_PI),
        (intern::INTERNED_FRAC_1_SQRT_2, std::f64::consts::FRAC_1_SQRT_2),
        (intern::INTERNED_FRAC_2_PI, std::f64::consts::FRAC_2_PI),
        (intern::INTERNED_FRAC_2_SQRT_PI, std::f64::consts::FRAC_2_SQRT_PI),
        (intern::INTERNED_FRAC_PI_2, std::f64::consts::FRAC_PI_2),
        (intern::INTERNED_FRAC_PI_3, std::f64::consts::FRAC_PI_3),
        (intern::INTERNED_FRAC_PI_4, std::f64::consts::FRAC_PI_4),
        (intern::INTERNED_FRAC_PI_6, std::f64::consts::FRAC_PI_6),
        (intern::INTERNED_FRAC_PI_8, std::f64::consts::FRAC_PI_8),
        (intern::INTERNED_LN_2, std::f64::consts::LN_2),
        (intern::INTERNED_LN_10, std::f64::consts::LN_10),
        (intern::INTERNED_LOG2_10, std::f64::consts::LOG2_10),
        (intern::INTERNED_LOG2_E, std::f64::consts::LOG2_E),
        (intern::INTERNED_LOG10_2, std::f64::consts::LOG10_2),
        (intern::INTERNED_LOG10_E, std::f64::consts::LOG10_E),
        (intern::INTERNED_SQRT_2, std::f64::consts::SQRT_2),
        (intern::INTERNED_SQRT_3, 1.732050807568877293527446341505872366_f64),
        (intern::INTERNED_GOLDEN_RATIO, 1.618033988749894848204586834365638118_f64),
        (intern::INTERNED_EULER_GAMMA, 0.577215664901532860606512090082402431_f64),
    ];

    let f64_type_id: TypeId = builtin_ty_to_id(BuiltinTypeKind::F64);
    for (kind, expected) in [
        (BuiltinTypeKind::F16, expected_f16),
        (BuiltinTypeKind::F32, expected_f32),
        (BuiltinTypeKind::F64, expected_f64),
    ] {
        let scope = loaded_ns_scope(&compiler, kind);
        for &(name_id, expected_val) in expected {
            let rc = registered_constant(&compiler, scope, name_id);
            assert_eq!(rc.val.type_id, f64_type_id);
            assert!(same_value(
                rc.val.const_val.as_ref().unwrap(),
                &float_value(expected_val)
            ));
        }
    }
}

#[test]
fn core_namespaces_declare_bits_and_bytes() {
    let compiler = core_only_compiler();

    let expected_bits_bytes: &[(BuiltinTypeKind, i64, i64)] = &[
        (BuiltinTypeKind::I8, 8, 1),
        (BuiltinTypeKind::U8, 8, 1),
        (BuiltinTypeKind::I16, 16, 2),
        (BuiltinTypeKind::U16, 16, 2),
        (BuiltinTypeKind::F16, 16, 2),
        (BuiltinTypeKind::I32, 32, 4),
        (BuiltinTypeKind::U32, 32, 4),
        (BuiltinTypeKind::F32, 32, 4),
        (BuiltinTypeKind::I64, 64, 8),
        (BuiltinTypeKind::U64, 64, 8),
        (BuiltinTypeKind::F64, 64, 8),
    ];

    let i64_type_id: TypeId = builtin_ty_to_id(BuiltinTypeKind::I64);

    for &(kind, expected_bits, expected_bytes) in expected_bits_bytes {
        let scope_id = loaded_ns_scope(&compiler, kind);

        let bits_rc = registered_constant(&compiler, scope_id, intern::INTERNED_BITS_UPPER);
        assert_eq!(bits_rc.val.type_id, i64_type_id);
        assert!(same_value(
            bits_rc.val.const_val.as_ref().unwrap(),
            &Value::I64(expected_bits)
        ));

        let bytes_rc = registered_constant(&compiler, scope_id, intern::INTERNED_BYTES_UPPER);
        assert_eq!(bytes_rc.val.type_id, i64_type_id);
        assert!(same_value(
            bytes_rc.val.const_val.as_ref().unwrap(),
            &Value::I64(expected_bytes)
        ));
    }
}

#[test]
fn core_namespaces_declare_radix() {
    let compiler = core_only_compiler();
    let i64_type_id: TypeId = builtin_ty_to_id(BuiltinTypeKind::I64);

    for (_, builtin_ty, ns) in &core_builtin_types_dataset() {
        if ns.is_empty() {
            continue;
        }
        let type_id: TypeId = builtin_ty_to_id(builtin_ty.kind());
        let scope_id = builtin_ns_scope(&compiler, type_id, ns).unwrap();
        let radix_rc = registered_constant(&compiler, scope_id, intern::INTERNED_RADIX);
        assert_eq!(radix_rc.val.type_id, i64_type_id);
        assert!(same_value(radix_rc.val.const_val.as_ref().unwrap(), &Value::I64(2)));
    }
}

#[test]
fn core_namespaces_f32_and_f64_declare_float_attributes() {
    let compiler = core_only_compiler();
    let i64_type_id: TypeId = builtin_ty_to_id(BuiltinTypeKind::I64);
    let f64_type_id: TypeId = builtin_ty_to_id(BuiltinTypeKind::F64);

    let check = |scope: ScopeId, name_id: u32, type_id: TypeId, expected: Value| {
        let rc = registered_constant(&compiler, scope, name_id);
        assert_eq!(rc.val.type_id, type_id);
        assert!(same_value(rc.val.const_val.as_ref().unwrap(), &expected));
    };

    let f16_scope = loaded_ns_scope(&compiler, BuiltinTypeKind::F16);
    check(f16_scope, intern::INTERNED_DIGITS, i64_type_id, Value::I64(3));
    check(f16_scope, intern::INTERNED_MANTISSA_DIGITS, i64_type_id, Value::I64(11));
    check(f16_scope, intern::INTERNED_EPSILON, f64_type_id, float_value(0.0009765625));
    check(f16_scope, intern::INTERNED_INFINITY, f64_type_id, float_value(f64::INFINITY));
    check(f16_scope, intern::INTERNED_NEG_INFINITY, f64_type_id, float_value(f64::NEG_INFINITY));
    check(f16_scope, intern::INTERNED_NAN, f64_type_id, float_value(f64::NAN));
    check(f16_scope, intern::INTERNED_MIN_POSITIVE, f64_type_id, float_value(0.00006103515625));

    let f32_scope = loaded_ns_scope(&compiler, BuiltinTypeKind::F32);
    check(f32_scope, intern::INTERNED_DIGITS, i64_type_id, Value::I64(std::f32::DIGITS as i64));
    check(
        f32_scope,
        intern::INTERNED_MANTISSA_DIGITS,
        i64_type_id,
        Value::I64(std::f32::MANTISSA_DIGITS as i64),
    );
    check(f32_scope, intern::INTERNED_EPSILON, f64_type_id, float_value(std::f32::EPSILON as f64));
    check(f32_scope, intern::INTERNED_INFINITY, f64_type_id, float_value(f32::INFINITY as f64));
    check(
        f32_scope,
        intern::INTERNED_NEG_INFINITY,
        f64_type_id,
        float_value(f32::NEG_INFINITY as f64),
    );
    check(f32_scope, intern::INTERNED_NAN, f64_type_id, float_value(f32::NAN as f64));
    check(
        f32_scope,
        intern::INTERNED_MIN_POSITIVE,
        f64_type_id,
        float_value(f32::MIN_POSITIVE as f64),
    );

    let f64_scope = loaded_ns_scope(&compiler, BuiltinTypeKind::F64);
    check(f64_scope, intern::INTERNED_DIGITS, i64_type_id, Value::I64(std::f64::DIGITS as i64));
    check(
        f64_scope,
        intern::INTERNED_MANTISSA_DIGITS,
        i64_type_id,
        Value::I64(std::f64::MANTISSA_DIGITS as i64),
    );
    check(f64_scope, intern::INTERNED_EPSILON, f64_type_id, float_value(std::f64::EPSILON));
    check(f64_scope, intern::INTERNED_INFINITY, f64_type_id, float_value(f64::INFINITY));
    check(f64_scope, intern::INTERNED_NEG_INFINITY, f64_type_id, float_value(f64::NEG_INFINITY));
    check(f64_scope, intern::INTERNED_NAN, f64_type_id, float_value(f64::NAN));
    check(f64_scope, intern::INTERNED_MIN_POSITIVE, f64_type_id, float_value(f64::MIN_POSITIVE));
}
