use lib::compiler_consts::CORE_BOOL;
use lib::cycles::DependencyCycle;
use lib::declarations::DeclHeader;
use lib::hir::{
    ExprHir, ResolvedExpr, ResolvedExprMetadata, SymbolKind, Type, Value, ValueInfo, VariableState,
};
use lib::module::{Module, ModuleState};
use lib::references::ReferenceError;
use lib::scopes::ScopeType;
use lib::script_compiler::ScriptCompiler;
use lib::type_context::{
    ParentState, ParentStateBase, PendingExpr, PendingExprKind, StandingExprState, TypeContext,
};
use lib::var_resolution::record_var_value;

fn compiler_with_var() -> (ScriptCompiler, u32) {
    let main = Module::new(100, ModuleState::Loaded, 0, Vec::new());
    let mut compiler = ScriptCompiler::init(None, vec![main]);
    let var = compiler.register_var(DeclHeader { name_id: 500, is_priv: false }, 1, ScopeType::Var, 0);
    (compiler, var.sym_id)
}

fn waiting_on(parent: u32) -> PendingExprKind {
    PendingExprKind::Parent(ParentStateBase::new(parent, ParentState::Unresolved))
}

/// Gives variable `var` the known boolean value `true`; returns its value id.
fn make_known(compiler: &mut ScriptCompiler, var: u32) -> u32 {
    let val_id = compiler.values.len() as u32;
    let expr_id = compiler.exprs.len() as u32;
    compiler.values.push(ValueInfo::new(CORE_BOOL, expr_id, Some(Value::Bool(true))));
    compiler.exprs.push(ResolvedExpr::new(CORE_BOOL, ExprHir::Val(val_id), val_id, ResolvedExprMetadata::Generated, Vec::new()));
    let mut ctx = TypeContext::new();
    record_var_value(compiler, &mut ctx, var, expr_id);
    val_id
}

#[test]
fn reference_to_an_unresolved_variable_waits_on_it() {
    let (mut compiler, var) = compiler_with_var();
    let reserved = match compiler.get_var(var).state {
        VariableState::ReservedTypeSlot(t) => t,
        other => panic!("expected a reserved slot, found {:?}", other),
    };
    let mut ctx = TypeContext::new();
    let expr_id = compiler.exprs.len() as u32;
    let val_id = compiler.values.len() as u32;

    assert_eq!(compiler.register_reference(&mut ctx, Some(99), 500, None, Some(var), 7), Ok(expr_id));
    let expr = &compiler.exprs[expr_id as usize];
    assert_eq!(expr.expr_hir, ExprHir::Var(var));
    assert_eq!(expr.type_id, reserved);
    assert_eq!(expr.val_id, val_id);
    assert_eq!(expr.meta, ResolvedExprMetadata::User(7));
    assert_eq!(compiler.values[val_id as usize].type_id, reserved);
    assert_eq!(compiler.values[val_id as usize].const_val, None);
    assert_eq!(ctx.sym_queue[&var].pending_exprs, vec![PendingExpr::new(expr_id, waiting_on(99))]);
}

#[test]
fn reference_without_parent_stands_on_its_own() {
    let (mut compiler, var) = compiler_with_var();
    let mut ctx = TypeContext::new();
    let expr_id = compiler.register_reference(&mut ctx, None, 500, None, Some(var), 7).unwrap();
    assert_eq!(
        ctx.sym_queue[&var].pending_exprs,
        vec![PendingExpr::new(expr_id, PendingExprKind::Standing(StandingExprState::Unresolved))]
    );
}

#[test]
fn reference_to_a_known_variable_takes_its_value() {
    let (mut compiler, var) = compiler_with_var();
    let val_id = make_known(&mut compiler, var);
    let mut ctx = TypeContext::new();
    let values = compiler.values.len();
    let expr_id = compiler.register_reference(&mut ctx, Some(99), 500, None, Some(var), 7).unwrap();
    assert_eq!(compiler.exprs[expr_id as usize].val_id, val_id);
    assert_eq!(compiler.exprs[expr_id as usize].type_id, CORE_BOOL);
    assert_eq!(compiler.values.len(), values);
    assert!(ctx.sym_queue.is_empty());
}

#[test]
fn local_parameters_are_found_first() {
    let (mut compiler, var) = compiler_with_var();
    let val_id = make_known(&mut compiler, var);
    let mut ctx = TypeContext::new();
    let expr_id = compiler.register_reference(&mut ctx, Some(99), 500, Some(var), None, 7).unwrap();
    assert_eq!(compiler.exprs[expr_id as usize].expr_hir, ExprHir::Var(var));
    assert_eq!(compiler.exprs[expr_id as usize].val_id, val_id);
    assert!(ctx.sym_queue.is_empty());
}

#[test]
fn references_that_close_a_cycle_are_refused() {
    let (mut compiler, var) = compiler_with_var();
    let exprs = compiler.exprs.len();
    let mut ctx = TypeContext::new();
    // `var` waits on symbol 10
    ctx.store_pending_expr(10, PendingExpr::new(0, waiting_on(var)));
    assert_eq!(
        compiler.register_reference(&mut ctx, Some(10), 500, None, Some(var), 7),
        Err(ReferenceError::Cycle(DependencyCycle { parent_sym_id: 10, found_sym_id: var }))
    );
    // `let x = x`
    assert_eq!(
        compiler.register_reference(&mut ctx, Some(var), 500, None, Some(var), 7),
        Err(ReferenceError::Cycle(DependencyCycle { parent_sym_id: var, found_sym_id: var }))
    );
    assert_eq!(compiler.exprs.len(), exprs);
    assert_eq!(ctx.sym_queue.len(), 1);
}

#[test]
fn names_that_are_no_values_are_refused() {
    let (mut compiler, _) = compiler_with_var();
    let mut ctx = TypeContext::new();
    assert_eq!(compiler.register_reference(&mut ctx, None, 321, None, None, 7), Err(ReferenceError::NotFound(321)));

    let namespace = compiler.syms.iter().position(|s| s.kind == SymbolKind::Namespace).unwrap() as u32;
    assert_eq!(
        compiler.register_reference(&mut ctx, None, 1, None, Some(namespace), 7),
        Err(ReferenceError::NamespaceInExpression(namespace))
    );

    let strukt = compiler.register_struct(DeclHeader { name_id: 600, is_priv: false }, 2, ScopeType::Var, 0).sym_id;
    let exprs = compiler.exprs.len();
    assert_eq!(
        compiler.register_reference(&mut ctx, None, 600, None, Some(strukt), 7),
        Err(ReferenceError::TypeInExpression(strukt))
    );
    assert_eq!(compiler.exprs.len(), exprs);
}

#[test]
fn functions_can_be_named_in_expressions() {
    let (mut compiler, _) = compiler_with_var();
    let func = compiler
        .syms
        .iter()
        .position(|s| match s.kind {
            SymbolKind::Type(t) => matches!(compiler.types[t as usize].ty, Type::Func(_)),
            _ => false,
        })
        .unwrap() as u32;
    let type_id = match compiler.syms[func as usize].kind {
        SymbolKind::Type(t) => t,
        _ => unreachable!(),
    };
    let mut ctx = TypeContext::new();
    let val_id = compiler.values.len() as u32;
    let expr_id = compiler.register_reference(&mut ctx, None, 1, None, Some(func), 7).unwrap();
    assert_eq!(compiler.exprs[expr_id as usize].type_id, type_id);
    assert_eq!(compiler.values[val_id as usize], ValueInfo::new(type_id, expr_id, None));
}
