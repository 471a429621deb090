use lib::compiler_consts::{CORE_BOOL, CORE_UNKNOWN};
use lib::cycles::DependencyCycle;
use lib::declarations::DeclHeader;
use lib::hir::{
    ExprHir, ResolvedExpr, ResolvedExprMetadata, Type, TypeInfo, Value, ValueInfo, VariableState,
};
use lib::hir::ArbitraryIntKind;
use lib::instantiation_symbols::InstiationValue;
use lib::module::{Module, ModuleState};
use lib::scopes::ScopeType;
use lib::script_compiler::ScriptCompiler;
use lib::type_context::{
    ParentState, ParentStateBase, PendingExpr, PendingExprKind, PendingSymbol, StandingExprState,
    TypeContext,
};
use lib::pending_resolution::PendingStep;
use lib::var_resolution::record_var_value;

/// Records that an expression of `dependent` waits on `sym`.
fn wait(ctx: &mut TypeContext, dependent: u32, sym: u32, expr_id: u32) {
    let kind = PendingExprKind::Parent(ParentStateBase::new(dependent, ParentState::Unresolved));
    ctx.store_pending_expr(sym, PendingExpr::new(expr_id, kind));
}

#[test]
fn direct_dependency_closes_a_cycle() {
    // let y = x + 2
    let mut ctx = TypeContext::new();
    wait(&mut ctx, 20, 10, 0);
    // Evaluating x's expression finds y, which depends on x
    assert_eq!(ctx.check_cycle(10, 20), Err(DependencyCycle { parent_sym_id: 10, found_sym_id: 20 }));
    // Evaluating y's expression finds x, which depends on nothing
    assert_eq!(ctx.check_cycle(20, 10), Ok(()));
}

#[test]
fn transitive_dependency_closes_a_cycle() {
    // let a = b, let b = c, let c = d
    let mut ctx = TypeContext::new();
    wait(&mut ctx, 1, 2, 0);
    wait(&mut ctx, 2, 3, 1);
    wait(&mut ctx, 3, 4, 2);
    assert!(ctx.check_cycle(4, 1).is_err());
    assert!(ctx.check_cycle(3, 1).is_err());
    assert_eq!(ctx.check_cycle(1, 4), Ok(()));
    assert_eq!(ctx.check_cycle(5, 1), Ok(()));
}

#[test]
fn self_reference_is_a_cycle() {
    let ctx = TypeContext::new();
    assert_eq!(ctx.check_cycle(7, 7), Err(DependencyCycle { parent_sym_id: 7, found_sym_id: 7 }));
}

#[test]
fn standing_expressions_are_no_dependency() {
    let mut ctx = TypeContext::new();
    ctx.store_pending_expr(10, PendingExpr::new(0, PendingExprKind::Standing(StandingExprState::Unresolved)));
    assert_eq!(ctx.check_cycle(10, 20), Ok(()));
}

#[test]
fn shared_dependencies_are_walked_once() {
    // a = b + c, b = d, c = d, d = e: a depends on e through both b and c
    let mut ctx = TypeContext::new();
    wait(&mut ctx, 1, 2, 0);
    wait(&mut ctx, 1, 3, 1);
    wait(&mut ctx, 2, 4, 2);
    wait(&mut ctx, 3, 4, 3);
    wait(&mut ctx, 4, 5, 4);
    assert!(ctx.check_cycle(5, 1).is_err());
    assert_eq!(ctx.check_cycle(6, 1), Ok(()));
    assert_eq!(ctx.check_cycle(1, 5), Ok(()));
}

/// A compiler with one module, a variable registered in it, and an expression of `type_id`
/// holding `const_val`; returns the variable's symbol and the expression.
fn with_var_expr(type_id: u32, const_val: Option<Value>) -> (ScriptCompiler, u32, u32, u32) {
    let main = Module::new(100, ModuleState::Loaded, 0, Vec::new());
    let mut compiler = ScriptCompiler::init(None, vec![main]);
    let var = compiler.register_var(DeclHeader { name_id: 500, is_priv: false }, 1, ScopeType::Var, 0);
    let val_id = compiler.values.len() as u32;
    let expr_id = compiler.exprs.len() as u32;
    compiler.values.push(ValueInfo::new(type_id, expr_id, const_val));
    compiler.exprs.push(ResolvedExpr::new(type_id, ExprHir::Val(val_id), val_id, ResolvedExprMetadata::Generated, Vec::new()));
    (compiler, var.sym_id, expr_id, val_id)
}

#[test]
fn resolved_variable_takes_its_expression_value() {
    let (mut compiler, var_sym, expr_id, val_id) = with_var_expr(CORE_BOOL, Some(Value::Bool(true)));
    let mut ctx = TypeContext::new();
    wait(&mut ctx, 30, var_sym, 0);
    record_var_value(&mut compiler, &mut ctx, var_sym, expr_id);

    assert_eq!(compiler.get_var(var_sym).state, VariableState::Known(val_id));
    let pending = &ctx.sym_queue[&var_sym];
    assert!(pending.has_resolved_ty);
    assert!(pending.has_const_val);
    assert_eq!(pending.pending_exprs.len(), 1);
    assert!(ctx.needs_check);
}

#[test]
fn unknown_expression_leaves_the_pending_variable_unresolved() {
    let (mut compiler, var_sym, expr_id, val_id) = with_var_expr(CORE_UNKNOWN, None);
    let mut ctx = TypeContext::new();
    wait(&mut ctx, 30, var_sym, 0);
    record_var_value(&mut compiler, &mut ctx, var_sym, expr_id);

    assert_eq!(compiler.get_var(var_sym).state, VariableState::Known(val_id));
    let pending = &ctx.sym_queue[&var_sym];
    assert!(!pending.has_resolved_ty);
    assert!(!pending.has_const_val);
    assert!(ctx.needs_check);
}

#[test]
fn variable_nothing_waits_on_needs_no_check() {
    let (mut compiler, var_sym, expr_id, val_id) = with_var_expr(CORE_BOOL, Some(Value::Bool(false)));
    let mut ctx = TypeContext::new();
    record_var_value(&mut compiler, &mut ctx, var_sym, expr_id);
    assert_eq!(compiler.get_var(var_sym).state, VariableState::Known(val_id));
    assert!(ctx.sym_queue.is_empty());
    assert!(!ctx.needs_check);
}

fn parent(dependent: u32, state: ParentState) -> PendingExprKind {
    PendingExprKind::Parent(ParentStateBase::new(dependent, state))
}

#[test]
fn settled_expressions_are_not_tried_again() {
    let exprs = vec![
        PendingExpr::new(10, parent(1, ParentState::Unresolved)),
        PendingExpr::new(11, parent(1, ParentState::Notified { has_resolved_ty: true, has_const_val: true })),
        PendingExpr::new(12, parent(1, ParentState::Resolved { has_resolved_ty: true, has_const_val: true })),
        PendingExpr::new(13, parent(1, ParentState::Error)),
        PendingExpr::new(14, PendingExprKind::Standing(StandingExprState::Resolved { has_resolved_ty: true, has_const_val: true })),
        PendingExpr::new(15, PendingExprKind::Standing(StandingExprState::Resolved { has_resolved_ty: true, has_const_val: false })),
        PendingExpr::new(16, PendingExprKind::Standing(StandingExprState::Error)),
        PendingExpr::new(17, parent(1, ParentState::Notified { has_resolved_ty: true, has_const_val: false })),
    ];
    let pending = PendingSymbol::new(exprs);
    assert_eq!(pending.unsettled_exprs(), vec![(0, 10), (2, 12), (5, 15), (7, 17)]);
}

#[test]
fn parents_learn_a_type_then_a_constant() {
    let mut kind = parent(3, ParentState::Unresolved);
    // Nothing is recorded for a parent without a resolved type
    kind.record_progress(false, false);
    assert_eq!(kind, parent(3, ParentState::Unresolved));
    kind.record_progress(true, false);
    assert_eq!(kind, parent(3, ParentState::Resolved { has_resolved_ty: true, has_const_val: false }));
    // Recording the same again changes nothing
    kind.record_progress(true, false);
    assert_eq!(kind, parent(3, ParentState::Resolved { has_resolved_ty: true, has_const_val: false }));
    kind.record_progress(true, true);
    assert_eq!(kind, parent(3, ParentState::Resolved { has_resolved_ty: true, has_const_val: true }));

    // A notified parent only learns a constant it did not have
    let mut notified = parent(4, ParentState::Notified { has_resolved_ty: true, has_const_val: false });
    notified.record_progress(true, true);
    assert_eq!(notified, parent(4, ParentState::Resolved { has_resolved_ty: true, has_const_val: true }));

    let mut failed = parent(5, ParentState::Error);
    failed.record_progress(true, true);
    assert_eq!(failed, parent(5, ParentState::Error));
}

#[test]
fn standing_expressions_learn_without_a_type() {
    let mut kind = PendingExprKind::Standing(StandingExprState::Unresolved);
    kind.record_progress(false, false);
    assert_eq!(kind, PendingExprKind::Standing(StandingExprState::Resolved { has_resolved_ty: false, has_const_val: false }));
    kind.record_progress(true, false);
    assert_eq!(kind, PendingExprKind::Standing(StandingExprState::Resolved { has_resolved_ty: false, has_const_val: false }));
    kind.record_progress(true, true);
    assert_eq!(kind, PendingExprKind::Standing(StandingExprState::Resolved { has_resolved_ty: true, has_const_val: true }));
    let mut failed = PendingExprKind::Standing(StandingExprState::Error);
    failed.record_progress(true, true);
    assert_eq!(failed, PendingExprKind::Standing(StandingExprState::Error));
}

/// Adds an expression of a fresh unknown type waiting for a value; returns it, its type and value.
fn push_root(compiler: &mut ScriptCompiler) -> (u32, u32, u32) {
    let type_id = compiler.types.len() as u32;
    let val_id = compiler.values.len() as u32;
    let expr_id = compiler.exprs.len() as u32;
    compiler.types.push(TypeInfo::new(Type::Unknown, 0));
    compiler.values.push(ValueInfo::new(type_id, expr_id, None));
    compiler.exprs.push(ResolvedExpr::new(type_id, ExprHir::Val(val_id), val_id, ResolvedExprMetadata::Generated, Vec::new()));
    (expr_id, type_id, val_id)
}

#[test]
fn root_takes_the_resolved_variable_type_and_constant() {
    let (mut compiler, var_sym, expr_id, _) = with_var_expr(CORE_BOOL, Some(Value::Bool(true)));
    let mut ctx = TypeContext::new();
    record_var_value(&mut compiler, &mut ctx, var_sym, expr_id);
    let (root, root_type, root_val) = push_root(&mut compiler);

    assert!(compiler.repair_root(var_sym, true, true, root));
    assert_eq!(compiler.types[root_type as usize].ty, Type::Deferred(CORE_BOOL));
    assert_eq!(compiler.types[root_type as usize].owner, 0);
    assert_eq!(compiler.values[root_val as usize].const_val, Some(Value::Bool(true)));
    assert_eq!(compiler.values[root_val as usize].type_id, root_type);
}

#[test]
fn root_keeps_what_the_variable_lacks() {
    let (mut compiler, var_sym, expr_id, _) = with_var_expr(CORE_BOOL, Some(Value::Bool(true)));
    let mut ctx = TypeContext::new();
    record_var_value(&mut compiler, &mut ctx, var_sym, expr_id);
    let (root, root_type, root_val) = push_root(&mut compiler);

    assert!(compiler.repair_root(var_sym, false, false, root));
    assert_eq!(compiler.types[root_type as usize].ty, Type::Unknown);
    assert_eq!(compiler.values[root_val as usize].const_val, None);
}

#[test]
fn root_waits_while_the_variable_has_no_value() {
    let (mut compiler, var_sym, _, _) = with_var_expr(CORE_BOOL, Some(Value::Bool(true)));
    let (root, root_type, root_val) = push_root(&mut compiler);
    assert!(!compiler.repair_root(var_sym, true, true, root));
    assert_eq!(compiler.types[root_type as usize].ty, Type::Unknown);
    assert_eq!(compiler.values[root_val as usize].const_val, None);
}

#[test]
fn instantiation_values_convert_to_their_values() {
    assert_eq!(InstiationValue::I64(127).to_val(), Value::I64(127));
    assert_eq!(InstiationValue::F64(3.140625f64.to_bits()).to_val(), Value::F64(3.140625f64.to_bits()));
    assert_eq!(InstiationValue::U64(7).to_val(), Value::ArbitraryInt(ArbitraryIntKind::U64(7)));
    assert_eq!(InstiationValue::Bool(true).to_val(), Value::Bool(true));
    assert_eq!(InstiationValue::Char('x').to_val(), Value::Char('x'));
    assert_eq!(InstiationValue::Str(9).to_val(), Value::InternedStr(9));
}

#[test]
fn resolved_parents_are_notified_once() {
    // `a = b + 1` resolved its walk from `b`; `c = a` waits on `a`
    let mut ctx = TypeContext::new();
    let resolved = ParentState::Resolved { has_resolved_ty: true, has_const_val: true };
    ctx.store_pending_expr(2, PendingExpr::new(10, parent(1, resolved)));
    wait(&mut ctx, 3, 1, 11);
    assert!(!ctx.sym_queue[&1].has_resolved_ty);

    assert_eq!(ctx.notify_resolved_parents(), 1);
    assert_eq!(
        ctx.sym_queue[&2].pending_exprs[0],
        PendingExpr::new(10, parent(1, ParentState::Notified { has_resolved_ty: true, has_const_val: true }))
    );
    assert!(ctx.sym_queue[&1].has_resolved_ty);
    assert!(ctx.sym_queue[&1].has_const_val);
    // `a`'s own waiting expression is untouched
    assert_eq!(ctx.sym_queue[&1].pending_exprs[0], PendingExpr::new(11, parent(3, ParentState::Unresolved)));

    // A second round finds nothing new
    assert_eq!(ctx.notify_resolved_parents(), 0);
}

#[test]
fn parents_that_are_not_pending_are_not_notified() {
    let mut ctx = TypeContext::new();
    let resolved = ParentState::Resolved { has_resolved_ty: true, has_const_val: false };
    ctx.store_pending_expr(2, PendingExpr::new(10, parent(7, resolved)));
    assert_eq!(ctx.notify_resolved_parents(), 0);
    assert_eq!(ctx.sym_queue[&2].pending_exprs[0], PendingExpr::new(10, parent(7, resolved)));
}

#[test]
fn every_resolved_expression_of_a_round_is_counted() {
    let mut ctx = TypeContext::new();
    let resolved = ParentState::Resolved { has_resolved_ty: true, has_const_val: false };
    wait(&mut ctx, 5, 1, 0);
    ctx.store_pending_expr(2, PendingExpr::new(10, parent(1, resolved)));
    ctx.store_pending_expr(3, PendingExpr::new(11, parent(1, resolved)));
    ctx.store_pending_expr(3, PendingExpr::new(12, PendingExprKind::Standing(StandingExprState::Unresolved)));
    assert_eq!(ctx.notify_resolved_parents(), 2);
    assert!(ctx.sym_queue[&1].has_resolved_ty);
    assert!(!ctx.sym_queue[&1].has_const_val);
    assert_eq!(
        ctx.sym_queue[&3].pending_exprs[1],
        PendingExpr::new(12, PendingExprKind::Standing(StandingExprState::Unresolved))
    );
}

#[test]
fn a_round_with_news_asks_for_another() {
    let mut ctx = TypeContext::new();
    let resolved = ParentState::Resolved { has_resolved_ty: true, has_const_val: true };
    ctx.store_pending_expr(2, PendingExpr::new(10, parent(1, resolved)));
    wait(&mut ctx, 3, 1, 11);
    ctx.store_pending_expr(4, PendingExpr::new(12, PendingExprKind::Standing(StandingExprState::Error)));

    assert!(ctx.finish_resolution_round(&vec![4]));
    assert!(ctx.needs_check);
    assert!(!ctx.sym_queue.contains_key(&4));
    assert!(ctx.sym_queue[&1].has_resolved_ty);

    // The next round has nothing new and ends resolution
    assert!(!ctx.finish_resolution_round(&Vec::new()));
    assert!(!ctx.needs_check);
    assert_eq!(ctx.sym_queue.len(), 2);
}

/// A pending symbol for a resolved variable, with one parent expression rooted at `root`.
fn pending_on_root(root: u32) -> PendingSymbol {
    let mut pending = PendingSymbol::new(vec![PendingExpr::new(root, parent(30, ParentState::Unresolved))]);
    pending.has_resolved_ty = true;
    pending.has_const_val = true;
    pending
}

#[test]
fn a_root_without_user_finishes_the_symbol() {
    let (mut compiler, var_sym, expr_id, _) = with_var_expr(CORE_BOOL, Some(Value::Bool(true)));
    let mut ctx = TypeContext::new();
    record_var_value(&mut compiler, &mut ctx, var_sym, expr_id);
    let (root, root_type, _) = push_root(&mut compiler);
    let mut pending = pending_on_root(root);
    let queue = pending.unsettled_exprs();
    assert_eq!(queue, vec![(0, root)]);

    assert_eq!(compiler.resume_pending(var_sym, &mut pending, &queue, 0), PendingStep::Done { can_remove: false });
    assert_eq!(pending.pending_exprs[0].kind, parent(30, ParentState::Resolved { has_resolved_ty: true, has_const_val: true }));
    assert_eq!(compiler.types[root_type as usize].ty, Type::Deferred(CORE_BOOL));
}

#[test]
fn a_root_with_a_user_asks_for_a_walk() {
    let (mut compiler, var_sym, expr_id, _) = with_var_expr(CORE_BOOL, Some(Value::Bool(true)));
    let mut ctx = TypeContext::new();
    record_var_value(&mut compiler, &mut ctx, var_sym, expr_id);
    let (root, _, _) = push_root(&mut compiler);
    compiler.exprs[root as usize].user = Some(77);
    let mut pending = pending_on_root(root);
    let queue = pending.unsettled_exprs();

    assert_eq!(
        compiler.resume_pending(var_sym, &mut pending, &queue, 0),
        PendingStep::Traverse { index: 0, user: 77, next: 1 }
    );
    assert_eq!(pending.pending_exprs[0].kind, parent(30, ParentState::Unresolved));
    // After the walk, the queue is exhausted
    assert_eq!(compiler.resume_pending(var_sym, &mut pending, &queue, 1), PendingStep::Done { can_remove: false });
}

#[test]
fn nothing_resumes_before_the_variable_has_a_value() {
    let (mut compiler, var_sym, _, _) = with_var_expr(CORE_BOOL, Some(Value::Bool(true)));
    let (root, root_type, _) = push_root(&mut compiler);
    let mut pending = pending_on_root(root);
    let queue = pending.unsettled_exprs();
    assert_eq!(compiler.resume_pending(var_sym, &mut pending, &queue, 0), PendingStep::Done { can_remove: false });
    assert_eq!(pending.pending_exprs[0].kind, parent(30, ParentState::Unresolved));
    assert_eq!(compiler.types[root_type as usize].ty, Type::Unknown);
}

#[test]
fn a_symbol_with_nothing_unsettled_can_be_dropped() {
    let (mut compiler, var_sym, _, _) = with_var_expr(CORE_BOOL, None);
    let mut pending = PendingSymbol::new(vec![PendingExpr::new(0, PendingExprKind::Standing(StandingExprState::Error))]);
    let queue = pending.unsettled_exprs();
    assert!(queue.is_empty());
    assert_eq!(compiler.resume_pending(var_sym, &mut pending, &queue, 0), PendingStep::Done { can_remove: true });
}

#[test]
fn a_round_tries_the_symbols_with_a_resolved_type() {
    let mut ctx = TypeContext::new();
    wait(&mut ctx, 9, 1, 0);
    wait(&mut ctx, 9, 2, 1);
    wait(&mut ctx, 9, 3, 2);
    ctx.sym_queue.get_mut(&1).unwrap().has_resolved_ty = true;
    ctx.sym_queue.get_mut(&3).unwrap().has_resolved_ty = true;
    ctx.needs_check = true;
    let mut ready = ctx.begin_resolution_round();
    ready.sort();
    assert_eq!(ready, vec![1, 3]);
    assert!(!ctx.needs_check);
    assert_eq!(ctx.sym_queue.len(), 3);
}
