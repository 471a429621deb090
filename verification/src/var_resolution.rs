//! What resolving a variable records once its expression is registered.
use vstd::prelude::*;
use crate::hir::{SymbolKind, Type, VarDef, VariableState};
use crate::ids::{ExprId, SymbolId};
use crate::script_compiler::ScriptCompiler;
use crate::type_context::{PendingSymbol, TypeContext};
use crate::type_queries::{resolved_type, type_resolves};

verus! {

broadcast use vstd::std_specs::hash::group_hash_axioms;

/// Once expression `expr_id` of the variable `var_sym_id` is registered, the variable takes the
/// expression's value. When expressions wait on the variable, its pending entry records whether
/// the expression's type is resolved (not `Unknown`) and whether its value is constant, and the
/// context is marked for a check so that those expressions are tried again.
pub fn record_var_value(compiler: &mut ScriptCompiler, ty_ctx: &mut TypeContext, var_sym_id: SymbolId, expr_id: ExprId)
    requires
        var_sym_id < old(compiler).syms.len(),
        old(compiler).syms@[var_sym_id as int].kind matches SymbolKind::Variable(var_id) && var_id < old(compiler).variables.len(),
        expr_id < old(compiler).exprs.len(),
        old(compiler).exprs@[expr_id as int].val_id < old(compiler).values.len(),
        type_resolves(old(compiler).types@, old(compiler).exprs@[expr_id as int].type_id as int),
    ensures
        ({
            let expr = old(compiler).exprs@[expr_id as int];
            let var_idx = old(compiler).syms@[var_sym_id as int].kind->Variable_0 as int;
            let var = old(compiler).variables@[var_idx];
            let has_resolved_ty = !(old(compiler).types@[resolved_type(old(compiler).types@, expr.type_id as int)].ty is Unknown);
            let has_const_val = old(compiler).values@[expr.val_id as int].const_val is Some;
            &&& final(compiler).variables@ == old(compiler).variables@.update(
                var_idx,
                VarDef { state: VariableState::Known(expr.val_id), ..var },
            )
            &&& old(ty_ctx).sym_queue@.contains_key(var_sym_id) ==> {
                &&& final(ty_ctx).needs_check
                &&& final(ty_ctx).sym_queue@.dom() == old(ty_ctx).sym_queue@.dom()
                &&& forall|s: SymbolId| s != var_sym_id && #[trigger] old(ty_ctx).sym_queue@.contains_key(s)
                    ==> final(ty_ctx).sym_queue@[s] == old(ty_ctx).sym_queue@[s]
                &&& final(ty_ctx).sym_queue@[var_sym_id].has_resolved_ty == has_resolved_ty
                &&& final(ty_ctx).sym_queue@[var_sym_id].has_const_val == has_const_val
                &&& final(ty_ctx).sym_queue@[var_sym_id].pending_exprs@ == old(ty_ctx).sym_queue@[var_sym_id].pending_exprs@
            }
            &&& !old(ty_ctx).sym_queue@.contains_key(var_sym_id) ==> {
                &&& final(ty_ctx).needs_check == old(ty_ctx).needs_check
                &&& final(ty_ctx).sym_queue@ == old(ty_ctx).sym_queue@
            }
        }),
        final(compiler).types == old(compiler).types,
        final(compiler).syms == old(compiler).syms,
        final(compiler).exprs == old(compiler).exprs,
        final(compiler).values == old(compiler).values,
        final(compiler).scopes == old(compiler).scopes,
        final(compiler).mods == old(compiler).mods,
        final(compiler).directives == old(compiler).directives,
        final(compiler).intrinsic_registry == old(compiler).intrinsic_registry,
        final(compiler).resolver_state == old(compiler).resolver_state,
        final(compiler).bind == old(compiler).bind,
{
    let expr = &compiler.exprs[expr_id as usize];
    let val = &compiler.values[expr.val_id as usize];
    let has_resolved_ty = !compiler.check_unknown(expr.type_id);
    let has_const_val = val.const_val.is_some();

    // The variable's value is its top expression's, so resolving that expression further later
    // updates the variable too.
    let val_id = expr.val_id;
    let var = compiler.get_var_mut(var_sym_id);
    var.state = VariableState::Known(val_id);

    if let Some(pending_sym) = ty_ctx.sym_queue.remove(&var_sym_id) {
        let updated = PendingSymbol { has_resolved_ty, has_const_val, pending_exprs: pending_sym.pending_exprs };
        ty_ctx.sym_queue.insert(var_sym_id, updated);
        ty_ctx.needs_check = true;
        proof {
            assert(ty_ctx.sym_queue@.dom() =~= old(ty_ctx).sym_queue@.dom());
        }
    } else {
        proof {
            assert(ty_ctx.sym_queue@ =~= old(ty_ctx).sym_queue@);
        }
    }
}

} // verus!
