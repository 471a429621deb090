//! Registering an expression that names a symbol, such as `x` in `let y = x + 2`, once the name
//! was looked up: the reference is checked for dependency cycles and, when the symbol has no type
//! yet, left waiting on it.
use vstd::prelude::*;
use crate::cycles::{depends_on, DependencyCycle};
use crate::hir::{ExprHir, ResolvedExpr, ResolvedExprMetadata, SymbolKind, Type, ValueInfo, VariableState};
use crate::ids::{AstId, ExprId, InternedId, SymbolId, TypeId, ValueId};
use crate::script_compiler::ScriptCompiler;
use crate::type_context::{ParentState, ParentStateBase, PendingExpr, PendingExprKind, StandingExprState, TypeContext};

verus! {

broadcast use vstd::std_specs::hash::group_hash_axioms;

/// Why a name could not be registered as an expression.
#[derive(Debug, PartialEq, Eq, Clone, Copy, Structural)]
pub enum ReferenceError {
    /// No symbol of that name is reachable.
    NotFound(InternedId),
    /// The symbol named depends on the symbol whose expression names it.
    Cycle(DependencyCycle),
    /// The symbol named is a type that cannot stand in an expression.
    TypeInExpression(SymbolId),
    /// The symbol named is a namespace.
    NamespaceInExpression(SymbolId),
}

/// `e` is the reference expression of type `type_id` to symbol `sym`, holding value `val_id`,
/// written at `ast_id`.
pub open spec fn is_reference_expr(e: ResolvedExpr, type_id: TypeId, sym: SymbolId, val_id: ValueId, ast_id: AstId) -> bool {
    &&& e.type_id == type_id
    &&& e.expr_hir == ExprHir::Var(sym)
    &&& e.val_id == val_id
    &&& e.meta == ResolvedExprMetadata::User(ast_id)
    &&& e.operands@ == Seq::<ExprId>::empty()
    &&& e.user == None::<ExprId>
}

/// How an expression of `parent` waits on a symbol: as the parent's, or standing on its own.
pub open spec fn spec_waiting_kind(parent: Option<SymbolId>) -> PendingExprKind {
    match parent {
        Some(id) => PendingExprKind::Parent(ParentStateBase { parent_sym_id: id, state: ParentState::Unresolved }),
        None => PendingExprKind::Standing(StandingExprState::Unresolved),
    }
}

/// An expression of a parent waits as that parent's, not yet resolved; one of no parent waits on
/// its own, not yet resolved.
pub proof fn lemma_waiting_kind(parent: Option<SymbolId>)
    ensures
        parent matches Some(p) ==> spec_waiting_kind(parent) == PendingExprKind::Parent(
            ParentStateBase { parent_sym_id: p, state: ParentState::Unresolved },
        ),
        parent is None ==> spec_waiting_kind(parent) == PendingExprKind::Standing(StandingExprState::Unresolved),
{
}

/// `new` is `old` with `pending_expr` stored as waiting on `sym`.
pub open spec fn pending_stored(old: &TypeContext, new: &TypeContext, sym: SymbolId, pending_expr: PendingExpr) -> bool {
    &&& new.needs_check == old.needs_check
    &&& new.sym_queue@.dom() == old.sym_queue@.dom().insert(sym)
    &&& forall|s: SymbolId| s != sym && #[trigger] old.sym_queue@.contains_key(s) ==> new.sym_queue@[s] == old.sym_queue@[s]
    &&& old.sym_queue@.contains_key(sym) ==> {
        &&& new.sym_queue@[sym].has_const_val == old.sym_queue@[sym].has_const_val
        &&& new.sym_queue@[sym].has_resolved_ty == old.sym_queue@[sym].has_resolved_ty
        &&& new.sym_queue@[sym].pending_exprs@ == old.sym_queue@[sym].pending_exprs@.push(pending_expr)
    }
    &&& !old.sym_queue@.contains_key(sym) ==> {
        &&& !new.sym_queue@[sym].has_const_val
        &&& !new.sym_queue@[sym].has_resolved_ty
        &&& new.sym_queue@[sym].pending_exprs@ == seq![pending_expr]
    }
}

/// A symbol a reference can name in `c`: its type exists and is no internal deferral, or it is a
/// variable whose value, when known, exists with its type; never an extern type or a directive.
pub open spec fn nameable(c: &ScriptCompiler, sym: SymbolId) -> bool {
    &&& sym < c.syms.len()
    &&& match c.syms@[sym as int].kind {
        SymbolKind::Type(type_id) => type_id < c.types.len() && !(c.types@[type_id as int].ty is Deferred),
        SymbolKind::Variable(var_id) => var_id < c.variables.len() && (c.variables@[var_id as int].state matches VariableState::Known(
            val_id,
        ) ==> val_id < c.values.len() && c.values@[val_id as int].type_id < c.types.len()),
        SymbolKind::Namespace => true,
        _ => false,
    }
}

/// A local symbol a reference can name in `c`: a variable whose value is known and exists.
pub open spec fn nameable_local(c: &ScriptCompiler, sym: SymbolId) -> bool {
    &&& sym < c.syms.len()
    &&& c.syms@[sym as int].kind matches SymbolKind::Variable(var_id)
    &&& var_id < c.variables.len()
    &&& c.variables@[var_id as int].state matches VariableState::Known(val_id)
    &&& val_id < c.values.len()
}

impl ScriptCompiler {
    /// Registers the name `name_id`, written at `ast_id` in an expression of `parent_sym_id` (none
    /// for an expression no symbol is assigned, such as an element of `[x, y]`), given what looking
    /// the name up found: `local_found` among the local scope's parameters, otherwise `found` in
    /// the module's scopes.
    ///
    /// A local parameter is a variable with a known value: the expression takes that value. A name
    /// found nowhere is `NotFound`. A symbol that already depends on the parent is a `Cycle`. A
    /// function or alias gives an expression of its type with a new value, not constant; any other
    /// type is `TypeInExpression`, a namespace `NamespaceInExpression`. A variable with a known
    /// value gives an expression of that value, left waiting on the variable while its type is
    /// unknown; a variable with only a reserved type slot gives a new value of that type, and the
    /// expression waits on the variable. On an error nothing changes.
    pub fn register_reference(
        &mut self,
        ty_ctx: &mut TypeContext,
        parent_sym_id: Option<SymbolId>,
        name_id: InternedId,
        local_found: Option<SymbolId>,
        found: Option<SymbolId>,
        ast_id: AstId,
    ) -> (res: Result<ExprId, ReferenceError>)
        requires
            old(self).exprs.len() < u32::MAX,
            old(self).values.len() < u32::MAX,
            local_found matches Some(local) ==> nameable_local(old(self), local),
            local_found is None && found is Some ==> nameable(old(self), found->0),
        ensures
            ({
                let c = old(self);
                let expr_id = c.exprs.len() as ExprId;
                let new_val = c.values.len() as ValueId;
                let waiting = PendingExpr { pending_id: expr_id, kind: spec_waiting_kind(parent_sym_id) };
                let unchanged = final(self).exprs@ == c.exprs@ && final(self).values@ == c.values@
                    && final(ty_ctx).sym_queue@ == old(ty_ctx).sym_queue@ && final(ty_ctx).needs_check == old(ty_ctx).needs_check;
                let pushed_expr = final(self).exprs.len() == c.exprs.len() + 1 && final(self).exprs@.take(c.exprs.len() as int)
                    == c.exprs@;
                let queue_same = final(ty_ctx).sym_queue@ == old(ty_ctx).sym_queue@ && final(ty_ctx).needs_check
                    == old(ty_ctx).needs_check;
                match local_found {
                    Some(local) => {
                        let val_id = c.variables@[c.syms@[local as int].kind->Variable_0 as int].state->Known_0;
                        &&& res == Ok::<ExprId, ReferenceError>(expr_id)
                        &&& pushed_expr
                        &&& is_reference_expr(final(self).exprs@[expr_id as int], c.values@[val_id as int].type_id, local, val_id, ast_id)
                        &&& final(self).values@ == c.values@
                        &&& queue_same
                    },
                    None => match found {
                        None => res == Err::<ExprId, ReferenceError>(ReferenceError::NotFound(name_id)) && unchanged,
                        Some(f) => if parent_sym_id is Some && depends_on(old(ty_ctx).sym_queue@, f, parent_sym_id->0) {
                            &&& res == Err::<ExprId, ReferenceError>(
                                ReferenceError::Cycle(DependencyCycle { parent_sym_id: parent_sym_id->0, found_sym_id: f }),
                            )
                            &&& unchanged
                        } else {
                            match c.syms@[f as int].kind {
                                SymbolKind::Type(type_id) => if c.types@[type_id as int].ty is Func || c.types@[type_id as int].ty is Alias {
                                    &&& res == Ok::<ExprId, ReferenceError>(expr_id)
                                    &&& pushed_expr
                                    &&& is_reference_expr(final(self).exprs@[expr_id as int], type_id, f, new_val, ast_id)
                                    &&& final(self).values@ == c.values@.push(ValueInfo { type_id, expr_id, const_val: None })
                                    &&& queue_same
                                } else {
                                    res == Err::<ExprId, ReferenceError>(ReferenceError::TypeInExpression(f)) && unchanged
                                },
                                SymbolKind::Variable(var_id) => match c.variables@[var_id as int].state {
                                    VariableState::Known(val_id) => {
                                        let type_id = c.values@[val_id as int].type_id;
                                        &&& res == Ok::<ExprId, ReferenceError>(expr_id)
                                        &&& pushed_expr
                                        &&& is_reference_expr(final(self).exprs@[expr_id as int], type_id, f, val_id, ast_id)
                                        &&& final(self).values@ == c.values@
                                        &&& c.types@[type_id as int].ty is Unknown ==> pending_stored(old(ty_ctx), final(ty_ctx), f, waiting)
                                        &&& !(c.types@[type_id as int].ty is Unknown) ==> queue_same
                                    },
                                    VariableState::ReservedTypeSlot(type_id) => {
                                        &&& res == Ok::<ExprId, ReferenceError>(expr_id)
                                        &&& pushed_expr
                                        &&& is_reference_expr(final(self).exprs@[expr_id as int], type_id, f, new_val, ast_id)
                                        &&& final(self).values@ == c.values@.push(ValueInfo { type_id, expr_id, const_val: None })
                                        &&& pending_stored(old(ty_ctx), final(ty_ctx), f, waiting)
                                    },
                                },
                                _ => res == Err::<ExprId, ReferenceError>(ReferenceError::NamespaceInExpression(f)) && unchanged,
                            }
                        },
                    },
                }
            }),
            final(self).types == old(self).types,
            final(self).syms == old(self).syms,
            final(self).variables == old(self).variables,
            final(self).scopes == old(self).scopes,
            final(self).mods == old(self).mods,
            final(self).directives == old(self).directives,
            final(self).intrinsic_registry == old(self).intrinsic_registry,
            final(self).resolver_state == old(self).resolver_state,
            final(self).bind == old(self).bind,
    {
        let expr_id = self.exprs.len() as ExprId;
        if let Some(local) = local_found {
            // Local symbols are parameters, inferred like variables and resolved on their own.
            let val_id = match self.syms[local as usize].kind {
                SymbolKind::Variable(var_id) => match self.variables[var_id as usize].state {
                    VariableState::Known(val_id) => val_id,
                    VariableState::ReservedTypeSlot(_) => vstd::pervasive::unreached(),
                },
                _ => vstd::pervasive::unreached(),
            };
            let type_id = self.values[val_id as usize].type_id;
            self.exprs.push(ResolvedExpr::new(type_id, ExprHir::Var(local), val_id, ResolvedExprMetadata::User(ast_id), Vec::new()));
            proof {
                assert(self.exprs@.take(old(self).exprs.len() as int) =~= old(self).exprs@);
            }
            return Ok(expr_id);
        }
        let found_sym_id = match found {
            Some(sym) => sym,
            None => {
                return Err(ReferenceError::NotFound(name_id));
            },
        };
        if let Some(parent) = parent_sym_id {
            // `let x = x` is caught here too: every symbol depends on itself.
            if let Err(cycle) = ty_ctx.check_cycle(parent, found_sym_id) {
                return Err(ReferenceError::Cycle(cycle));
            }
        }
        let waiting_kind = match parent_sym_id {
            Some(id) => PendingExprKind::Parent(ParentStateBase::new(id, ParentState::Unresolved)),
            None => PendingExprKind::Standing(StandingExprState::Unresolved),
        };
        let resolved_expr = match self.syms[found_sym_id as usize].kind {
            SymbolKind::Type(type_id) => match self.types[type_id as usize].ty {
                Type::Func(_) | Type::Alias(_) => {
                    let val_id = self.values.len() as ValueId;
                    self.values.push(ValueInfo::new(type_id, expr_id, None));
                    ResolvedExpr::new(type_id, ExprHir::Var(found_sym_id), val_id, ResolvedExprMetadata::User(ast_id), Vec::new())
                },
                Type::Deferred(_) => vstd::pervasive::unreached(),
                _ => {
                    return Err(ReferenceError::TypeInExpression(found_sym_id));
                },
            },
            SymbolKind::Variable(var_id) => match self.variables[var_id as usize].state {
                VariableState::Known(val_id) => {
                    let type_id = self.values[val_id as usize].type_id;
                    // A type still unknown means the expression waits on the variable.
                    if let Type::Unknown = self.types[type_id as usize].ty {
                        ty_ctx.store_pending_expr(found_sym_id, PendingExpr::new(expr_id, waiting_kind));
                    }
                    ResolvedExpr::new(type_id, ExprHir::Var(found_sym_id), val_id, ResolvedExprMetadata::User(ast_id), Vec::new())
                },
                VariableState::ReservedTypeSlot(reserved_ty_id) => {
                    // Only here is the waiting expression stored: `y = x + 2` goes up from `x` once
                    // `x` resolves.
                    ty_ctx.store_pending_expr(found_sym_id, PendingExpr::new(expr_id, waiting_kind));
                    let val_id = self.values.len() as ValueId;
                    self.values.push(ValueInfo::new(reserved_ty_id, expr_id, None));
                    ResolvedExpr::new(reserved_ty_id, ExprHir::Var(found_sym_id), val_id, ResolvedExprMetadata::User(ast_id), Vec::new())
                },
            },
            SymbolKind::Namespace => {
                return Err(ReferenceError::NamespaceInExpression(found_sym_id));
            },
            // Names never reach extern types or directives.
            _ => vstd::pervasive::unreached(),
        };
        self.exprs.push(resolved_expr);
        proof {
            assert(self.exprs@.take(old(self).exprs.len() as int) =~= old(self).exprs@);
        }
        Ok(expr_id)
    }
}

} // verus!
