//! Bookkeeping of type resolution: symbols that expressions wait on, and what those expressions
//! are waiting for.
//!
//! For `let y = x + 2`, `x` is stored as a pending symbol with the expression of `x` inside that
//! addition. When `let x = 2` resolves, the pending expressions of `x` say where to resume:
//! resolution walks up from them until no user is left.
use vstd::prelude::*;
use std::collections::HashMap;
use crate::ids::{ExprId, SymbolId};

verus! {

broadcast use vstd::std_specs::hash::group_hash_axioms;

/// Expression that is pending but has no parent ties to update, such as an element of
/// `[x, y, z]`: it cannot be part of a cycle, and only waits for resolution.
#[derive(Debug, PartialEq, Eq, Clone, Copy, Structural)]
pub enum StandingExprState {
    Unresolved,
    Resolved { has_resolved_ty: bool, has_const_val: bool },
    Error,
}

/// State of a parent expression, which guides resolution and which its children change.
#[derive(Debug, PartialEq, Eq, Clone, Copy, Structural)]
pub enum ParentState {
    /// The parent has no resolved type and no value.
    Unresolved,
    Resolved { has_resolved_ty: bool, has_const_val: bool },
    Notified { has_resolved_ty: bool, has_const_val: bool },
    Error,
}

/// A parent symbol and its state.
#[derive(Debug, PartialEq, Eq, Clone, Copy, Structural)]
pub struct ParentStateBase {
    pub parent_sym_id: SymbolId,
    pub state: ParentState,
}

impl ParentStateBase {
    pub fn new(parent_sym_id: SymbolId, state: ParentState) -> (res: Self)
        ensures
            res == (ParentStateBase { parent_sym_id, state }),
    {
        Self { parent_sym_id, state }
    }
}

/// How a pending expression is handled once what it waits on resolves.
#[derive(Debug, PartialEq, Eq, Clone, Copy, Structural)]
pub enum PendingExprKind {
    Parent(ParentStateBase),
    Standing(StandingExprState),
}

/// An expression that other expressions wait on until it resolves.
#[derive(Debug, PartialEq, Eq, Clone, Copy, Structural)]
pub struct PendingExpr {
    pub pending_id: ExprId,
    pub kind: PendingExprKind,
}

impl PendingExpr {
    pub fn new(pending_id: ExprId, kind: PendingExprKind) -> (res: PendingExpr)
        ensures
            res == (PendingExpr { pending_id, kind }),
    {
        PendingExpr { pending_id, kind }
    }
}

/// A symbol that has users but is not resolved yet, with the expressions waiting on it.
#[derive(Debug)]
pub struct PendingSymbol {
    pub has_const_val: bool,
    pub has_resolved_ty: bool,
    /// The expressions waiting on the symbol, in the order they were stored.
    pub pending_exprs: Vec<PendingExpr>,
}

impl PendingSymbol {
    /// A symbol with neither a type nor a value yet.
    pub fn new(pending_exprs: Vec<PendingExpr>) -> (res: PendingSymbol)
        ensures
            !res.has_const_val,
            !res.has_resolved_ty,
            res.pending_exprs@ == pending_exprs@,
    {
        PendingSymbol { has_const_val: false, has_resolved_ty: false, pending_exprs }
    }
}

/// A parent's data, carried together.
#[derive(Debug, PartialEq, Eq, Clone, Copy, Structural)]
pub struct ParentInfo {
    /// The parent's `SymbolId` that is stored as pending
    pub pending_sym_id: SymbolId,
    pub has_resolved_ty: bool,
    pub has_const_val: bool,
}

impl ParentInfo {
    pub fn new(pending_sym_id: SymbolId, has_resolved_ty: bool, has_const_val: bool) -> (res: ParentInfo)
        ensures
            res == (ParentInfo { pending_sym_id, has_resolved_ty, has_const_val }),
    {
        ParentInfo { pending_sym_id, has_resolved_ty, has_const_val }
    }
}

/// State of type resolution.
#[derive(Debug)]
pub struct TypeContext {
    /// Whether the context should be checked, to avoid unconditional checks where possible.
    pub needs_check: bool,
    /// Symbols that others depend on and that are not resolved yet. For `let y = x + 2`, `x` is
    /// stored here, with the expressions of `y` that wait on it.
    pub sym_queue: HashMap<SymbolId, PendingSymbol>,
}

impl TypeContext {
    /// A context with nothing pending and no check needed.
    pub fn new() -> (res: TypeContext)
        ensures
            !res.needs_check,
            res.sym_queue@ == Map::<SymbolId, PendingSymbol>::empty(),
    {
        TypeContext { needs_check: false, sym_queue: HashMap::new() }
    }

    /// Stores `pending_expr` as waiting on `sym_id`: appended to the expressions already waiting
    /// on it, or as the first one of a new pending symbol.
    pub fn store_pending_expr(&mut self, sym_id: SymbolId, pending_expr: PendingExpr)
        ensures
            final(self).needs_check == old(self).needs_check,
            final(self).sym_queue@.dom() == old(self).sym_queue@.dom().insert(sym_id),
            forall|s: SymbolId| s != sym_id && #[trigger] old(self).sym_queue@.contains_key(s)
                ==> final(self).sym_queue@[s] == old(self).sym_queue@[s],
            old(self).sym_queue@.contains_key(sym_id) ==> {
                let before = old(self).sym_queue@[sym_id];
                let after = final(self).sym_queue@[sym_id];
                &&& after.has_const_val == before.has_const_val
                &&& after.has_resolved_ty == before.has_resolved_ty
                &&& after.pending_exprs@ == before.pending_exprs@.push(pending_expr)
            },
            !old(self).sym_queue@.contains_key(sym_id) ==> {
                let after = final(self).sym_queue@[sym_id];
                &&& !after.has_const_val
                &&& !after.has_resolved_ty
                &&& after.pending_exprs@ == seq![pending_expr]
            },
    {
        match self.sym_queue.remove(&sym_id) {
            Some(mut pending_sym) => {
                pending_sym.pending_exprs.push(pending_expr);
                self.sym_queue.insert(sym_id, pending_sym);
            },
            None => {
                let pending_sym = PendingSymbol::new(vec![pending_expr]);
                self.sym_queue.insert(sym_id, pending_sym);
            },
        }
        proof {
            assert(self.sym_queue@.dom() =~= old(self).sym_queue@.dom().insert(sym_id));
        }
    }
}

} // verus!
