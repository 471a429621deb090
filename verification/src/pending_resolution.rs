//! Resuming the expressions that wait on a symbol once the symbol resolved: which of them are
//! still open, how the root expression takes the symbol's type and value, and how an expression
//! records what it learned.
use vstd::prelude::*;
use crate::hir::{SymbolKind, Type, TypeInfo, ValueInfo, VariableState};
use crate::ids::{ExprId, SymbolId};
use crate::script_compiler::ScriptCompiler;
use crate::type_context::{ParentState, ParentStateBase, PendingExpr, PendingExprKind, PendingSymbol, StandingExprState};

verus! {

/// A pending expression that nothing more can be learned for: a parent already notified of a
/// resolved type and a constant value, a standing expression resolved that far, or an error.
pub open spec fn is_settled(kind: PendingExprKind) -> bool {
    match kind {
        PendingExprKind::Parent(base) => match base.state {
            ParentState::Notified { has_resolved_ty, has_const_val } => has_resolved_ty && has_const_val,
            ParentState::Error => true,
            _ => false,
        },
        PendingExprKind::Standing(state) => match state {
            StandingExprState::Resolved { has_resolved_ty, has_const_val } => has_resolved_ty && has_const_val,
            StandingExprState::Error => true,
            _ => false,
        },
    }
}

/// The positions and expressions of the pending expressions in `exprs` that are not settled, in
/// order.
pub open spec fn spec_unsettled(exprs: Seq<PendingExpr>) -> Seq<(usize, ExprId)>
    decreases exprs.len(),
{
    if exprs.len() == 0 {
        Seq::empty()
    } else if is_settled(exprs.last().kind) {
        spec_unsettled(exprs.drop_last())
    } else {
        spec_unsettled(exprs.drop_last()).push(((exprs.len() - 1) as usize, exprs.last().pending_id))
    }
}

/// Whether learning that an expression has a resolved type (`has_resolved_ty`) and a constant
/// value (`has_const_val`) tells a pending expression in `kind` something new: an unresolved one
/// learns anything, a resolved or notified one only a constant value it did not have, an
/// erroneous one nothing.
pub open spec fn has_new_info(kind: PendingExprKind, has_const_val: bool) -> bool {
    match kind {
        PendingExprKind::Parent(base) => match base.state {
            ParentState::Unresolved => true,
            ParentState::Resolved { has_const_val: old_val, .. } => has_const_val && !old_val,
            ParentState::Notified { has_const_val: old_val, .. } => has_const_val && !old_val,
            ParentState::Error => false,
        },
        PendingExprKind::Standing(state) => match state {
            StandingExprState::Unresolved => true,
            StandingExprState::Resolved { has_const_val: old_val, .. } => has_const_val && !old_val,
            StandingExprState::Error => false,
        },
    }
}

/// `kind` once it learned `has_resolved_ty` and `has_const_val`: a parent with new information
/// and a resolved type becomes resolved, so that its own parent is updated next; a standing
/// expression with new information becomes resolved; anything else stays as it is.
pub open spec fn spec_progressed(kind: PendingExprKind, has_resolved_ty: bool, has_const_val: bool) -> PendingExprKind {
    match kind {
        PendingExprKind::Parent(base) => if has_new_info(kind, has_const_val) && has_resolved_ty {
            PendingExprKind::Parent(
                ParentStateBase { parent_sym_id: base.parent_sym_id, state: ParentState::Resolved { has_resolved_ty, has_const_val } },
            )
        } else {
            kind
        },
        PendingExprKind::Standing(_) => if has_new_info(kind, has_const_val) {
            PendingExprKind::Standing(StandingExprState::Resolved { has_resolved_ty, has_const_val })
        } else {
            kind
        },
    }
}

impl PendingSymbol {
    /// The positions and expressions of the pending expressions that are not settled yet, in
    /// order: those resolution tries again.
    pub fn unsettled_exprs(&self) -> (res: Vec<(usize, ExprId)>)
        ensures
            res@ == spec_unsettled(self.pending_exprs@),
    {
        let mut queue: Vec<(usize, ExprId)> = Vec::new();
        let mut i: usize = 0;
        while i < self.pending_exprs.len()
            invariant
                0 <= i <= self.pending_exprs.len(),
                queue@ == spec_unsettled(self.pending_exprs@.take(i as int)),
            decreases self.pending_exprs.len() - i,
        {
            let pending_expr = self.pending_exprs[i];
            let settled = match pending_expr.kind {
                PendingExprKind::Parent(parent_base) => match parent_base.state {
                    ParentState::Notified { has_resolved_ty, has_const_val } => has_resolved_ty && has_const_val,
                    ParentState::Error => true,
                    _ => false,
                },
                PendingExprKind::Standing(state) => match state {
                    StandingExprState::Resolved { has_resolved_ty, has_const_val } => has_resolved_ty && has_const_val,
                    StandingExprState::Error => true,
                    _ => false,
                },
            };
            proof {
                let next = self.pending_exprs@.take(i as int + 1);
                assert(next.drop_last() =~= self.pending_exprs@.take(i as int));
                assert(next.last() == pending_expr);
            }
            if !settled {
                queue.push((i, pending_expr.pending_id));
            }
            i = i + 1;
        }
        proof {
            assert(self.pending_exprs@.take(i as int) =~= self.pending_exprs@);
        }
        queue
    }
}

impl PendingExprKind {
    /// Records that the expression this pending expression tracks has a resolved type
    /// (`has_resolved_ty`) and a constant value (`has_const_val`), when that is new to it.
    pub fn record_progress(&mut self, has_resolved_ty: bool, has_const_val: bool)
        ensures
            *final(self) == spec_progressed(*old(self), has_resolved_ty, has_const_val),
            *old(self) matches PendingExprKind::Parent(base) ==> {
                &&& base.state is Error ==> *final(self) == *old(self)
                &&& base.state is Resolved && !(has_resolved_ty && has_const_val && !base.state->Resolved_has_const_val) ==> *final(self)
                    == *old(self)
                &&& base.state is Notified && !(has_resolved_ty && has_const_val && !base.state->Notified_has_const_val) ==> *final(self)
                    == *old(self)
                &&& *final(self) != *old(self) ==> *final(self) == PendingExprKind::Parent(
                    ParentStateBase {
                        parent_sym_id: base.parent_sym_id,
                        state: ParentState::Resolved { has_resolved_ty, has_const_val },
                    },
                )
            },
            *old(self) matches PendingExprKind::Standing(state) ==> {
                &&& state is Error ==> *final(self) == *old(self)
                &&& state is Resolved && !(has_const_val && !state->Resolved_has_const_val) ==> *final(self) == *old(self)
                &&& *final(self) != *old(self) ==> *final(self) == PendingExprKind::Standing(
                    StandingExprState::Resolved { has_resolved_ty, has_const_val },
                )
            },
    {
        match self {
            PendingExprKind::Parent(parent_base) => {
                let new_info = match parent_base.state {
                    ParentState::Unresolved => true,
                    // A resolved or notified parent has a type already: only a new constant counts.
                    ParentState::Resolved { has_const_val: old_val, .. }
                    | ParentState::Notified { has_const_val: old_val, .. } => has_const_val && !old_val,
                    ParentState::Error => false,
                };
                if new_info && has_resolved_ty {
                    // Resolved, so that the parent is updated next
                    parent_base.state = ParentState::Resolved { has_resolved_ty, has_const_val };
                }
            },
            PendingExprKind::Standing(state) => {
                let new_info = match *state {
                    StandingExprState::Unresolved => true,
                    StandingExprState::Resolved { has_const_val: old_val, .. } => has_const_val && !old_val,
                    StandingExprState::Error => false,
                };
                if new_info {
                    *state = StandingExprState::Resolved { has_resolved_ty, has_const_val };
                }
            },
        }
    }
}

/// What recording progress does to a parent expression, in terms of its state: an erroneous parent
/// never changes; an unresolved one becomes resolved with the recorded flags exactly when a
/// resolved type is recorded; a resolved or notified one changes only when a constant it did not
/// have is recorded together with a resolved type, and then becomes resolved with those flags. It
/// keeps its parent symbol.
pub proof fn lemma_parent_progress(parent_sym_id: SymbolId, state: ParentState, has_resolved_ty: bool, has_const_val: bool)
    ensures
        ({
            let kind = PendingExprKind::Parent(ParentStateBase { parent_sym_id, state });
            let resolved = PendingExprKind::Parent(
                ParentStateBase { parent_sym_id, state: ParentState::Resolved { has_resolved_ty, has_const_val } },
            );
            let after = spec_progressed(kind, has_resolved_ty, has_const_val);
            &&& after == kind || after == resolved
            &&& state is Error ==> after == kind
            &&& state is Unresolved ==> (after == resolved <==> has_resolved_ty)
            &&& state is Unresolved && !has_resolved_ty ==> after == kind
            &&& state is Resolved && after != kind ==> has_resolved_ty && has_const_val && !state->Resolved_has_const_val
            &&& state is Notified && after != kind ==> has_resolved_ty && has_const_val && !state->Notified_has_const_val
            &&& (state is Resolved || state is Notified) && !has_const_val ==> after == kind
            &&& state is Notified && has_resolved_ty && has_const_val && !state->Notified_has_const_val ==> after == resolved
            &&& state is Resolved && has_resolved_ty && has_const_val && !state->Resolved_has_const_val ==> after == resolved
        }),
{
}

/// What recording progress does to a standing expression: an erroneous one never changes; an
/// unresolved one becomes resolved with the recorded flags; a resolved one changes only when a
/// constant it did not have is recorded, and then becomes resolved with the recorded flags.
pub proof fn lemma_standing_progress(state: StandingExprState, has_resolved_ty: bool, has_const_val: bool)
    ensures
        ({
            let kind = PendingExprKind::Standing(state);
            let resolved = PendingExprKind::Standing(StandingExprState::Resolved { has_resolved_ty, has_const_val });
            let after = spec_progressed(kind, has_resolved_ty, has_const_val);
            &&& after == kind || after == resolved
            &&& state is Error ==> after == kind
            &&& state is Unresolved ==> after == resolved
            &&& state is Resolved && has_const_val && !state->Resolved_has_const_val ==> after == resolved
            &&& state is Resolved && after != kind ==> has_const_val && !state->Resolved_has_const_val
            &&& state is Resolved && !has_const_val ==> after == kind
        }),
{
}

/// Which pending expressions are settled: a parent only once notified of both a resolved type and
/// a constant (a parent merely resolved still has to pass that on), a standing expression once
/// resolved with both, and anything in error; nothing unresolved.
pub proof fn lemma_settled_states(kind: PendingExprKind)
    ensures
        kind matches PendingExprKind::Parent(base) ==> (is_settled(kind) <==> (base.state is Error || base.state == (
        ParentState::Notified { has_resolved_ty: true, has_const_val: true }))),
        kind matches PendingExprKind::Standing(state) ==> (is_settled(kind) <==> (state is Error || state == (
        StandingExprState::Resolved { has_resolved_ty: true, has_const_val: true }))),
{
}

/// The queue of unsettled expressions lists, in order, the position and expression of each pending
/// expression that is not settled, and no other.
pub proof fn lemma_unsettled_entries(exprs: Seq<PendingExpr>)
    requires
        exprs.len() <= usize::MAX,
    ensures
        forall|k: int| 0 <= k < spec_unsettled(exprs).len() ==> {
            let (i, id) = #[trigger] spec_unsettled(exprs)[k];
            &&& 0 <= i < exprs.len()
            &&& id == exprs[i as int].pending_id
            &&& !is_settled(exprs[i as int].kind)
        },
        forall|k: int, l: int| 0 <= k < l < spec_unsettled(exprs).len() ==> (#[trigger] spec_unsettled(exprs)[k]).0 < (
        #[trigger] spec_unsettled(exprs)[l]).0,
        forall|i: int|
            0 <= i < exprs.len() && !is_settled(#[trigger] exprs[i].kind) ==> exists|k: int|
                0 <= k < spec_unsettled(exprs).len() && spec_unsettled(exprs)[k].0 == i,
    decreases exprs.len(),
{
    if exprs.len() > 0 {
        let prev = exprs.drop_last();
        lemma_unsettled_entries(prev);
        assert forall|i: int| 0 <= i < prev.len() implies prev[i] == exprs[i] by {}
        assert forall|k: int| 0 <= k < spec_unsettled(prev).len() implies (#[trigger] spec_unsettled(prev)[k]).0 < exprs.len() - 1 by {
            let (i, id) = spec_unsettled(prev)[k];
        }
        if !is_settled(exprs.last().kind) {
            let q = spec_unsettled(exprs);
            assert(q == spec_unsettled(prev).push(((exprs.len() - 1) as usize, exprs.last().pending_id)));
            assert forall|i: int| 0 <= i < exprs.len() && !is_settled(#[trigger] exprs[i].kind) implies exists|k: int|
                0 <= k < q.len() && q[k].0 == i by {
                if i < exprs.len() - 1 {
                    assert(prev[i] == exprs[i]);
                    let k = choose|k: int| 0 <= k < spec_unsettled(prev).len() && spec_unsettled(prev)[k].0 == i;
                    assert(q[k] == spec_unsettled(prev)[k]);
                } else {
                    assert(q[q.len() - 1].0 == i);
                }
            }
        } else {
            assert forall|i: int| 0 <= i < exprs.len() && !is_settled(#[trigger] exprs[i].kind) implies exists|k: int|
                0 <= k < spec_unsettled(exprs).len() && spec_unsettled(exprs)[k].0 == i by {
                assert(i < exprs.len() - 1);
                assert(prev[i] == exprs[i]);
            }
        }
    }
}

/// Deferring type `t` to `other` makes `t` stand for `other`, keeping its owner, unless `t` is
/// `other`; every other type stays as it was.
pub proof fn lemma_defer_targets(types: Seq<TypeInfo>, t: int, other: int)
    requires
        0 <= t < types.len(),
    ensures
        spec_defer(types, t, other).len() == types.len(),
        t != other ==> spec_defer(types, t, other)[t].ty == Type::Deferred(other as u32) && spec_defer(types, t, other)[t].owner
            == types[t].owner,
        t == other ==> spec_defer(types, t, other) == types,
        forall|k: int| 0 <= k < types.len() && k != t ==> #[trigger] spec_defer(types, t, other)[k] == types[k],
{
}

/// Recording the same progress twice changes nothing more than recording it once.
pub proof fn lemma_progress_idempotent(kind: PendingExprKind, has_resolved_ty: bool, has_const_val: bool)
    ensures
        spec_progressed(spec_progressed(kind, has_resolved_ty, has_const_val), has_resolved_ty, has_const_val)
            == spec_progressed(kind, has_resolved_ty, has_const_val),
{
}

/// A settled pending expression stays as it is, whatever is recorded for it.
pub proof fn lemma_settled_is_final(kind: PendingExprKind, has_resolved_ty: bool, has_const_val: bool)
    requires
        is_settled(kind),
    ensures
        spec_progressed(kind, has_resolved_ty, has_const_val) == kind,
{
}

/// What resuming the expressions waiting on a resolved variable asks for next.
#[derive(Debug, PartialEq, Eq, Clone, Copy, Structural)]
pub enum PendingStep {
    /// Walk up the expression tree from `user`, record what the walk found for pending expression
    /// `index`, then resume at entry `next` of the queue.
    Traverse { index: usize, user: ExprId, next: usize },
    /// Nothing more to resume; the pending symbol can be dropped when `can_remove` holds.
    Done { can_remove: bool },
}

/// The value the variable a symbol of kind `kind` names holds in `compiler`, when it is known.
pub open spec fn spec_known_value(compiler: &ScriptCompiler, kind: SymbolKind) -> Option<int> {
    match kind {
        SymbolKind::Variable(var_id) => match compiler.variables@[var_id as int].state {
            VariableState::Known(val_id) => Some(val_id as int),
            _ => None,
        },
        _ => None,
    }
}

/// A variable's value is known exactly when it holds one: a variable in the `Known` state gives its
/// value, a variable with only a reserved slot, and any other symbol, gives none.
pub proof fn lemma_known_value(compiler: &ScriptCompiler, kind: SymbolKind)
    ensures
        kind is Variable && compiler.variables@[kind->Variable_0 as int].state is Known ==> spec_known_value(compiler, kind) == Some(
            compiler.variables@[kind->Variable_0 as int].state->Known_0 as int,
        ),
        kind is Variable && compiler.variables@[kind->Variable_0 as int].state is ReservedTypeSlot ==> spec_known_value(compiler, kind)
            is None,
        !(kind is Variable) ==> spec_known_value(compiler, kind) is None,
{
}

/// `types` with type `t` made to stand for type `other`, unless it is `other` itself.
pub open spec fn spec_defer(types: Seq<TypeInfo>, t: int, other: int) -> Seq<TypeInfo> {
    if t == other {
        types
    } else {
        types.update(t, TypeInfo { ty: Type::Deferred(other as u32), owner: types[t].owner })
    }
}

/// Root expression `root_id` can be repaired from the variable `resolved_sym_id` in `c`: the
/// symbol is a variable and, when its value is known, the types and values both reach exist.
pub open spec fn root_repairable(c: &ScriptCompiler, resolved_sym_id: SymbolId, root_id: ExprId) -> bool {
    &&& resolved_sym_id < c.syms.len()
    &&& c.syms@[resolved_sym_id as int].kind matches SymbolKind::Variable(var_id) && var_id < c.variables.len()
    &&& spec_known_value(c, c.syms@[resolved_sym_id as int].kind) matches Some(val_id) ==> {
        &&& val_id < c.values.len()
        &&& c.values@[val_id].type_id < c.types.len()
        &&& root_id < c.exprs.len()
        &&& c.exprs@[root_id as int].type_id < c.types.len()
        &&& c.exprs@[root_id as int].val_id < c.values.len()
        &&& c.values@[c.exprs@[root_id as int].val_id as int].type_id < c.types.len()
    }
}

/// `new` is `old` once root expression `root_id` was repaired from the variable
/// `resolved_sym_id`: when the variable's value is known, the root's type and its value's type
/// stand for the type of that value (when `has_resolved_ty`), and the root's value takes the
/// variable's constant (when `has_const_val`); nothing else changes.
pub open spec fn root_repaired(
    new: &ScriptCompiler,
    old: &ScriptCompiler,
    resolved_sym_id: SymbolId,
    has_resolved_ty: bool,
    has_const_val: bool,
    root_id: ExprId,
) -> bool {
    let known = spec_known_value(old, old.syms@[resolved_sym_id as int].kind);
    let root = old.exprs@[root_id as int];
    let val_id = known->0;
    let other = old.values@[val_id].type_id as int;
    let root_val = old.values@[root.val_id as int];
    &&& known is None ==> new.types == old.types && new.values == old.values
    &&& known is Some && has_resolved_ty ==> new.types@ == spec_defer(
        spec_defer(old.types@, root.type_id as int, other),
        root_val.type_id as int,
        other,
    )
    &&& known is Some && !has_resolved_ty ==> new.types@ == old.types@
    &&& known is Some && has_const_val ==> new.values@ == old.values@.update(
        root.val_id as int,
        ValueInfo { const_val: old.values@[val_id].const_val, ..root_val },
    )
    &&& known is Some && !has_const_val ==> new.values@ == old.values@
    &&& new.syms == old.syms
    &&& new.variables == old.variables
    &&& new.exprs == old.exprs
    &&& new.scopes == old.scopes
    &&& new.mods == old.mods
    &&& new.directives == old.directives
    &&& new.intrinsic_registry == old.intrinsic_registry
    &&& new.resolver_state == old.resolver_state
    &&& new.bind == old.bind
}

impl ScriptCompiler {
    /// Repairs root expression `root_id`, which waited on the variable `resolved_sym_id`, once the
    /// variable resolved: when the variable's value is known, the root's type and its value's
    /// type come to stand for the type of the variable's value (when the variable has a resolved
    /// type, `has_resolved_ty`), and the root's value takes the variable's constant (when it has
    /// one, `has_const_val`). Returns whether the value was known; nothing changes otherwise.
    pub fn repair_root(&mut self, resolved_sym_id: SymbolId, has_resolved_ty: bool, has_const_val: bool, root_id: ExprId) -> (res: bool)
        requires
            root_repairable(old(self), resolved_sym_id, root_id),
        ensures
            res == spec_known_value(old(self), old(self).syms@[resolved_sym_id as int].kind) is Some,
            root_repaired(final(self), old(self), resolved_sym_id, has_resolved_ty, has_const_val, root_id),
    {
        let val_id = match self.syms[resolved_sym_id as usize].kind {
            SymbolKind::Variable(var_id) => match self.variables[var_id as usize].state {
                VariableState::Known(val_id) => val_id,
                _ => return false,
            },
            // Only expressions wait to be resolved, and only variables hold them.
            _ => vstd::pervasive::unreached(),
        };
        let root_type_id = self.exprs[root_id as usize].type_id;
        let root_val_id = self.exprs[root_id as usize].val_id;
        if has_resolved_ty {
            let other_type_id = self.values[val_id as usize].type_id;
            // A root sharing the variable's type slot would otherwise come to stand for itself.
            if root_type_id != other_type_id {
                let owner = self.types[root_type_id as usize].owner;
                self.types.set(root_type_id as usize, TypeInfo::new(Type::Deferred(other_type_id), owner));
            }
            let inner_type_id = self.values[root_val_id as usize].type_id;
            if inner_type_id != other_type_id {
                let owner = self.types[inner_type_id as usize].owner;
                self.types.set(inner_type_id as usize, TypeInfo::new(Type::Deferred(other_type_id), owner));
            }
        }
        if has_const_val {
            let const_val = self.values[val_id as usize].const_val;
            let inner = self.values[root_val_id as usize];
            self.values.set(root_val_id as usize, ValueInfo::new(inner.type_id, inner.expr_id, const_val));
        }
        true
    }

    /// Resumes the expressions waiting on the variable `resolved_sym_id` at entry `pos` of
    /// `queue`, the unsettled expressions of `pending_sym` (positions and root expressions).
    /// The root there is repaired from the variable. When the variable's value is not known yet,
    /// nothing can be resumed. When the root has a user, the walk up from that user comes next,
    /// and what it finds is recorded for that pending expression before resuming at `pos + 1`.
    /// Otherwise the root is the whole expression: it records the variable's own flags, and the
    /// symbol is done. The symbol can be dropped only when nothing was left to resume.
    pub fn resume_pending(
        &mut self,
        resolved_sym_id: SymbolId,
        pending_sym: &mut PendingSymbol,
        queue: &Vec<(usize, ExprId)>,
        pos: usize,
    ) -> (step: PendingStep)
        requires
            pos <= queue.len(),
            pos < queue.len() ==> {
                &&& root_repairable(old(self), resolved_sym_id, queue@[pos as int].1)
                &&& queue@[pos as int].0 < old(pending_sym).pending_exprs.len()
            },
        ensures
            pos == queue.len() ==> {
                &&& step == (PendingStep::Done { can_remove: queue.len() == 0 })
                &&& *final(self) == *old(self)
                &&& *final(pending_sym) == *old(pending_sym)
            },
            pos < queue.len() ==> {
                let (i, root_id) = queue@[pos as int];
                let known = spec_known_value(old(self), old(self).syms@[resolved_sym_id as int].kind);
                let ps = *old(pending_sym);
                &&& root_repaired(final(self), old(self), resolved_sym_id, ps.has_resolved_ty, ps.has_const_val, root_id)
                &&& known is None ==> step == (PendingStep::Done { can_remove: false }) && *final(pending_sym) == ps
                &&& known is Some && old(self).exprs@[root_id as int].user is Some ==> {
                    &&& step == (PendingStep::Traverse {
                        index: i,
                        user: old(self).exprs@[root_id as int].user->0,
                        next: (pos + 1) as usize,
                    })
                    &&& *final(pending_sym) == ps
                }
                &&& known is Some && old(self).exprs@[root_id as int].user is None ==> {
                    &&& step == (PendingStep::Done { can_remove: false })
                    &&& final(pending_sym).has_resolved_ty == ps.has_resolved_ty
                    &&& final(pending_sym).has_const_val == ps.has_const_val
                    &&& final(pending_sym).pending_exprs@ == ps.pending_exprs@.update(
                        i as int,
                        PendingExpr {
                            pending_id: ps.pending_exprs@[i as int].pending_id,
                            kind: spec_progressed(ps.pending_exprs@[i as int].kind, ps.has_resolved_ty, ps.has_const_val),
                        },
                    )
                }
            },
    {
        if pos >= queue.len() {
            return PendingStep::Done { can_remove: queue.len() == 0 };
        }
        let (i, root_id) = queue[pos];
        let has_resolved_ty = pending_sym.has_resolved_ty;
        let has_const_val = pending_sym.has_const_val;
        if !self.repair_root(resolved_sym_id, has_resolved_ty, has_const_val, root_id) {
            return PendingStep::Done { can_remove: false };
        }
        match self.exprs[root_id as usize].user {
            Some(user) => PendingStep::Traverse { index: i, user, next: pos + 1 },
            None => {
                // A root with no user is the whole expression, such as `let y = x`: the parent
                // learns what the variable itself has.
                let mut pending_expr = pending_sym.pending_exprs[i];
                pending_expr.kind.record_progress(has_resolved_ty, has_const_val);
                pending_sym.pending_exprs.set(i, pending_expr);
                PendingStep::Done { can_remove: false }
            },
        }
    }
}

} // verus!
