//! Registration of compiler generated symbols into the compiler's arenas: namespaces with a scope
//! of their own, platform types and constant variables.
use vstd::prelude::*;
use crate::builtins::spec_builtin_kind;
use crate::compiler_consts::{builtin_ty_to_id, spec_builtin_ty_to_id};
use crate::hir::{
    ExprHir, ResolvedExpr, ResolvedExprMetadata, Symbol, SymbolKind, ValueInfo, VarDef,
    VariableMetadata, VariableState,
};
use crate::ids::{ExprId, InternedId, ScopeId, SymbolId, TypeId, ValueId, VariableId};
use crate::instantiation_symbols::{
    is_scalar_value, spec_base_scope_count, spec_base_symbol_count, spec_base_variable_count,
    spec_scope_count, spec_symbol_count, spec_to_val, spec_variable_count, lemma_counts_of_prefix,
    lemma_counts_step, InstantiationSymbolBase, InstantiationSymbolKind, InstantiationVariable,
    InstiationType,
};
use crate::scopes::{AssociatedScopeKind, Scope, ScopeInfo, ScopeType};
use crate::script_compiler::ScriptCompiler;

verus! {

broadcast use vstd::std_specs::hash::group_hash_axioms;

/// Whether every variable among `bases`, nested ones included, holds a scalar value.
pub open spec fn spec_bases_scalar(bases: Seq<InstantiationSymbolBase>) -> bool
    decreases bases,
{
    if bases.len() == 0 {
        true
    } else {
        spec_bases_scalar(bases.drop_last()) && spec_base_scalar(bases.last())
    }
}

/// Whether every variable in `base`, nested ones included, holds a scalar value.
pub open spec fn spec_base_scalar(base: InstantiationSymbolBase) -> bool
    decreases base,
{
    match base.kind {
        InstantiationSymbolKind::Namespace(inner) => spec_bases_scalar(inner@),
        InstantiationSymbolKind::Variable(var) => is_scalar_value(var.val),
        InstantiationSymbolKind::ExternType(_) => true,
    }
}

/// The `TypeId` a compiler generated variable of type `ty` gets: its built-in's core id.
pub open spec fn spec_instantiation_type_id(ty: InstiationType) -> TypeId {
    match ty {
        InstiationType::BuiltinType(bt) => spec_builtin_ty_to_id(spec_builtin_kind(bt)),
    }
}

/// The symbol registered for `base`: a namespace owns scope `scope_id`, a variable is
/// `var_id`.
pub open spec fn spec_registered_symbol(
    base: InstantiationSymbolBase,
    sym_id: SymbolId,
    scope_id: ScopeId,
    var_id: VariableId,
) -> Symbol {
    Symbol {
        name_id: base.name_id,
        self_id: sym_id,
        ast_id: None,
        sym_origin: base.sym_origin,
        is_priv: base.is_priv,
        associated_scope: match base.kind {
            InstantiationSymbolKind::Namespace(_) => Some(AssociatedScopeKind::Scope(scope_id)),
            _ => None,
        },
        scope_origin: base.scope_origin,
        kind: match base.kind {
            InstantiationSymbolKind::Namespace(_) => SymbolKind::Namespace,
            InstantiationSymbolKind::Variable(_) => SymbolKind::Variable(var_id),
            InstantiationSymbolKind::ExternType(ty) => SymbolKind::ExternType(ty),
        },
    }
}

/// A table after binding each of `bases` in order, the `j`th to the symbol id `sym0` plus the
/// symbols registered before it.
pub open spec fn spec_bases_table(
    table: Map<InternedId, SymbolId>,
    bases: Seq<InstantiationSymbolBase>,
    sym0: int,
) -> Map<InternedId, SymbolId>
    decreases bases.len(),
{
    if bases.len() == 0 {
        table
    } else {
        spec_bases_table(table, bases.drop_last(), sym0).insert(
            bases.last().name_id,
            (sym0 + spec_symbol_count(bases.drop_last())) as SymbolId,
        )
    }
}

impl ScriptCompiler {
    /// Everything but the arenas that registration appends to, and the scopes, is as in `old`.
    pub open spec fn same_outside_registration(&self, old: &ScriptCompiler) -> bool {
        &&& self.mods == old.mods
        &&& self.types == old.types
        &&& self.directives == old.directives
        &&& self.intrinsic_registry == old.intrinsic_registry
        &&& self.resolver_state == old.resolver_state
        &&& self.bind == old.bind
    }

    /// Scope `s` is as in `old` except for its identifier table.
    pub open spec fn scope_same_but_table(&self, old: &ScriptCompiler, s: int) -> bool {
        &&& self.scopes@[s].scope.table.ast_to_sym@ == old.scopes@[s].scope.table.ast_to_sym@
        &&& self.scopes@[s].scope.scope_id == old.scopes@[s].scope.scope_id
        &&& self.scopes@[s].scope.scope_type == old.scopes@[s].scope.scope_type
        &&& self.scopes@[s].scope.is_intrinsic == old.scopes@[s].scope.is_intrinsic
        &&& self.scopes@[s].scope.intrinsic_scope == old.scopes@[s].scope.intrinsic_scope
        &&& self.scopes@[s].sym_owner == old.scopes@[s].sym_owner
        &&& self.scopes@[s].mod_owner == old.scopes@[s].mod_owner
    }

    /// The arenas of `old` are prefixes of this compiler's, and its scopes other than
    /// `target` are unchanged.
    pub open spec fn extends_arenas(&self, old: &ScriptCompiler, target: int) -> bool {
        &&& old.syms.len() <= self.syms.len()
        &&& old.variables.len() <= self.variables.len()
        &&& old.exprs.len() <= self.exprs.len()
        &&& old.values.len() <= self.values.len()
        &&& old.scopes.len() <= self.scopes.len()
        &&& self.syms@.take(old.syms.len() as int) == old.syms@
        &&& self.variables@.take(old.variables.len() as int) == old.variables@
        &&& self.exprs@.take(old.exprs.len() as int) == old.exprs@
        &&& self.values@.take(old.values.len() as int) == old.values@
        &&& forall|s: int| 0 <= s < old.scopes.len() && s != target ==> #[trigger] self.scopes@[s] == old.scopes@[s]
        &&& self.scope_same_but_table(old, target)
    }

    /// The variable `v`, its value `a` and its expression `e` are the constant `var` named
    /// `name_id`, held by symbol `sym_id`.
    pub open spec fn registered_variable(
        &self,
        var: InstantiationVariable,
        name_id: InternedId,
        sym_id: SymbolId,
        v: int,
        e: int,
        a: int,
    ) -> bool {
        let type_id = spec_instantiation_type_id(var.ty);
        &&& self.variables@[v] == VarDef {
            self_id: sym_id,
            name_id,
            meta: VariableMetadata::Generated,
            state: VariableState::Known(a as ValueId),
        }
        &&& self.values@[a] == ValueInfo {
            type_id,
            expr_id: e as ExprId,
            const_val: Some(spec_to_val(var.val)),
        }
        &&& self.exprs@[e].type_id == type_id
        &&& self.exprs@[e].expr_hir == ExprHir::Val(a as ValueId)
        &&& self.exprs@[e].val_id == a as ValueId
        &&& self.exprs@[e].meta == ResolvedExprMetadata::Generated
        &&& self.exprs@[e].operands@ == Seq::<ExprId>::empty()
        &&& self.exprs@[e].user == None::<ExprId>
    }

    /// What registering base `j` of `bases` left: its symbol, and the scope or variable it owns;
    /// a namespace's scope binds its members, each registered in turn. The arenas held `s0`
    /// symbols, `c0` scopes, `v0` variables, `e0` expressions and `a0` values before the first
    /// base.
    pub open spec fn registered_base(
        &self,
        bases: Seq<InstantiationSymbolBase>,
        j: int,
        s0: int,
        c0: int,
        v0: int,
        e0: int,
        a0: int,
    ) -> bool
        decreases bases, 0int,
    {
        if 0 <= j < bases.len() {
            let pre = bases.take(j);
            let base = bases[j];
            let sym_id = s0 + spec_symbol_count(pre);
            let scope_id = c0 + spec_scope_count(pre);
            let var_n = spec_variable_count(pre);
            &&& self.syms@[sym_id] == spec_registered_symbol(
                base,
                sym_id as SymbolId,
                scope_id as ScopeId,
                (v0 + var_n) as VariableId,
            )
            &&& (base.kind matches InstantiationSymbolKind::Variable(var) ==> self.registered_variable(
                var,
                base.name_id,
                sym_id as SymbolId,
                v0 + var_n,
                e0 + var_n,
                a0 + var_n,
            ))
            &&& match base.kind {
                InstantiationSymbolKind::Namespace(members) => {
                    &&& self.scopes@[scope_id].scope.scope_id == scope_id
                    &&& self.scopes@[scope_id].scope.scope_type == ScopeType::Compiler
                    &&& self.scopes@[scope_id].scope.is_intrinsic
                    &&& self.scopes@[scope_id].scope.intrinsic_scope == None::<ScopeId>
                    &&& self.scopes@[scope_id].sym_owner == Some(sym_id as SymbolId)
                    &&& self.scopes@[scope_id].mod_owner == self.intrinsic_registry.core_mod_id
                    &&& self.scopes@[scope_id].scope.table.ast_to_sym@.is_empty()
                    &&& self.table(scope_id) == spec_bases_table(Map::empty(), members@, sym_id + 1)
                    &&& self.registered_bases(
                        members@,
                        sym_id + 1,
                        scope_id + 1,
                        v0 + var_n,
                        e0 + var_n,
                        a0 + var_n,
                    )
                },
                _ => true,
            }
        } else {
            false
        }
    }

    /// Every base of `bases` is registered, the arenas having held `s0` symbols, `c0` scopes,
    /// `v0` variables, `e0` expressions and `a0` values before the first one.
    pub open spec fn registered_bases(
        &self,
        bases: Seq<InstantiationSymbolBase>,
        s0: int,
        c0: int,
        v0: int,
        e0: int,
        a0: int,
    ) -> bool
        decreases bases, 1int,
    {
        if bases.len() == 0 {
            true
        } else {
            &&& self.registered_bases(bases.drop_last(), s0, c0, v0, e0, a0)
            &&& self.registered_base(bases, bases.len() - 1, s0, c0, v0, e0, a0)
        }
    }

    /// Registers `InstantiationVariable` given its already present information.
    fn register_instantiation_var(
        &mut self,
        current_scope_id: ScopeId,
        base: &InstantiationSymbolBase,
        var: &InstantiationVariable,
    )
        requires
            current_scope_id < old(self).scopes.len(),
            base.kind == InstantiationSymbolKind::Variable(*var),
            is_scalar_value(var.val),
            old(self).syms.len() < u32::MAX,
            old(self).variables.len() < u32::MAX,
            old(self).exprs.len() < u32::MAX,
            old(self).values.len() < u32::MAX,
        ensures
            final(self).syms@ == old(self).syms@.push(
                spec_registered_symbol(
                    *base,
                    old(self).syms.len() as SymbolId,
                    0,
                    old(self).variables.len() as VariableId,
                ),
            ),
            final(self).variables.len() == old(self).variables.len() + 1,
            final(self).exprs.len() == old(self).exprs.len() + 1,
            final(self).values.len() == old(self).values.len() + 1,
            final(self).variables@.drop_last() == old(self).variables@,
            final(self).exprs@.drop_last() == old(self).exprs@,
            final(self).values@.drop_last() == old(self).values@,
            final(self).registered_variable(
                *var,
                base.name_id,
                old(self).syms.len() as SymbolId,
                old(self).variables.len() as int,
                old(self).exprs.len() as int,
                old(self).values.len() as int,
            ),
            final(self).scopes.len() == old(self).scopes.len(),
            final(self).table(current_scope_id as int) == old(self).table(current_scope_id as int).insert(
                base.name_id,
                old(self).syms.len() as SymbolId,
            ),
            final(self).scope_same_but_table(old(self), current_scope_id as int),
            forall|s: int|
                0 <= s < old(self).scopes.len() && s != current_scope_id ==> #[trigger] final(self).scopes@[s]
                    == old(self).scopes@[s],
            final(self).same_outside_registration(old(self)),
    {
        let sym_id = self.syms.len() as u32;
        let var_id = self.variables.len() as u32;

        let sym = Symbol::new(
            base.name_id,
            sym_id,
            None,
            base.sym_origin,
            base.is_priv,
            None,
            base.scope_origin,
            SymbolKind::Variable(var_id),
        );

        self.syms.push(sym);
        self.bind_in_scope(current_scope_id, base.name_id, sym_id);

        let type_id = self.register_instantiation_type(current_scope_id, base, &var.ty);

        let expr_id = self.exprs.len() as u32;
        let val_id = self.values.len() as u32;

        let expr = ResolvedExpr::new(
            type_id,
            ExprHir::Val(val_id),
            val_id,
            ResolvedExprMetadata::Generated,
            Vec::new(),
        );

        let val_info = ValueInfo::new(type_id, expr_id, Some(var.val.to_val()));

        let var_def = VarDef::new(
            sym_id,
            base.name_id,
            VariableMetadata::Generated,
            VariableState::Known(val_id),
        );

        self.variables.push(var_def);
        self.exprs.push(expr);
        self.values.push(val_info);
    }

    /// The `TypeId` of a compiler generated variable's type.
    fn register_instantiation_type(
        &self,
        current_scope_id: ScopeId,
        base: &InstantiationSymbolBase,
        ty: &InstiationType,
    ) -> (res: TypeId)
        ensures
            res == spec_instantiation_type_id(*ty),
    {
        match ty {
            InstiationType::BuiltinType(builtin) => builtin_ty_to_id(builtin.kind()),
        }
    }


    /// Inserts `bases` inside `current_scope_id` recursively: every base becomes a symbol bound in
    /// the current scope, a namespace additionally gets a scope of its own holding its members,
    /// and a variable gets its definition, its value and the expression that holds it.
    pub(crate) fn register_instantiation_bases(
        &mut self,
        current_scope_id: ScopeId,
        bases: &[InstantiationSymbolBase],
    )
        requires
            current_scope_id < old(self).scopes.len(),
            spec_bases_scalar(bases@),
            old(self).syms.len() + spec_symbol_count(bases@) <= u32::MAX,
            old(self).scopes.len() + spec_scope_count(bases@) <= u16::MAX,
            old(self).variables.len() + spec_variable_count(bases@) <= u32::MAX,
            old(self).exprs.len() + spec_variable_count(bases@) <= u32::MAX,
            old(self).values.len() + spec_variable_count(bases@) <= u32::MAX,
        ensures
            final(self).syms.len() == old(self).syms.len() + spec_symbol_count(bases@),
            final(self).scopes.len() == old(self).scopes.len() + spec_scope_count(bases@),
            final(self).variables.len() == old(self).variables.len() + spec_variable_count(bases@),
            final(self).exprs.len() == old(self).exprs.len() + spec_variable_count(bases@),
            final(self).values.len() == old(self).values.len() + spec_variable_count(bases@),
            final(self).extends_arenas(old(self), current_scope_id as int),
            final(self).table(current_scope_id as int) == spec_bases_table(
                old(self).table(current_scope_id as int),
                bases@,
                old(self).syms.len() as int,
            ),
            forall|j: int|
                0 <= j < bases@.len() ==> #[trigger] final(self).registered_base(
                    bases@,
                    j,
                    old(self).syms.len() as int,
                    old(self).scopes.len() as int,
                    old(self).variables.len() as int,
                    old(self).exprs.len() as int,
                    old(self).values.len() as int,
                ),
            final(self).same_outside_registration(old(self)),
        decreases bases@,
    {
        let ghost start = *self;
        let ghost s0 = self.syms.len() as int;
        let ghost c0 = self.scopes.len() as int;
        let ghost v0 = self.variables.len() as int;
        let ghost e0 = self.exprs.len() as int;
        let ghost a0 = self.values.len() as int;
        let n = bases.len();
        let mut i: usize = 0;
        proof {
            assert(bases@.take(0) =~= Seq::<InstantiationSymbolBase>::empty());
            lemma_extends_refl(&start, current_scope_id as int);
        }
        while i < n
            invariant
                n == bases@.len(),
                0 <= i <= n,
                s0 == start.syms.len(),
                c0 == start.scopes.len(),
                v0 == start.variables.len(),
                e0 == start.exprs.len(),
                a0 == start.values.len(),
                current_scope_id < start.scopes.len(),
                spec_bases_scalar(bases@),
                s0 + spec_symbol_count(bases@) <= u32::MAX,
                c0 + spec_scope_count(bases@) <= u16::MAX,
                v0 + spec_variable_count(bases@) <= u32::MAX,
                e0 + spec_variable_count(bases@) <= u32::MAX,
                a0 + spec_variable_count(bases@) <= u32::MAX,
                self.syms.len() == s0 + spec_symbol_count(bases@.take(i as int)),
                self.scopes.len() == c0 + spec_scope_count(bases@.take(i as int)),
                self.variables.len() == v0 + spec_variable_count(bases@.take(i as int)),
                self.exprs.len() == e0 + spec_variable_count(bases@.take(i as int)),
                self.values.len() == a0 + spec_variable_count(bases@.take(i as int)),
                self.extends_arenas(&start, current_scope_id as int),
                self.table(current_scope_id as int) == spec_bases_table(
                    start.table(current_scope_id as int),
                    bases@.take(i as int),
                    s0,
                ),
                forall|j: int| 0 <= j < i ==> #[trigger] self.registered_base(bases@, j, s0, c0, v0, e0, a0),
                self.same_outside_registration(&start),
            decreases n - i,
        {
            let ghost prev = *self;
            let base = &bases[i];
            proof {
                lemma_counts_step(bases@, i as int);
                lemma_counts_of_prefix(bases@, i + 1);
                lemma_bases_scalar_at(bases@, i as int);
                assert(bases@.take(i + 1).drop_last() =~= bases@.take(i as int));
                assert(bases@.take(i + 1).last() == bases@[i as int]);
            }
            match &base.kind {
                InstantiationSymbolKind::Namespace(members) => {
                    let sym_id = self.syms.len() as u32;
                    let scope_id = self.scopes.len() as u16;
                    let sym = base.to_sym(
                        sym_id,
                        None,
                        Some(AssociatedScopeKind::Scope(scope_id)),
                        SymbolKind::Namespace,
                    );
                    self.syms.push(sym);
                    self.bind_in_scope(current_scope_id, base.name_id, sym_id);
                    let scope = Scope::new(scope_id, ScopeType::Compiler, true, None);
                    let core_mod_id = self.intrinsic_registry.core_mod_id;
                    self.scopes.push(ScopeInfo::new(scope, Some(sym_id), core_mod_id));
                    proof {
                        assert(self.syms@.take(prev.syms.len() as int) =~= prev.syms@);
                        assert(self.variables@.take(prev.variables.len() as int) =~= prev.variables@);
                        assert(self.exprs@.take(prev.exprs.len() as int) =~= prev.exprs@);
                        assert(self.values@.take(prev.values.len() as int) =~= prev.values@);
                        assert(self.extends_arenas(&prev, current_scope_id as int));
                    }
                    let ghost mid = *self;
                    proof {
                        assert(decreases_to!(bases@ => bases@[i as int]));
                    }
                    self.register_instantiation_bases(scope_id, members.as_slice());
                    proof {
                        assert(mid.table(scope_id as int) == Map::<InternedId, SymbolId>::empty());
                        assert(self.syms@.take(mid.syms.len() as int)[sym_id as int] == self.syms@[sym_id as int]);
                        let pre = bases@.take(i as int);
                        let var_n = spec_variable_count(pre);
                        assert(sym_id == s0 + spec_symbol_count(pre));
                        assert(scope_id == c0 + spec_scope_count(pre));
                        assert(mid.variables.len() == v0 + var_n);
                        assert(self.syms@[sym_id as int] == spec_registered_symbol(bases@[i as int], sym_id, scope_id, (v0 + var_n) as VariableId));
                        assert(self.table(scope_id as int) == spec_bases_table(Map::empty(), members@, sym_id + 1));
                        lemma_registered_bases_all(self, members@, sym_id + 1, scope_id + 1, v0 + var_n, e0 + var_n, a0 + var_n);
                        assert(self.registered_base(bases@, i as int, s0, c0, v0, e0, a0));
                        assert forall|j: int| 0 <= j < i implies #[trigger] self.registered_base(bases@, j, s0, c0, v0, e0, a0) by {
                            lemma_index_bounds(bases@, j, i as int);
                            lemma_registered_base_persists(&prev, &mid, bases@, j, s0, c0, v0, e0, a0, current_scope_id as int);
                            lemma_registered_base_persists(&mid, self, bases@, j, s0, c0, v0, e0, a0, scope_id as int);
                        }
                        lemma_extends_trans(&start, &prev, &mid, current_scope_id as int);
                        lemma_extends_nested(&start, &mid, self, current_scope_id as int, scope_id as int);
                    }
                },
                InstantiationSymbolKind::ExternType(plat_kind) => {
                    let sym_id = self.syms.len() as u32;
                    let sym = base.to_sym(sym_id, None, None, SymbolKind::ExternType(*plat_kind));
                    self.syms.push(sym);
                    self.bind_in_scope(current_scope_id, base.name_id, sym_id);
                    proof {
                        assert(self.syms@.take(prev.syms.len() as int) =~= prev.syms@);
                        assert(self.variables@.take(prev.variables.len() as int) =~= prev.variables@);
                        assert(self.exprs@.take(prev.exprs.len() as int) =~= prev.exprs@);
                        assert(self.values@.take(prev.values.len() as int) =~= prev.values@);
                        assert(self.extends_arenas(&prev, current_scope_id as int));
                    }
                    proof {
                        assert forall|j: int| 0 <= j < i implies #[trigger] self.registered_base(bases@, j, s0, c0, v0, e0, a0) by {
                            lemma_index_bounds(bases@, j, i as int);
                            lemma_registered_base_persists(&prev, self, bases@, j, s0, c0, v0, e0, a0, current_scope_id as int);
                        }
                        lemma_extends_trans(&start, &prev, self, current_scope_id as int);
                    }
                },
                InstantiationSymbolKind::Variable(var) => {
                    self.register_instantiation_var(current_scope_id, base, var);
                    proof {
                        assert(self.syms@.take(prev.syms.len() as int) =~= prev.syms@);
                        assert(self.variables@.take(prev.variables.len() as int) =~= prev.variables@);
                        assert(self.exprs@.take(prev.exprs.len() as int) =~= prev.exprs@);
                        assert(self.values@.take(prev.values.len() as int) =~= prev.values@);
                        assert(self.extends_arenas(&prev, current_scope_id as int));
                    }
                    proof {
                        assert forall|j: int| 0 <= j < i implies #[trigger] self.registered_base(bases@, j, s0, c0, v0, e0, a0) by {
                            lemma_index_bounds(bases@, j, i as int);
                            lemma_registered_base_persists(&prev, self, bases@, j, s0, c0, v0, e0, a0, current_scope_id as int);
                        }
                        lemma_extends_trans(&start, &prev, self, current_scope_id as int);
                    }
                },
            }
            i += 1;
        }
        proof {
            assert(bases@.take(n as int) =~= bases@);
        }
    }
}

/// A compiler extends its own arenas.
pub(crate) proof fn lemma_extends_refl(c: &ScriptCompiler, target: int)
    ensures
        c.extends_arenas(c, target),
{
    assert(c.syms@.take(c.syms.len() as int) =~= c.syms@);
    assert(c.variables@.take(c.variables.len() as int) =~= c.variables@);
    assert(c.exprs@.take(c.exprs.len() as int) =~= c.exprs@);
    assert(c.values@.take(c.values.len() as int) =~= c.values@);
}

/// Extending arenas is transitive.
pub(crate) proof fn lemma_extends_trans(a: &ScriptCompiler, b: &ScriptCompiler, c: &ScriptCompiler, target: int)
    requires
        b.extends_arenas(a, target),
        c.extends_arenas(b, target),
        0 <= target < a.scopes.len(),
    ensures
        c.extends_arenas(a, target),
{
    assert(c.syms@.take(a.syms.len() as int) =~= b.syms@.take(a.syms.len() as int));
    assert(c.variables@.take(a.variables.len() as int) =~= b.variables@.take(a.variables.len() as int));
    assert(c.exprs@.take(a.exprs.len() as int) =~= b.exprs@.take(a.exprs.len() as int));
    assert(c.values@.take(a.values.len() as int) =~= b.values@.take(a.values.len() as int));
    assert forall|s: int| 0 <= s < a.scopes.len() && s != target implies #[trigger] c.scopes@[s] == a.scopes@[s] by {
        assert(c.scopes@[s] == b.scopes@[s]);
    }
}

/// A nested registration into scope `inner`, a scope `a` did not have, keeps `c` extending `a`.
pub(crate) proof fn lemma_extends_nested(
    a: &ScriptCompiler,
    b: &ScriptCompiler,
    c: &ScriptCompiler,
    target: int,
    inner: int,
)
    requires
        b.extends_arenas(a, target),
        c.extends_arenas(b, inner),
        0 <= target < a.scopes.len(),
        a.scopes.len() <= inner < b.scopes.len(),
    ensures
        c.extends_arenas(a, target),
{
    assert(c.syms@.take(a.syms.len() as int) =~= b.syms@.take(a.syms.len() as int));
    assert(c.variables@.take(a.variables.len() as int) =~= b.variables@.take(a.variables.len() as int));
    assert(c.exprs@.take(a.exprs.len() as int) =~= b.exprs@.take(a.exprs.len() as int));
    assert(c.values@.take(a.values.len() as int) =~= b.values@.take(a.values.len() as int));
    assert(c.scopes@[target] == b.scopes@[target]);
    assert forall|s: int| 0 <= s < a.scopes.len() && s != target implies #[trigger] c.scopes@[s] == a.scopes@[s] by {
        assert(c.scopes@[s] == b.scopes@[s]);
    }
}

/// The counts before base `j` leave room for base `j` itself within the first `i` bases.
pub(crate) proof fn lemma_index_bounds(bases: Seq<InstantiationSymbolBase>, j: int, i: int)
    requires
        0 <= j < i <= bases.len(),
    ensures
        spec_symbol_count(bases.take(j)) + spec_base_symbol_count(bases[j]) <= spec_symbol_count(bases.take(i)),
        spec_scope_count(bases.take(j)) + spec_base_scope_count(bases[j]) <= spec_scope_count(bases.take(i)),
        spec_variable_count(bases.take(j)) + spec_base_variable_count(bases[j]) <= spec_variable_count(bases.take(i)),
        spec_base_symbol_count(bases[j]) >= 1,
        bases[j].kind is Namespace ==> spec_base_scope_count(bases[j]) >= 1,
        bases[j].kind is Variable ==> spec_base_variable_count(bases[j]) == 1,
{
    lemma_counts_step(bases, j);
    let pre = bases.take(i);
    lemma_counts_of_prefix(pre, j + 1);
    assert(pre.take(j + 1) =~= bases.take(j + 1));
}

/// Base `i` of scalar bases is scalar.
pub(crate) proof fn lemma_bases_scalar_at(bases: Seq<InstantiationSymbolBase>, i: int)
    requires
        0 <= i < bases.len(),
        spec_bases_scalar(bases),
    ensures
        spec_base_scalar(bases[i]),
    decreases bases.len(),
{
    if i < bases.len() - 1 {
        lemma_bases_scalar_at(bases.drop_last(), i);
    }
}

/// What registering base `j` left survives later registrations that only append, or that only
/// change the table of scope `target`, a scope the base did not create.
pub(crate) proof fn lemma_registered_base_persists(
    old_c: &ScriptCompiler,
    new_c: &ScriptCompiler,
    bases: Seq<InstantiationSymbolBase>,
    j: int,
    s0: int,
    c0: int,
    v0: int,
    e0: int,
    a0: int,
    target: int,
)
    requires
        0 <= j < bases.len(),
        old_c.registered_base(bases, j, s0, c0, v0, e0, a0),
        new_c.extends_arenas(old_c, target),
        new_c.intrinsic_registry == old_c.intrinsic_registry,
        s0 + spec_symbol_count(bases.take(j)) + spec_base_symbol_count(bases[j]) <= old_c.syms.len(),
        v0 + spec_variable_count(bases.take(j)) + spec_base_variable_count(bases[j]) <= old_c.variables.len(),
        e0 + spec_variable_count(bases.take(j)) + spec_base_variable_count(bases[j]) <= old_c.exprs.len(),
        a0 + spec_variable_count(bases.take(j)) + spec_base_variable_count(bases[j]) <= old_c.values.len(),
        c0 + spec_scope_count(bases.take(j)) + spec_base_scope_count(bases[j]) <= old_c.scopes.len(),
        target < c0 + spec_scope_count(bases.take(j))
            || target >= c0 + spec_scope_count(bases.take(j)) + spec_base_scope_count(bases[j]),
        0 <= v0 && 0 <= e0 && 0 <= a0 && 0 <= s0 && 0 <= c0,
    ensures
        new_c.registered_base(bases, j, s0, c0, v0, e0, a0),
    decreases bases,
{
    let pre = bases.take(j);
    let sym_id = s0 + spec_symbol_count(pre);
    lemma_base_counts_positive(bases[j]);
    assert(new_c.syms@.take(old_c.syms.len() as int)[sym_id] == new_c.syms@[sym_id]);
    if bases[j].kind is Variable {
        let k = spec_variable_count(pre);
        assert(new_c.variables@.take(old_c.variables.len() as int)[v0 + k] == new_c.variables@[v0 + k]);
        assert(new_c.exprs@.take(old_c.exprs.len() as int)[e0 + k] == new_c.exprs@[e0 + k]);
        assert(new_c.values@.take(old_c.values.len() as int)[a0 + k] == new_c.values@[a0 + k]);
    }
    if let InstantiationSymbolKind::Namespace(members) = bases[j].kind {
        let sc = c0 + spec_scope_count(pre);
        let var_n = spec_variable_count(pre);
        assert(sc != target);
        assert(new_c.scopes@[sc] == old_c.scopes@[sc]);
        lemma_registered_bases_all(old_c, members@, sym_id + 1, sc + 1, v0 + var_n, e0 + var_n, a0 + var_n);
        lemma_registered_bases_all(new_c, members@, sym_id + 1, sc + 1, v0 + var_n, e0 + var_n, a0 + var_n);
        assert forall|k: int| 0 <= k < members@.len() implies #[trigger] new_c.registered_base(
            members@,
            k,
            sym_id + 1,
            sc + 1,
            v0 + var_n,
            e0 + var_n,
            a0 + var_n,
        ) by {
            assert(old_c.registered_base(members@, k, sym_id + 1, sc + 1, v0 + var_n, e0 + var_n, a0 + var_n));
            lemma_index_bounds(members@, k, members@.len() as int);
            assert(members@.take(members@.len() as int) =~= members@);
            assert(decreases_to!(bases => bases[j]));
            lemma_registered_base_persists(
                old_c,
                new_c,
                members@,
                k,
                sym_id + 1,
                sc + 1,
                v0 + var_n,
                e0 + var_n,
                a0 + var_n,
                target,
            );
        }
    }
}

/// A base pushes at least its own symbol, and a namespace its own scope.
proof fn lemma_base_counts_positive(base: InstantiationSymbolBase)
    ensures
        spec_base_symbol_count(base) >= 1,
        base.kind is Namespace ==> spec_base_scope_count(base) >= 1,
        base.kind is Variable ==> spec_base_variable_count(base) == 1,
{
}


/// Registering a base depends only on the bases before it.
pub(crate) proof fn lemma_registered_base_prefix(
    c: &ScriptCompiler,
    bases: Seq<InstantiationSymbolBase>,
    k: int,
    s0: int,
    c0: int,
    v0: int,
    e0: int,
    a0: int,
)
    requires
        0 <= k < bases.len() - 1,
    ensures
        c.registered_base(bases.drop_last(), k, s0, c0, v0, e0, a0) == c.registered_base(bases, k, s0, c0, v0, e0, a0),
{
    assert(bases.drop_last().take(k) =~= bases.take(k));
    assert(bases.drop_last()[k] == bases[k]);
}

/// All bases are registered exactly when each one is.
pub(crate) proof fn lemma_registered_bases_all(
    c: &ScriptCompiler,
    bases: Seq<InstantiationSymbolBase>,
    s0: int,
    c0: int,
    v0: int,
    e0: int,
    a0: int,
)
    ensures
        c.registered_bases(bases, s0, c0, v0, e0, a0) <==> forall|k: int|
            0 <= k < bases.len() ==> #[trigger] c.registered_base(bases, k, s0, c0, v0, e0, a0),
    decreases bases.len(),
{
    if bases.len() > 0 {
        let rest = bases.drop_last();
        lemma_registered_bases_all(c, rest, s0, c0, v0, e0, a0);
        if c.registered_bases(bases, s0, c0, v0, e0, a0) {
            assert forall|k: int| 0 <= k < bases.len() implies #[trigger] c.registered_base(bases, k, s0, c0, v0, e0, a0) by {
                if k < bases.len() - 1 {
                    lemma_registered_base_prefix(c, bases, k, s0, c0, v0, e0, a0);
                    assert(c.registered_base(rest, k, s0, c0, v0, e0, a0));
                }
            }
        }
        if forall|k: int| 0 <= k < bases.len() ==> #[trigger] c.registered_base(bases, k, s0, c0, v0, e0, a0) {
            assert forall|k: int| 0 <= k < rest.len() implies #[trigger] c.registered_base(rest, k, s0, c0, v0, e0, a0) by {
                lemma_registered_base_prefix(c, bases, k, s0, c0, v0, e0, a0);
                assert(c.registered_base(bases, k, s0, c0, v0, e0, a0));
            }
            assert(c.registered_base(bases, bases.len() - 1, s0, c0, v0, e0, a0));
        }
    }
}

} // verus!
