//! Loading of the core module: its built-in types with their intrinsic namespaces, the unknown
//! type, the boundary types, the core functions, and the directives every module knows.
use vstd::prelude::*;
use crate::builtins::{BuiltinType, TypeBoundaryFlags};
use crate::core_helpers::{
    core_boundaries_dataset, core_builtin_types_dataset, is_core_constant,
    lemma_core_namespace_is_constants, lemma_core_ns_monotone, lemma_core_reservation_totals,
    spec_core_boundaries, spec_core_builtin_names, spec_core_builtin_namespace,
    spec_core_builtin_types, spec_core_func_names, spec_core_ns_scopes, spec_core_ns_symbols,
    spec_core_ns_variables, CoreFunc, CORE_BOUNDARY_COUNT, CORE_BUILTIN_COUNT, CORE_FUNC_COUNT,
};
use crate::hir::{
    BuiltinTypeInfo, FuncDef, Symbol, SymbolKind, SymbolOrigin, Type, TypeInfo, ArgConstraint,
};
use crate::ids::{InternedId, ModuleId, ScopeId, SymbolId, TypeId};
use crate::instantiation_symbols::{
    spec_scope_count, spec_symbol_count, spec_variable_count, InstantiationSymbolBase,
};
use crate::registration::{
    lemma_extends_refl, lemma_extends_trans, lemma_index_bounds, lemma_registered_base_persists,
    spec_bases_scalar, spec_base_scalar, spec_bases_table,
};
use crate::scopes::{AssociatedScopeKind, Scope, ScopeInfo, ScopeType};
use crate::script_compiler::ScriptCompiler;

verus! {

broadcast use vstd::std_specs::hash::group_hash_axioms;

/// Plain core constants are scalar.
pub proof fn lemma_constants_scalar(bases: Seq<InstantiationSymbolBase>)
    requires
        forall|j: int| 0 <= j < bases.len() ==> #[trigger] is_core_constant(bases[j]),
    ensures
        spec_bases_scalar(bases),
    decreases bases.len(),
{
    if bases.len() > 0 {
        let rest = bases.drop_last();
        assert(is_core_constant(bases[bases.len() - 1]));
        assert forall|j: int| 0 <= j < rest.len() implies #[trigger] is_core_constant(rest[j]) by {
            assert(rest[j] == bases[j]);
        }
        lemma_constants_scalar(rest);
        assert(spec_base_scalar(bases.last()));
    }
}

/// The symbol core registers for a built-in, boundary or function named `name_id` at `sym_id`
/// with type `type_id`, owning `assoc` when it has a namespace.
pub open spec fn spec_core_type_symbol(
    name_id: InternedId,
    sym_id: SymbolId,
    core_mod_id: ModuleId,
    assoc: Option<AssociatedScopeKind>,
    type_id: TypeId,
) -> Symbol {
    Symbol {
        name_id,
        self_id: sym_id,
        ast_id: None,
        sym_origin: SymbolOrigin::Module(core_mod_id),
        is_priv: false,
        associated_scope: assoc,
        scope_origin: ScopeType::Core,
        kind: SymbolKind::Type(type_id),
    }
}

/// Symbol id of the core built-in at position `i`: each built-in is followed by the constants of
/// its namespace.
pub open spec fn spec_builtin_sym(i: int) -> int {
    i + spec_core_ns_symbols(i)
}

/// Id of the scope holding the namespace of the core built-in at position `i`, when it has one.
pub open spec fn spec_builtin_scope(i: int) -> int {
    1 + spec_core_ns_scopes(i) as int
}

/// Index of the first variable of the namespace of the core built-in at position `i`.
pub open spec fn spec_builtin_var(i: int) -> int {
    spec_core_ns_variables(i) as int
}

/// Scope the symbol of the core built-in at position `i` owns: its namespace's, if any.
pub open spec fn spec_builtin_assoc(i: int) -> Option<AssociatedScopeKind> {
    if spec_core_builtin_namespace(i).len() == 0 {
        None
    } else {
        Some(AssociatedScopeKind::Scope(spec_builtin_scope(i) as ScopeId))
    }
}

/// Number of identifiers the core scope binds: built-ins, boundaries and functions.
pub open spec fn spec_core_entry_count() -> int {
    (CORE_BUILTIN_COUNT + CORE_BOUNDARY_COUNT + CORE_FUNC_COUNT) as int
}

/// Name of the `e`th identifier core binds, in loading order.
pub open spec fn spec_core_entry_name(e: int) -> InternedId {
    if e < CORE_BUILTIN_COUNT {
        spec_core_builtin_names()[e]
    } else if e < CORE_BUILTIN_COUNT + CORE_BOUNDARY_COUNT {
        spec_core_boundaries()[e - CORE_BUILTIN_COUNT].0
    } else {
        spec_core_func_names()[e - CORE_BUILTIN_COUNT - CORE_BOUNDARY_COUNT]
    }
}

/// Symbol id of the `e`th identifier core binds: after the built-ins and their 140 namespace
/// constants come the boundaries, then the functions.
pub open spec fn spec_core_entry_sym(e: int) -> SymbolId {
    if e < CORE_BUILTIN_COUNT {
        spec_builtin_sym(e) as SymbolId
    } else {
        (e + 140) as SymbolId
    }
}

/// The core scope's table after binding the first `k` core identifiers.
pub open spec fn spec_core_table(k: int) -> Map<InternedId, SymbolId>
    decreases k,
{
    if k <= 0 {
        Map::empty()
    } else {
        spec_core_table(k - 1).insert(spec_core_entry_name(k - 1), spec_core_entry_sym(k - 1))
    }
}

impl ScriptCompiler {
    /// The core boundary at position `j` is loaded: its type after the unknown type, and its
    /// symbol after the built-ins and their namespaces.
    pub open spec fn boundary_loaded(&self, j: int, core_mod_id: ModuleId) -> bool {
        &&& self.types@[CORE_BUILTIN_COUNT + 1 + j] == TypeInfo {
            ty: Type::Boundaries(spec_core_boundaries()[j].1),
            owner: core_mod_id,
        }
        &&& self.syms@[163 + j] == spec_core_type_symbol(
            spec_core_boundaries()[j].0,
            (163 + j) as SymbolId,
            core_mod_id,
            None,
            (CORE_BUILTIN_COUNT + 1 + j) as TypeId,
        )
    }

    /// The core built-in at position `i` is loaded: its type, its symbol, and its namespace's
    /// scope with the constants registered in it.
    pub open spec fn builtin_loaded(&self, i: int, core_mod_id: ModuleId) -> bool {
        let ns = spec_core_builtin_namespace(i);
        let sym = spec_builtin_sym(i);
        let scope = spec_builtin_scope(i);
        &&& self.types@[i] == TypeInfo {
            ty: Type::BuiltinTypeInfo(
                BuiltinTypeInfo { sym_id: sym as SymbolId, ty: spec_core_builtin_types()[i] },
            ),
            owner: core_mod_id,
        }
        &&& self.syms@[sym] == spec_core_type_symbol(
            spec_core_builtin_names()[i],
            sym as SymbolId,
            core_mod_id,
            spec_builtin_assoc(i),
            i as TypeId,
        )
        &&& ns.len() > 0 ==> {
            &&& self.scopes@[scope].scope.scope_id == scope
            &&& self.scopes@[scope].scope.scope_type == ScopeType::Core
            &&& !self.scopes@[scope].scope.is_intrinsic
            &&& self.scopes@[scope].scope.intrinsic_scope == None::<ScopeId>
            &&& self.scopes@[scope].sym_owner == Some(sym as SymbolId)
            &&& self.scopes@[scope].mod_owner == core_mod_id
            &&& self.scopes@[scope].scope.table.ast_to_sym@.is_empty()
            &&& self.table(scope) == spec_bases_table(Map::empty(), ns, sym + 1)
            &&& forall|j: int|
                0 <= j < ns.len() ==> #[trigger] self.registered_base(
                    ns,
                    j,
                    sym + 1,
                    scope + 1,
                    spec_builtin_var(i),
                    spec_builtin_var(i),
                    spec_builtin_var(i),
                )
        }
    }
}

/// Loading built-in `i` advances each running total by what its namespace pushes.
pub proof fn lemma_builtin_step(i: int)
    requires
        0 <= i < CORE_BUILTIN_COUNT,
    ensures
        spec_builtin_sym(i + 1) == spec_builtin_sym(i) + 1 + spec_core_builtin_namespace(i).len(),
        spec_builtin_scope(i + 1) == spec_builtin_scope(i) + if spec_core_builtin_namespace(i).len() == 0 {
            0int
        } else {
            1int
        },
        spec_builtin_var(i + 1) == spec_builtin_var(i) + spec_core_builtin_namespace(i).len(),
        spec_symbol_count(spec_core_builtin_namespace(i)) == spec_core_builtin_namespace(i).len(),
        spec_scope_count(spec_core_builtin_namespace(i)) == 0,
        spec_variable_count(spec_core_builtin_namespace(i)) == spec_core_builtin_namespace(i).len(),
        spec_bases_scalar(spec_core_builtin_namespace(i)),
{
    lemma_core_namespace_is_constants(i);
    lemma_constants_scalar(spec_core_builtin_namespace(i));
}

/// A loaded built-in stays loaded while later loading only appends, or only changes the core
/// scope's table.
pub proof fn lemma_builtin_loaded_persists(
    c1: &ScriptCompiler,
    c2: &ScriptCompiler,
    i: int,
    core_mod_id: ModuleId,
)
    requires
        0 <= i < CORE_BUILTIN_COUNT,
        c1.builtin_loaded(i, core_mod_id),
        c2.extends_arenas(c1, 0),
        c1.types.len() <= c2.types.len(),
        c2.types@.take(c1.types.len() as int) == c1.types@,
        c2.intrinsic_registry == c1.intrinsic_registry,
        i < c1.types.len(),
        spec_builtin_sym(i + 1) <= c1.syms.len(),
        spec_builtin_scope(i + 1) <= c1.scopes.len(),
        spec_builtin_var(i + 1) <= c1.variables.len(),
        spec_builtin_var(i + 1) <= c1.exprs.len(),
        spec_builtin_var(i + 1) <= c1.values.len(),
    ensures
        c2.builtin_loaded(i, core_mod_id),
{
    lemma_builtin_step(i);
    let ns = spec_core_builtin_namespace(i);
    let sym = spec_builtin_sym(i);
    let scope = spec_builtin_scope(i);
    assert(c2.types@.take(c1.types.len() as int)[i] == c2.types@[i]);
    assert(c2.syms@.take(c1.syms.len() as int)[sym] == c2.syms@[sym]);
    if ns.len() > 0 {
        assert(c2.scopes@[scope] == c1.scopes@[scope]);
        assert forall|j: int| 0 <= j < ns.len() implies #[trigger] c2.registered_base(
            ns,
            j,
            sym + 1,
            scope + 1,
            spec_builtin_var(i),
            spec_builtin_var(i),
            spec_builtin_var(i),
        ) by {
            lemma_index_bounds(ns, j, ns.len() as int);
            assert(ns.take(ns.len() as int) =~= ns);
            lemma_registered_base_persists(
                c1,
                c2,
                ns,
                j,
                sym + 1,
                scope + 1,
                spec_builtin_var(i),
                spec_builtin_var(i),
                spec_builtin_var(i),
                0,
            );
        }
    }
}

impl ScriptCompiler {
    /// Registers a single core builtin-type and pushes it, with the scope holding its intrinsic
    /// namespace when it has one.
    fn register_builtin(
        &mut self,
        name_id: InternedId,
        builtin_ty: BuiltinType,
        ns: &[InstantiationSymbolBase],
        core_scope_id: ScopeId,
        core_mod_id: ModuleId,
    )
        requires
            core_scope_id < old(self).scopes.len(),
            spec_bases_scalar(ns@),
            old(self).types.len() < u32::MAX,
            old(self).syms.len() + 1 + spec_symbol_count(ns@) <= u32::MAX,
            old(self).scopes.len() + 1 + spec_scope_count(ns@) <= u16::MAX,
            old(self).variables.len() + spec_variable_count(ns@) <= u32::MAX,
            old(self).exprs.len() + spec_variable_count(ns@) <= u32::MAX,
            old(self).values.len() + spec_variable_count(ns@) <= u32::MAX,
        ensures
            final(self).types@ == old(self).types@.push(
                TypeInfo {
                    ty: Type::BuiltinTypeInfo(
                        BuiltinTypeInfo { sym_id: old(self).syms.len() as SymbolId, ty: builtin_ty },
                    ),
                    owner: core_mod_id,
                },
            ),
            final(self).syms.len() == old(self).syms.len() + 1 + spec_symbol_count(ns@),
            final(self).syms@[old(self).syms.len() as int] == spec_core_type_symbol(
                name_id,
                old(self).syms.len() as SymbolId,
                core_mod_id,
                if ns@.len() == 0 {
                    None
                } else {
                    Some(AssociatedScopeKind::Scope(old(self).scopes.len() as ScopeId))
                },
                old(self).types.len() as TypeId,
            ),
            final(self).scopes.len() == old(self).scopes.len() + if ns@.len() == 0 {
                0
            } else {
                1 + spec_scope_count(ns@)
            },
            final(self).variables.len() == old(self).variables.len() + spec_variable_count(ns@),
            final(self).exprs.len() == old(self).exprs.len() + spec_variable_count(ns@),
            final(self).values.len() == old(self).values.len() + spec_variable_count(ns@),
            final(self).table(core_scope_id as int) == old(self).table(core_scope_id as int).insert(
                name_id,
                old(self).syms.len() as SymbolId,
            ),
            final(self).extends_arenas(old(self), core_scope_id as int),
            ns@.len() > 0 ==> {
                let s = old(self).scopes.len() as int;
                &&& final(self).scopes@[s].scope.scope_id == s
                &&& final(self).scopes@[s].scope.scope_type == ScopeType::Core
                &&& !final(self).scopes@[s].scope.is_intrinsic
                &&& final(self).scopes@[s].scope.intrinsic_scope == None::<ScopeId>
                &&& final(self).scopes@[s].sym_owner == Some(old(self).syms.len() as SymbolId)
                &&& final(self).scopes@[s].mod_owner == core_mod_id
                &&& final(self).scopes@[s].scope.table.ast_to_sym@.is_empty()
                &&& final(self).table(s) == spec_bases_table(
                    Map::empty(),
                    ns@,
                    old(self).syms.len() + 1,
                )
                &&& forall|j: int|
                    0 <= j < ns@.len() ==> #[trigger] final(self).registered_base(
                        ns@,
                        j,
                        old(self).syms.len() + 1,
                        s + 1,
                        old(self).variables.len() as int,
                        old(self).exprs.len() as int,
                        old(self).values.len() as int,
                    )
            },
            final(self).mods == old(self).mods,
            final(self).directives == old(self).directives,
            final(self).intrinsic_registry == old(self).intrinsic_registry,
            final(self).resolver_state == old(self).resolver_state,
            final(self).bind == old(self).bind,
    {
        let ghost start = *self;
        let type_id = self.types.len() as u32;
        let sym_id = self.syms.len() as u32;

        self.types.push(
            TypeInfo::new(
                Type::BuiltinTypeInfo(BuiltinTypeInfo { sym_id, ty: builtin_ty }),
                core_mod_id,
            ),
        );

        // The scope, when present, only needs its id here. Its members are registered
        // after this built-in's symbol.
        let ns_scope_id = if ns.len() == 0 {
            None
        } else {
            Some(self.scopes.len() as u16)
        };
        let assoc = match ns_scope_id {
            Some(scope_id) => Some(AssociatedScopeKind::Scope(scope_id)),
            None => None,
        };

        let sym = Symbol::new(
            name_id,
            sym_id,
            None,
            SymbolOrigin::Module(core_mod_id),
            false,
            assoc,
            ScopeType::Core,
            SymbolKind::Type(type_id),
        );

        self.syms.push(sym);
        self.bind_in_scope(core_scope_id, name_id, sym_id);
        proof {
            assert(self.syms@.take(start.syms.len() as int) =~= start.syms@);
            assert(self.variables@.take(start.variables.len() as int) =~= start.variables@);
            assert(self.exprs@.take(start.exprs.len() as int) =~= start.exprs@);
            assert(self.values@.take(start.values.len() as int) =~= start.values@);
        }

        if let Some(scope_id) = ns_scope_id {
            let scope = Scope::new(scope_id, ScopeType::Core, false, None);
            let scope_info = ScopeInfo::new(scope, Some(sym_id), core_mod_id);
            self.scopes.push(scope_info);
            let ghost mid = *self;
            proof {
                assert(mid.syms@.take(start.syms.len() as int) =~= start.syms@);
                assert(mid.extends_arenas(&start, core_scope_id as int));
            }
            self.register_instantiation_bases(scope_id, ns);
            proof {
                assert(self.syms@.take(start.syms.len() as int) =~= mid.syms@.take(start.syms.len() as int));
                assert(self.syms@.take(mid.syms.len() as int)[sym_id as int] == self.syms@[sym_id as int]);
                assert(self.variables@.take(start.variables.len() as int) =~= mid.variables@.take(start.variables.len() as int));
                assert(self.exprs@.take(start.exprs.len() as int) =~= mid.exprs@.take(start.exprs.len() as int));
                assert(self.values@.take(start.values.len() as int) =~= mid.values@.take(start.values.len() as int));
                assert(self.scopes@[core_scope_id as int] == mid.scopes@[core_scope_id as int]);
                assert forall|s: int| 0 <= s < start.scopes.len() && s != core_scope_id implies #[trigger] self.scopes@[s] == start.scopes@[s] by {
                    assert(self.scopes@[s] == mid.scopes@[s]);
                }
            }
        }
    }

    /// Helper to load all of core's types: the built-ins with their namespaces, the unknown type,
    /// then the boundaries.
    pub(crate) fn load_core_types(&mut self, core_mod_id: ModuleId, core_scope_id: ScopeId)
        requires
            core_scope_id == 0,
            old(self).scopes.len() == 1,
            old(self).types.len() == 0,
            old(self).syms.len() == 0,
            old(self).variables.len() == 0,
            old(self).exprs.len() == 0,
            old(self).values.len() == 0,
            old(self).table(0) == Map::<InternedId, SymbolId>::empty(),
        ensures
            final(self).types.len() == CORE_BUILTIN_COUNT + 1 + CORE_BOUNDARY_COUNT,
            final(self).syms.len() == 163 + CORE_BOUNDARY_COUNT,
            final(self).scopes.len() == 12,
            final(self).variables.len() == 140,
            final(self).exprs.len() == 140,
            final(self).values.len() == 140,
            forall|i: int| 0 <= i < CORE_BUILTIN_COUNT ==> #[trigger] final(self).builtin_loaded(i, core_mod_id),
            final(self).types@[CORE_BUILTIN_COUNT as int] == (TypeInfo { ty: Type::Unknown, owner: core_mod_id }),
            forall|j: int| 0 <= j < CORE_BOUNDARY_COUNT ==> #[trigger] final(self).boundary_loaded(j, core_mod_id),
            final(self).table(0) == spec_core_table((CORE_BUILTIN_COUNT + CORE_BOUNDARY_COUNT) as int),
            final(self).extends_arenas(old(self), 0),
            final(self).mods == old(self).mods,
            final(self).directives == old(self).directives,
            final(self).intrinsic_registry == old(self).intrinsic_registry,
            final(self).resolver_state == old(self).resolver_state,
            final(self).bind == old(self).bind,
    {
        let ghost start = *self;
        let dataset = core_builtin_types_dataset();
        let n = dataset.len();
        let mut i: usize = 0;
        proof {
            lemma_core_reservation_totals();
            lemma_extends_refl(&start, 0);
            assert(start.types@.take(0) =~= start.types@);
        }
        while i < n
            invariant
                n == CORE_BUILTIN_COUNT,
                n == dataset.len(),
                0 <= i <= n,
                forall|k: int|
                    0 <= k < CORE_BUILTIN_COUNT ==> {
                        &&& (#[trigger] dataset@[k]).0 == spec_core_builtin_names()[k]
                        &&& dataset@[k].1 == spec_core_builtin_types()[k]
                        &&& dataset@[k].2@ == spec_core_builtin_namespace(k)
                    },
                spec_core_ns_symbols(CORE_BUILTIN_COUNT as int) == 140,
                spec_core_ns_scopes(CORE_BUILTIN_COUNT as int) == 11,
                spec_core_ns_variables(CORE_BUILTIN_COUNT as int) == 140,
                core_scope_id == 0,
                start.scopes.len() == 1,
                start.types.len() == 0,
                self.types.len() == i,
                self.syms.len() == spec_builtin_sym(i as int),
                self.scopes.len() == spec_builtin_scope(i as int),
                self.variables.len() == spec_builtin_var(i as int),
                self.exprs.len() == spec_builtin_var(i as int),
                self.values.len() == spec_builtin_var(i as int),
                forall|k: int| 0 <= k < i ==> #[trigger] self.builtin_loaded(k, core_mod_id),
                self.table(0) == spec_core_table(i as int),
                self.extends_arenas(&start, 0),
                self.mods == start.mods,
                self.directives == start.directives,
                self.intrinsic_registry == start.intrinsic_registry,
                self.resolver_state == start.resolver_state,
                self.bind == start.bind,
            decreases n - i,
        {
            let ghost prev = *self;
            proof {
                lemma_builtin_step(i as int);
                lemma_core_ns_monotone(i as int + 1, CORE_BUILTIN_COUNT as int);
            }
            let entry = &dataset[i];
            self.register_builtin(entry.0, entry.1, entry.2.as_slice(), core_scope_id, core_mod_id);
            proof {
                assert(self.types@.take(prev.types.len() as int) =~= prev.types@);
                assert(self.builtin_loaded(i as int, core_mod_id));
                assert forall|k: int| 0 <= k < i implies #[trigger] self.builtin_loaded(k, core_mod_id) by {
                    lemma_builtin_step(k);
                    lemma_core_ns_monotone(k + 1, i as int);
                    lemma_builtin_loaded_persists(&prev, self, k, core_mod_id);
                }
                lemma_extends_trans(&start, &prev, self, 0);
            }
            i += 1;
        }

        // Is a special cookie because you're not supposed to be able to instantiate an `Unknown`
        // type on purpose. This is just a compiler internal type.
        let ghost before_unknown = *self;
        self.types.push(TypeInfo::new(Type::Unknown, core_mod_id));
        proof {
            assert(self.types@.take(before_unknown.types.len() as int) =~= before_unknown.types@);
            assert(self.syms@.take(self.syms.len() as int) =~= self.syms@);
            assert(self.variables@.take(self.variables.len() as int) =~= self.variables@);
            assert(self.exprs@.take(self.exprs.len() as int) =~= self.exprs@);
            assert(self.values@.take(self.values.len() as int) =~= self.values@);
            assert(self.extends_arenas(&before_unknown, 0));
            lemma_extends_trans(&start, &before_unknown, self, 0);
            assert forall|k: int| 0 <= k < CORE_BUILTIN_COUNT implies #[trigger] self.builtin_loaded(k, core_mod_id) by {
                lemma_builtin_step(k);
                lemma_core_ns_monotone(k + 1, CORE_BUILTIN_COUNT as int);
                lemma_builtin_loaded_persists(&before_unknown, self, k, core_mod_id);
            }
        }

        let boundaries = core_boundaries_dataset();
        let m = boundaries.len();
        let mut j: usize = 0;
        let ghost after_builtins = *self;
        while j < m
            invariant
                m == CORE_BOUNDARY_COUNT,
                boundaries@ == spec_core_boundaries(),
                0 <= j <= m,
                core_scope_id == 0,
                after_builtins.types.len() == CORE_BUILTIN_COUNT + 1,
                after_builtins.syms.len() == 163,
                after_builtins.scopes.len() == 12,
                after_builtins.variables.len() == 140,
                after_builtins.exprs.len() == 140,
                after_builtins.values.len() == 140,
                after_builtins.types@[CORE_BUILTIN_COUNT as int] == (TypeInfo { ty: Type::Unknown, owner: core_mod_id }),
                forall|k: int| 0 <= k < CORE_BUILTIN_COUNT ==> #[trigger] after_builtins.builtin_loaded(k, core_mod_id),
                after_builtins.extends_arenas(&start, 0),
                after_builtins.table(0) == spec_core_table(CORE_BUILTIN_COUNT as int),
                self.types.len() == CORE_BUILTIN_COUNT + 1 + j,
                self.types@.take(after_builtins.types.len() as int) == after_builtins.types@,
                self.syms.len() == 163 + j,
                self.syms@.take(163) == after_builtins.syms@,
                self.scopes.len() == 12,
                forall|s: int| 1 <= s < 12 ==> #[trigger] self.scopes@[s] == after_builtins.scopes@[s],
                self.scope_same_but_table(&after_builtins, 0),
                self.variables == after_builtins.variables,
                self.exprs == after_builtins.exprs,
                self.values == after_builtins.values,
                forall|k: int| 0 <= k < j ==> #[trigger] self.boundary_loaded(k, core_mod_id),
                self.table(0) == spec_core_table(CORE_BUILTIN_COUNT + j),
                self.mods == start.mods,
                self.directives == start.directives,
                self.intrinsic_registry == start.intrinsic_registry,
                self.resolver_state == start.resolver_state,
                self.bind == start.bind,
            decreases m - j,
        {
            let ghost prev = *self;
            let (name_id, flags) = boundaries[j];
            self.register_boundary(name_id, flags, core_scope_id, core_mod_id);
            proof {
                assert(self.types@.take(after_builtins.types.len() as int) =~= prev.types@.take(after_builtins.types.len() as int));
                assert(self.syms@.take(163) =~= prev.syms@.take(163));
                assert forall|k: int| 0 <= k <= j implies #[trigger] self.boundary_loaded(k, core_mod_id) by {
                    if k < j {
                        assert(prev.boundary_loaded(k, core_mod_id));
                        assert(self.types@[CORE_BUILTIN_COUNT + 1 + k] == prev.types@[CORE_BUILTIN_COUNT + 1 + k]);
                        assert(self.syms@[163 + k] == prev.syms@[163 + k]);
                    }
                }
            }
            j += 1;
        }
        proof {
            assert(self.syms@.take(start.syms.len() as int) =~= start.syms@);
            assert(self.variables@.take(start.variables.len() as int) =~= start.variables@);
            assert(self.exprs@.take(start.exprs.len() as int) =~= start.exprs@);
            assert(self.values@.take(start.values.len() as int) =~= start.values@);
            assert(self.types@[CORE_BUILTIN_COUNT as int] == after_builtins.types@[CORE_BUILTIN_COUNT as int]);
            assert forall|k: int| 0 <= k < CORE_BUILTIN_COUNT implies #[trigger] self.builtin_loaded(k, core_mod_id) by {
                lemma_builtin_step(k);
                lemma_core_ns_monotone(k + 1, CORE_BUILTIN_COUNT as int);
                assert(self.types@.take(after_builtins.types.len() as int)[k] == self.types@[k]);
                assert(self.syms@.take(163)[spec_builtin_sym(k)] == self.syms@[spec_builtin_sym(k)]);
                assert(after_builtins.builtin_loaded(k, core_mod_id));
                let ns = spec_core_builtin_namespace(k);
                if ns.len() > 0 {
                    let scope = spec_builtin_scope(k);
                    assert(self.scopes@[scope] == after_builtins.scopes@[scope]);
                    assert forall|jj: int| 0 <= jj < ns.len() implies #[trigger] self.registered_base(
                        ns, jj, spec_builtin_sym(k) + 1, scope + 1, spec_builtin_var(k), spec_builtin_var(k), spec_builtin_var(k),
                    ) by {
                        lemma_index_bounds(ns, jj, ns.len() as int);
                        assert(ns.take(ns.len() as int) =~= ns);
                        let sid = spec_builtin_sym(k) + 1 + spec_symbol_count(ns.take(jj));
                        assert(self.syms@.take(163)[sid] == self.syms@[sid]);
                        assert(after_builtins.registered_base(ns, jj, spec_builtin_sym(k) + 1, scope + 1, spec_builtin_var(k), spec_builtin_var(k), spec_builtin_var(k)));
                    }
                }
            }
        }
    }

    /// Registers a single core boundary type and pushes it.
    fn register_boundary(
        &mut self,
        name_id: InternedId,
        flags: TypeBoundaryFlags,
        core_scope_id: ScopeId,
        core_mod_id: ModuleId,
    )
        requires
            core_scope_id < old(self).scopes.len(),
            old(self).types.len() < u32::MAX,
            old(self).syms.len() < u32::MAX,
        ensures
            final(self).types@ == old(self).types@.push(
                TypeInfo { ty: Type::Boundaries(flags), owner: core_mod_id },
            ),
            final(self).syms@ == old(self).syms@.push(
                spec_core_type_symbol(
                    name_id,
                    old(self).syms.len() as SymbolId,
                    core_mod_id,
                    None,
                    old(self).types.len() as TypeId,
                ),
            ),
            final(self).table(core_scope_id as int) == old(self).table(core_scope_id as int).insert(
                name_id,
                old(self).syms.len() as SymbolId,
            ),
            final(self).scopes.len() == old(self).scopes.len(),
            final(self).scope_same_but_table(old(self), core_scope_id as int),
            forall|s: int|
                0 <= s < old(self).scopes.len() && s != core_scope_id ==> #[trigger] final(self).scopes@[s]
                    == old(self).scopes@[s],
            final(self).variables == old(self).variables,
            final(self).exprs == old(self).exprs,
            final(self).values == old(self).values,
            final(self).mods == old(self).mods,
            final(self).directives == old(self).directives,
            final(self).intrinsic_registry == old(self).intrinsic_registry,
            final(self).resolver_state == old(self).resolver_state,
            final(self).bind == old(self).bind,
    {
        let type_id = self.types.len() as u32;
        let sym_id = self.syms.len() as u32;

        self.types.push(TypeInfo::new(Type::Boundaries(flags), core_mod_id));
        let sym = Symbol::new(
            name_id,
            sym_id,
            None,
            SymbolOrigin::Module(core_mod_id),
            false,
            None,
            ScopeType::Core,
            SymbolKind::Type(type_id),
        );

        self.syms.push(sym);
        self.bind_in_scope(core_scope_id, name_id, sym_id);
    }

    /// Registers a single core function and pushes it.
    pub(crate) fn register_core_func(&mut self, core_func: &CoreFunc, scope_id: ScopeId, core_mod_id: ModuleId)
        requires
            scope_id < old(self).scopes.len(),
            old(self).types.len() < u32::MAX,
            old(self).syms.len() < u32::MAX,
        ensures
            final(self).types.len() == old(self).types.len() + 1,
            final(self).types@.drop_last() == old(self).types@,
            final(self).types@.last().owner == core_mod_id,
            final(self).types@.last().ty matches Type::Func(f) && {
                &&& f.self_id == old(self).syms.len()
                &&& f.name_id == core_func.name
                &&& f.kind == core_func.kind
                &&& f.type_constraints == core_func.type_constraints
                &&& f.arg_constraints@ == core_func.arg_constraints@
                &&& f.affects_type_constraint == core_func.affects_type_constraint
                &&& f.ret_type == core_func.ret_type
            },
            final(self).syms@ == old(self).syms@.push(
                spec_core_type_symbol(
                    core_func.name,
                    old(self).syms.len() as SymbolId,
                    core_mod_id,
                    None,
                    old(self).types.len() as TypeId,
                ),
            ),
            final(self).table(scope_id as int) == old(self).table(scope_id as int).insert(
                core_func.name,
                old(self).syms.len() as SymbolId,
            ),
            final(self).scopes.len() == old(self).scopes.len(),
            final(self).scope_same_but_table(old(self), scope_id as int),
            forall|s: int|
                0 <= s < old(self).scopes.len() && s != scope_id ==> #[trigger] final(self).scopes@[s]
                    == old(self).scopes@[s],
            final(self).variables == old(self).variables,
            final(self).exprs == old(self).exprs,
            final(self).values == old(self).values,
            final(self).mods == old(self).mods,
            final(self).directives == old(self).directives,
            final(self).intrinsic_registry == old(self).intrinsic_registry,
            final(self).resolver_state == old(self).resolver_state,
            final(self).bind == old(self).bind,
    {
        let type_id = self.types.len() as u32;
        let sym_id = self.syms.len() as u32;
        let name_id = core_func.name;

        let mut arg_constraints: Vec<ArgConstraint> = Vec::new();
        let mut i: usize = 0;
        while i < core_func.arg_constraints.len()
            invariant
                0 <= i <= core_func.arg_constraints.len(),
                arg_constraints@ == core_func.arg_constraints@.take(i as int),
            decreases core_func.arg_constraints.len() - i,
        {
            arg_constraints.push(core_func.arg_constraints[i]);
            proof {
                assert(core_func.arg_constraints@.take(i + 1) =~= core_func.arg_constraints@.take(i as int).push(core_func.arg_constraints@[i as int]));
            }
            i += 1;
        }
        proof {
            assert(core_func.arg_constraints@.take(i as int) =~= core_func.arg_constraints@);
        }

        let func_def = FuncDef {
            self_id: sym_id,
            name_id,
            kind: core_func.kind,
            type_constraints: core_func.type_constraints,
            arg_constraints,
            affects_type_constraint: core_func.affects_type_constraint,
            ret_type: core_func.ret_type,
        };

        self.types.push(TypeInfo::new(Type::Func(func_def), core_mod_id));

        let sym = Symbol::new(
            name_id,
            sym_id,
            None,
            SymbolOrigin::Module(core_mod_id),
            false,
            None,
            ScopeType::Core,
            SymbolKind::Type(type_id),
        );

        self.syms.push(sym);
        self.bind_in_scope(scope_id, name_id, sym_id);
    }
}


/// A table after binding `bases` binds the name of each of them.
pub proof fn lemma_bases_table_binds(bases: Seq<InstantiationSymbolBase>, sym0: int, j: int)
    requires
        0 <= j < bases.len(),
    ensures
        spec_bases_table(Map::empty(), bases, sym0).contains_key(bases[j].name_id),
    decreases bases.len(),
{
    if j < bases.len() - 1 {
        lemma_bases_table_binds(bases.drop_last(), sym0, j);
        assert(bases.drop_last()[j] == bases[j]);
    }
}

} // verus!
