//! The core module: its scope binding the built-in types, the boundaries and the core functions,
//! its exports, the import of it every module is given, and the directives every module knows.
use vstd::prelude::*;
use crate::compiler_consts::{directive_to_id_const, spec_directive_to_id, CORE_BOOL};
use crate::compiler_helpers::{directives_dataset, spec_directives, DIRECTIVE_COUNT};
use crate::core_helpers::{
    core_funcs_dataset, is_core_constant, lemma_constant_counts, lemma_core_namespace_is_constants,
    lemma_core_ns_monotone, lemma_core_reservation_totals, spec_core_builtin_namespace,
    spec_core_func_args, spec_core_func_constraints, spec_core_func_kinds, spec_core_func_names,
    CORE_BOUNDARY_COUNT, CORE_BUILTIN_COUNT, CORE_FUNC_COUNT,
};
use crate::core_loading::{
    lemma_bases_table_binds, lemma_builtin_loaded_persists, lemma_builtin_step, spec_builtin_scope,
    spec_builtin_sym, spec_builtin_var, spec_core_entry_count, spec_core_entry_name,
    spec_core_table, spec_core_type_symbol,
};
use crate::directives::DirectiveInline;
use crate::hir::{Symbol, SymbolKind, SymbolOrigin, Type, TypeInfo, VariableState};
use crate::ids::{ExprId, InternedId, ModuleId, ScopeId, SymbolId, TypeId, ValueId, VariableId};
use crate::instantiation_symbols::spec_to_val;
use crate::intern::{INTERNED_CORE, INTERNED_MAX_UPPER};
use crate::module::{Import, ImportKind, Module, ModuleState};
use crate::registration::spec_instantiation_type_id;
use crate::scopes::{Scope, ScopeInfo, ScopeType, Table};
use crate::script_compiler::ScriptCompiler;

verus! {

broadcast use vstd::std_specs::hash::group_hash_axioms;

/// `TypeId` of the first core function: after the built-ins, the unknown type and the boundaries.
pub open spec fn spec_first_func_type() -> int {
    (CORE_BUILTIN_COUNT + 1 + CORE_BOUNDARY_COUNT) as int
}

/// `SymbolId` of the first core function: after the built-ins, their namespace constants and the
/// boundaries.
pub open spec fn spec_first_func_sym() -> int {
    (CORE_BUILTIN_COUNT + 140 + CORE_BOUNDARY_COUNT) as int
}

impl ScriptCompiler {
    /// The core function at position `k` is loaded: its function type after the boundaries, and
    /// its symbol pointing at that type.
    pub open spec fn func_loaded(&self, k: int, core_mod_id: ModuleId) -> bool {
        let t = spec_first_func_type() + k;
        let s = spec_first_func_sym() + k;
        &&& self.types@[t].owner == core_mod_id
        &&& self.types@[t].ty matches Type::Func(f) && {
            &&& f.self_id == s
            &&& f.name_id == spec_core_func_names()[k]
            &&& f.kind == spec_core_func_kinds()[k]
            &&& f.type_constraints.bits == spec_core_func_constraints()[k]
            &&& f.arg_constraints@ == spec_core_func_args(k)
            &&& f.affects_type_constraint
            &&& f.ret_type == CORE_BOOL
        }
        &&& self.syms@[s] == spec_core_type_symbol(
            spec_core_func_names()[k],
            s as u32,
            core_mod_id,
            None,
            t as TypeId,
        )
    }

    /// Helper to load all of core's functions and predicates, after its types.
    fn load_core_funcs(&mut self, core_mod_id: ModuleId, core_scope_id: ScopeId)
        requires
            core_scope_id == 0,
            old(self).scopes.len() == 12,
            old(self).types.len() == spec_first_func_type(),
            old(self).syms.len() == spec_first_func_sym(),
            old(self).table(0) == spec_core_table((CORE_BUILTIN_COUNT + CORE_BOUNDARY_COUNT) as int),
        ensures
            final(self).types.len() == spec_first_func_type() + CORE_FUNC_COUNT,
            final(self).types@.take(spec_first_func_type()) == old(self).types@,
            final(self).syms.len() == spec_first_func_sym() + CORE_FUNC_COUNT,
            final(self).syms@.take(spec_first_func_sym()) == old(self).syms@,
            forall|k: int| 0 <= k < CORE_FUNC_COUNT ==> #[trigger] final(self).func_loaded(k, core_mod_id),
            final(self).table(0) == spec_core_table(
                (CORE_BUILTIN_COUNT + CORE_BOUNDARY_COUNT + CORE_FUNC_COUNT) as int,
            ),
            final(self).scopes.len() == 12,
            final(self).scope_same_but_table(old(self), 0),
            forall|s: int| 1 <= s < 12 ==> #[trigger] final(self).scopes@[s] == old(self).scopes@[s],
            final(self).variables == old(self).variables,
            final(self).exprs == old(self).exprs,
            final(self).values == old(self).values,
            final(self).mods == old(self).mods,
            final(self).directives == old(self).directives,
            final(self).intrinsic_registry == old(self).intrinsic_registry,
            final(self).resolver_state == old(self).resolver_state,
            final(self).bind == old(self).bind,
    {
        let ghost start = *self;
        let funcs = core_funcs_dataset();
        let n = funcs.len();
        let mut i: usize = 0;
        while i < n
            invariant
                n == CORE_FUNC_COUNT,
                funcs.len() == n,
                forall|k: int|
                    0 <= k < CORE_FUNC_COUNT ==> {
                        &&& (#[trigger] funcs@[k]).name == spec_core_func_names()[k]
                        &&& funcs@[k].kind == spec_core_func_kinds()[k]
                        &&& funcs@[k].type_constraints.bits == spec_core_func_constraints()[k]
                        &&& funcs@[k].arg_constraints@ == spec_core_func_args(k)
                        &&& funcs@[k].affects_type_constraint
                        &&& funcs@[k].ret_type == CORE_BOOL
                    },
                0 <= i <= n,
                core_scope_id == 0,
                start.types.len() == spec_first_func_type(),
                start.syms.len() == spec_first_func_sym(),
                start.scopes.len() == 12,
                self.types.len() == spec_first_func_type() + i,
                self.types@.take(spec_first_func_type()) == start.types@,
                self.syms.len() == spec_first_func_sym() + i,
                self.syms@.take(spec_first_func_sym()) == start.syms@,
                forall|k: int| 0 <= k < i ==> #[trigger] self.func_loaded(k, core_mod_id),
                self.table(0) == spec_core_table((CORE_BUILTIN_COUNT + CORE_BOUNDARY_COUNT + i) as int),
                self.scopes.len() == 12,
                self.scope_same_but_table(&start, 0),
                forall|s: int| 1 <= s < 12 ==> #[trigger] self.scopes@[s] == start.scopes@[s],
                self.variables == start.variables,
                self.exprs == start.exprs,
                self.values == start.values,
                self.mods == start.mods,
                self.directives == start.directives,
                self.intrinsic_registry == start.intrinsic_registry,
                self.resolver_state == start.resolver_state,
                self.bind == start.bind,
            decreases n - i,
        {
            let ghost prev = *self;
            self.register_core_func(&funcs[i], core_scope_id, core_mod_id);
            proof {
                assert(self.types@.take(spec_first_func_type()) =~= prev.types@.take(spec_first_func_type()));
                assert(self.syms@.take(spec_first_func_sym()) =~= prev.syms@.take(spec_first_func_sym()));
                assert forall|k: int| 0 <= k <= i implies #[trigger] self.func_loaded(k, core_mod_id) by {
                    if k < i {
                        assert(prev.func_loaded(k, core_mod_id));
                        assert(self.types@[spec_first_func_type() + k] == prev.types@[spec_first_func_type() + k]);
                        assert(self.syms@[spec_first_func_sym() + k] == prev.syms@[spec_first_func_sym() + k]);
                    }
                }
            }
            i += 1;
        }
    }

    /// Everything core loads into its types, symbols and scopes: the built-ins with their
    /// namespaces, the unknown type, the boundaries, the functions, and the core scope binding
    /// each of their names.
    pub open spec fn core_loaded(&self, core_mod_id: ModuleId) -> bool {
        &&& self.types.len() >= spec_first_func_type() + CORE_FUNC_COUNT
        &&& self.syms.len() >= spec_first_func_sym() + CORE_FUNC_COUNT
        &&& self.scopes.len() >= 12
        &&& self.variables.len() >= 140
        &&& self.exprs.len() >= 140
        &&& self.values.len() >= 140
        &&& forall|i: int| 0 <= i < CORE_BUILTIN_COUNT ==> #[trigger] self.builtin_loaded(i, core_mod_id)
        &&& self.types@[CORE_BUILTIN_COUNT as int] == (TypeInfo { ty: Type::Unknown, owner: core_mod_id })
        &&& forall|j: int| 0 <= j < CORE_BOUNDARY_COUNT ==> #[trigger] self.boundary_loaded(j, core_mod_id)
        &&& forall|k: int| 0 <= k < CORE_FUNC_COUNT ==> #[trigger] self.func_loaded(k, core_mod_id)
        &&& self.scopes@[0].scope.scope_id == 0
        &&& self.scopes@[0].scope.scope_type == ScopeType::Core
        &&& !self.scopes@[0].scope.is_intrinsic
        &&& self.scopes@[0].scope.intrinsic_scope == None::<ScopeId>
        &&& self.scopes@[0].sym_owner == None::<SymbolId>
        &&& self.scopes@[0].mod_owner == core_mod_id
        &&& self.table(0) == spec_core_table(spec_core_entry_count())
    }

    /// Loads the core module: its scope, its types and functions, and its exports; then gives
    /// every module, core included, an import of core and core's scope to search.
    pub(crate) fn load_core(&mut self)
        requires
            old(self).scopes.len() == 0,
            old(self).types.len() == 0,
            old(self).syms.len() == 0,
            old(self).variables.len() == 0,
            old(self).exprs.len() == 0,
            old(self).values.len() == 0,
            old(self).mods.len() < u32::MAX,
            old(self).intrinsic_registry.core_mod_id == old(self).mods.len(),
        ensures
            final(self).core_loaded(old(self).mods.len() as ModuleId),
            final(self).types.len() == spec_first_func_type() + CORE_FUNC_COUNT,
            final(self).syms.len() == spec_first_func_sym() + CORE_FUNC_COUNT,
            final(self).scopes.len() == 12,
            final(self).variables.len() == 140,
            final(self).exprs.len() == 140,
            final(self).values.len() == 140,
            final(self).mods.len() == old(self).mods.len() + 1,
            forall|m: int|
                0 <= m < old(self).mods.len() ==> {
                    &&& (#[trigger] final(self).mods@[m]).name_id == old(self).mods@[m].name_id
                    &&& final(self).mods@[m].state == old(self).mods@[m].state
                    &&& final(self).mods@[m].mod_id == old(self).mods@[m].mod_id
                    &&& final(self).mods@[m].imports@ == old(self).mods@[m].imports@.push(
                        spec_core_import(old(self).mods.len() as ModuleId),
                    )
                    &&& final(self).mods@[m].scopes@ == old(self).mods@[m].scopes@.push(0)
                    &&& final(self).mods@[m].exports@ == old(self).mods@[m].exports@
                },
            ({
                let core = final(self).mods@[old(self).mods.len() as int];
                &&& core.name_id == INTERNED_CORE
                &&& core.state == ModuleState::Loaded
                &&& core.mod_id == old(self).mods.len()
                &&& core.imports@ == seq![spec_core_import(old(self).mods.len() as ModuleId)]
                &&& core.scopes@ == seq![0u16, 0u16]
                &&& core.exports@.to_set() == final(self).table(0).values()
                &&& core.exports@.len() == final(self).table(0).dom().len()
            }),
            final(self).directives == old(self).directives,
            final(self).intrinsic_registry == old(self).intrinsic_registry,
            final(self).resolver_state == old(self).resolver_state,
            final(self).bind == old(self).bind,
    {
        let core_name_id: InternedId = INTERNED_CORE;
        let core_mod_id: ModuleId = self.mods.len() as u32;
        let core_scope_id: ScopeId = self.scopes.len() as u16;
        let core_scope = Scope::with_table(
            core_scope_id,
            ScopeType::Core,
            None,
            false,
            // No room for the unknown type: it has no identifier.
            Table::with_capacities(0, CORE_BUILTIN_COUNT + CORE_BOUNDARY_COUNT + CORE_FUNC_COUNT),
        );
        self.scopes.push(ScopeInfo::new(core_scope, None, core_mod_id));

        let mut core_mod = Module::new(core_name_id, ModuleState::Loaded, core_mod_id, Vec::new());
        core_mod.scopes.push(core_scope_id);

        self.load_core_types(core_mod_id, core_scope_id);
        let ghost after_types = *self;
        self.load_core_funcs(core_mod_id, core_scope_id);
        proof {
            assert(self.variables@.take(140) =~= after_types.variables@);
            assert(self.exprs@.take(140) =~= after_types.exprs@);
            assert(self.values@.take(140) =~= after_types.values@);
            lemma_core_types_persist(&after_types, self, core_mod_id);
            assert(self.core_loaded(core_mod_id));
        }
        let ghost loaded = *self;

        // Exporting all created symbols from core
        let table = &self.scopes[core_scope_id as usize].scope.table;
        let mut exports: Vec<SymbolId> = Vec::with_capacity(table.interned_to_sym.len());
        let values = table.interned_to_sym.values();
        let ghost all = vstd::std_specs::iter::IteratorSpec::remaining(&values);
        for sym_id in it: values
            invariant
                it.seq() == all,
                exports.len() == it.index(),
                forall|k: int| 0 <= k < it.index() ==> exports@[k] == *all[k],
        {
            exports.push(*sym_id);
        }
        proof {
            assert(exports@ =~= all.unref());
        }
        core_mod.exports = exports;
        self.mods.push(core_mod);

        let core_import = Import::new(core_name_id, ImportKind::Core(core_mod_id), None);
        // Injecting core as an import and pushing its scope so user modules can search it
        let n = self.mods.len();
        let mut m: usize = 0;
        let ghost pushed = self.mods@;
        while m < n
            invariant
                n == self.mods.len(),
                n == pushed.len(),
                0 <= m <= n,
                core_scope_id == 0,
                core_import == spec_core_import(core_mod_id),
                forall|k: int|
                    0 <= k < n ==> {
                        &&& (#[trigger] self.mods@[k]).name_id == pushed[k].name_id
                        &&& self.mods@[k].state == pushed[k].state
                        &&& self.mods@[k].mod_id == pushed[k].mod_id
                        &&& self.mods@[k].exports@ == pushed[k].exports@
                        &&& k < m ==> self.mods@[k].imports@ == pushed[k].imports@.push(core_import)
                        &&& k < m ==> self.mods@[k].scopes@ == pushed[k].scopes@.push(0)
                        &&& k >= m ==> self.mods@[k].imports@ == pushed[k].imports@
                        &&& k >= m ==> self.mods@[k].scopes@ == pushed[k].scopes@
                    },
                self.types == loaded.types,
                self.syms == loaded.syms,
                self.scopes == loaded.scopes,
                self.variables == loaded.variables,
                self.exprs == loaded.exprs,
                self.values == loaded.values,
                self.directives == loaded.directives,
                self.intrinsic_registry == loaded.intrinsic_registry,
                self.resolver_state == loaded.resolver_state,
                self.bind == loaded.bind,
            decreases n - m,
        {
            self.mods[m].imports.push(core_import);
            self.mods[m].scopes.push(core_scope_id);
            m += 1;
        }
        proof {
            assert(self.syms@.take(self.syms.len() as int) =~= loaded.syms@);
            assert(self.types@.take(self.types.len() as int) =~= loaded.types@);
            assert(self.variables@.take(self.variables.len() as int) =~= loaded.variables@);
            assert(self.exprs@.take(self.exprs.len() as int) =~= loaded.exprs@);
            assert(self.values@.take(self.values.len() as int) =~= loaded.values@);
            lemma_core_loaded_persists(&loaded, self, core_mod_id);
        }
    }
}

/// The import of core every module is given.
pub open spec fn spec_core_import(core_mod_id: ModuleId) -> Import {
    Import { name_id: INTERNED_CORE, kind: ImportKind::Core(core_mod_id), alias_id: None }
}

/// What core loaded into its types, symbols and namespace scopes stays loaded while later
/// loading only appends to the arenas and changes no scope of `c1` but the core scope's table.
pub proof fn lemma_core_types_persist(c1: &ScriptCompiler, c2: &ScriptCompiler, core_mod_id: ModuleId)
    requires
        forall|i: int| 0 <= i < CORE_BUILTIN_COUNT ==> #[trigger] c1.builtin_loaded(i, core_mod_id),
        c1.types@[CORE_BUILTIN_COUNT as int] == (TypeInfo { ty: Type::Unknown, owner: core_mod_id }),
        forall|j: int| 0 <= j < CORE_BOUNDARY_COUNT ==> #[trigger] c1.boundary_loaded(j, core_mod_id),
        c1.types.len() >= spec_first_func_type(),
        c1.syms.len() >= spec_first_func_sym(),
        c1.scopes.len() >= 12,
        c1.variables.len() >= 140,
        c1.exprs.len() >= 140,
        c1.values.len() >= 140,
        c2.extends_arenas(c1, 0),
        c1.types.len() <= c2.types.len(),
        c2.types@.take(c1.types.len() as int) == c1.types@,
        c2.intrinsic_registry == c1.intrinsic_registry,
    ensures
        forall|i: int| 0 <= i < CORE_BUILTIN_COUNT ==> #[trigger] c2.builtin_loaded(i, core_mod_id),
        c2.types@[CORE_BUILTIN_COUNT as int] == (TypeInfo { ty: Type::Unknown, owner: core_mod_id }),
        forall|j: int| 0 <= j < CORE_BOUNDARY_COUNT ==> #[trigger] c2.boundary_loaded(j, core_mod_id),
{
    lemma_core_reservation_totals();
    assert forall|i: int| 0 <= i < CORE_BUILTIN_COUNT implies #[trigger] c2.builtin_loaded(i, core_mod_id) by {
        lemma_builtin_step(i);
        lemma_core_ns_monotone(i + 1, CORE_BUILTIN_COUNT as int);
        lemma_builtin_loaded_persists(c1, c2, i, core_mod_id);
    }
    assert(c2.types@.take(c1.types.len() as int)[CORE_BUILTIN_COUNT as int] == c2.types@[CORE_BUILTIN_COUNT as int]);
    assert forall|j: int| 0 <= j < CORE_BOUNDARY_COUNT implies #[trigger] c2.boundary_loaded(j, core_mod_id) by {
        assert(c1.boundary_loaded(j, core_mod_id));
        assert(c2.types@.take(c1.types.len() as int)[CORE_BUILTIN_COUNT + 1 + j] == c2.types@[CORE_BUILTIN_COUNT + 1 + j]);
        assert(c2.syms@.take(c1.syms.len() as int)[163 + j] == c2.syms@[163 + j]);
    }
}

/// Everything core loaded stays loaded while later loading only appends to the arenas, keeps the
/// core scope's table, and changes no other scope core created.
pub proof fn lemma_core_loaded_persists(c1: &ScriptCompiler, c2: &ScriptCompiler, core_mod_id: ModuleId)
    requires
        c1.core_loaded(core_mod_id),
        c2.extends_arenas(c1, 0),
        c1.types.len() <= c2.types.len(),
        c2.types@.take(c1.types.len() as int) == c1.types@,
        c2.table(0) == c1.table(0),
        c2.intrinsic_registry == c1.intrinsic_registry,
    ensures
        c2.core_loaded(core_mod_id),
{
    lemma_core_types_persist(c1, c2, core_mod_id);
    assert forall|k: int| 0 <= k < CORE_FUNC_COUNT implies #[trigger] c2.func_loaded(k, core_mod_id) by {
        assert(c1.func_loaded(k, core_mod_id));
        assert(c2.types@.take(c1.types.len() as int)[spec_first_func_type() + k] == c2.types@[spec_first_func_type() + k]);
        assert(c2.syms@.take(c1.syms.len() as int)[spec_first_func_sym() + k] == c2.syms@[spec_first_func_sym() + k]);
    }
}

/// The `e`th name core binds: the built-ins take the identifiers from 0, the boundaries and the
/// functions those after `core` and `unknown`.
proof fn lemma_core_entry_name(e: int)
    requires
        0 <= e < spec_core_entry_count(),
    ensures
        spec_core_entry_name(e) == if e < CORE_BUILTIN_COUNT { e } else { e + 2 },
{
    if e == 0 {
    } else if e == 1 {
    } else if e == 2 {
    } else if e == 3 {
    } else if e == 4 {
    } else if e == 5 {
    } else if e == 6 {
    } else if e == 7 {
    } else if e == 8 {
    } else if e == 9 {
    } else if e == 10 {
    } else if e == 11 {
    } else if e == 12 {
    } else if e == 13 {
    } else if e == 14 {
    } else if e == 15 {
    } else if e == 16 {
    } else if e == 17 {
    } else if e == 18 {
    } else if e == 19 {
    } else if e == 20 {
    } else if e == 21 {
    } else if e == 22 {
    } else if e == 23 {
    } else if e == 24 {
    } else if e == 25 {
    } else if e == 26 {
    } else if e == 27 {
    } else if e == 28 {
    } else if e == 29 {
    } else if e == 30 {
    } else if e == 31 {
    } else if e == 32 {
    } else if e == 33 {
    } else if e == 34 {
    } else if e == 35 {
    } else if e == 36 {
    } else if e == 37 {
    } else if e == 38 {
    } else if e == 39 {
    }
}

/// Upper bound of the names core binds first `k`.
spec fn spec_core_name_bound(k: int) -> int {
    if k <= CORE_BUILTIN_COUNT { k } else { k + 2 }
}

/// The core scope's table after `k` bindings holds `k` distinct names, each below the next one
/// core binds.
proof fn lemma_core_table_len(k: int)
    requires
        0 <= k <= spec_core_entry_count(),
    ensures
        spec_core_table(k).dom().finite(),
        spec_core_table(k).dom().len() == k,
        forall|x: InternedId| #[trigger] spec_core_table(k).dom().contains(x) ==> x < spec_core_name_bound(k),
    decreases k,
{
    if k > 0 {
        lemma_core_table_len(k - 1);
        lemma_core_entry_name(k - 1);
    }
}

/// The core scope binds every one of core's built-ins, boundaries and functions under a name of
/// its own.
pub proof fn lemma_core_table_size()
    ensures
        spec_core_table(spec_core_entry_count()).dom().len() == spec_core_entry_count(),
{
    lemma_core_table_len(spec_core_entry_count());
}

/// The symbol of the directive `directive` named `name_id`: a compiler symbol that no scope
/// binds.
pub open spec fn spec_directive_symbol(name_id: InternedId, sym_id: SymbolId, directive: DirectiveInline) -> Symbol {
    Symbol {
        name_id,
        self_id: sym_id,
        ast_id: None,
        sym_origin: SymbolOrigin::Compiler,
        is_priv: false,
        associated_scope: None,
        scope_origin: ScopeType::Compiler,
        kind: SymbolKind::Directive(spec_directive_to_id(directive)),
    }
}

impl ScriptCompiler {
    /// Registers the directive `directive` named `interned_id`: its symbol, and the directive at
    /// the position its `DirectiveId` names.
    fn register_directive(&mut self, interned_id: InternedId, directive: DirectiveInline)
        requires
            spec_directive_to_id(directive) == old(self).directives.len(),
            old(self).syms.len() < u32::MAX,
        ensures
            final(self).syms@ == old(self).syms@.push(
                spec_directive_symbol(interned_id, old(self).syms.len() as SymbolId, directive),
            ),
            final(self).directives@ == old(self).directives@.push(directive),
            final(self).mods == old(self).mods,
            final(self).types == old(self).types,
            final(self).values == old(self).values,
            final(self).exprs == old(self).exprs,
            final(self).variables == old(self).variables,
            final(self).scopes == old(self).scopes,
            final(self).intrinsic_registry == old(self).intrinsic_registry,
            final(self).resolver_state == old(self).resolver_state,
            final(self).bind == old(self).bind,
    {
        let sym_id = self.syms.len() as u32;
        let directive_id = directive_to_id_const(&directive);
        let sym = Symbol::new(
            interned_id,
            sym_id,
            None,
            SymbolOrigin::Compiler,
            false,
            None,
            ScopeType::Compiler,
            SymbolKind::Directive(directive_id),
        );
        self.syms.push(sym);
        self.directives.push(directive);
    }

    /// Loads all compiler known directives, in the order of their `DirectiveId`s.
    pub(crate) fn load_directives(&mut self)
        requires
            old(self).directives.len() == 0,
            old(self).syms.len() + DIRECTIVE_COUNT <= u32::MAX,
        ensures
            final(self).directives@ == spec_directives().map_values(|e: (u32, DirectiveInline)| e.1),
            final(self).syms.len() == old(self).syms.len() + DIRECTIVE_COUNT,
            final(self).syms@.take(old(self).syms.len() as int) == old(self).syms@,
            forall|k: int|
                0 <= k < DIRECTIVE_COUNT ==> #[trigger] final(self).syms@[old(self).syms.len() + k]
                    == spec_directive_symbol(
                    spec_directives()[k].0,
                    (old(self).syms.len() + k) as SymbolId,
                    spec_directives()[k].1,
                ),
            final(self).mods == old(self).mods,
            final(self).types == old(self).types,
            final(self).values == old(self).values,
            final(self).exprs == old(self).exprs,
            final(self).variables == old(self).variables,
            final(self).scopes == old(self).scopes,
            final(self).intrinsic_registry == old(self).intrinsic_registry,
            final(self).resolver_state == old(self).resolver_state,
            final(self).bind == old(self).bind,
    {
        let ghost start = *self;
        let dataset = directives_dataset();
        let n = dataset.len();
        let mut i: usize = 0;
        while i < n
            invariant
                n == DIRECTIVE_COUNT,
                dataset@ == spec_directives(),
                0 <= i <= n,
                start.syms.len() + DIRECTIVE_COUNT <= u32::MAX,
                self.directives@ == spec_directives().take(i as int).map_values(|e: (u32, DirectiveInline)| e.1),
                self.syms.len() == start.syms.len() + i,
                self.syms@.take(start.syms.len() as int) == start.syms@,
                forall|k: int|
                    0 <= k < i ==> #[trigger] self.syms@[start.syms.len() + k] == spec_directive_symbol(
                        spec_directives()[k].0,
                        (start.syms.len() + k) as SymbolId,
                        spec_directives()[k].1,
                    ),
                self.mods == start.mods,
                self.types == start.types,
                self.values == start.values,
                self.exprs == start.exprs,
                self.variables == start.variables,
                self.scopes == start.scopes,
                self.intrinsic_registry == start.intrinsic_registry,
                self.resolver_state == start.resolver_state,
                self.bind == start.bind,
            decreases n - i,
        {
            let ghost prev = *self;
            let (name_id, directive) = dataset[i];
            proof {
                assert(spec_directive_to_id(spec_directives()[i as int].1) == i);
            }
            self.register_directive(name_id, directive);
            proof {
                assert(spec_directives().take(i + 1).map_values(|e: (u32, DirectiveInline)| e.1) =~= spec_directives().take(
                    i as int,
                ).map_values(|e: (u32, DirectiveInline)| e.1).push(directive));
                assert(self.syms@.take(start.syms.len() as int) =~= prev.syms@.take(start.syms.len() as int));
                assert forall|k: int| 0 <= k <= i implies #[trigger] self.syms@[start.syms.len() + k] == spec_directive_symbol(
                    spec_directives()[k].0,
                    (start.syms.len() + k) as SymbolId,
                    spec_directives()[k].1,
                ) by {
                    if k < i {
                        assert(self.syms@[start.syms.len() + k] == prev.syms@[start.syms.len() + k]);
                    }
                }
            }
            i += 1;
        }
        proof {
            assert(spec_directives().take(n as int) =~= spec_directives());
        }
    }
}

/// The constants of the built-ins' namespaces, such as `i8::MAX`, are reached through their
/// built-in only: the core scope binds none of their names.
pub proof fn lemma_core_constants_outside_core_scope(c: &ScriptCompiler, core_mod_id: ModuleId, i: int, j: int)
    requires
        c.core_loaded(core_mod_id),
        0 <= i < CORE_BUILTIN_COUNT,
        0 <= j < spec_core_builtin_namespace(i).len(),
    ensures
        !c.table(0).contains_key(spec_core_builtin_namespace(i)[j].name_id),
{
    lemma_core_table_len(spec_core_entry_count());
    let ns = spec_core_builtin_namespace(i);
    assert(ns[j].name_id >= INTERNED_MAX_UPPER);
}

/// Each constant of a built-in's namespace, such as `i8::MAX`, is a variable symbol bound in the
/// built-in's scope; the variable, its value and the expression holding the value point at each
/// other, and the value is typed by the constant's declared type.
pub proof fn lemma_core_constant_links(c: &ScriptCompiler, core_mod_id: ModuleId, i: int, j: int)
    requires
        c.core_loaded(core_mod_id),
        0 <= i < CORE_BUILTIN_COUNT,
        0 <= j < spec_core_builtin_namespace(i).len(),
    ensures
        ({
            let ns = spec_core_builtin_namespace(i);
            let scope = spec_builtin_scope(i);
            let sym = spec_builtin_sym(i) + 1 + j;
            let var = spec_builtin_var(i) + j;
            let declared = ns[j].kind->Variable_0;
            &&& c.table(scope).contains_key(ns[j].name_id)
            &&& c.syms@[sym].name_id == ns[j].name_id
            &&& c.syms@[sym].kind == SymbolKind::Variable(var as VariableId)
            &&& c.variables@[var].self_id == sym as SymbolId
            &&& c.variables@[var].state == VariableState::Known(var as ValueId)
            &&& c.values@[var].expr_id == var as ExprId
            &&& c.values@[var].type_id == spec_instantiation_type_id(declared.ty)
            &&& c.values@[var].const_val == Some(spec_to_val(declared.val))
            &&& c.exprs@[var].val_id == var as ValueId
            &&& c.exprs@[var].type_id == c.values@[var].type_id
        }),
{
    let ns = spec_core_builtin_namespace(i);
    assert(c.builtin_loaded(i, core_mod_id));
    lemma_core_namespace_is_constants(i);
    assert forall|m: int| 0 <= m < ns.take(j).len() implies #[trigger] is_core_constant(ns.take(j)[m]) by {
        assert(ns.take(j)[m] == ns[m]);
        assert(is_core_constant(ns[m]));
    }
    lemma_constant_counts(ns.take(j));
    assert(is_core_constant(ns[j]));
    let scope = spec_builtin_scope(i);
    let sym = spec_builtin_sym(i) + 1;
    assert(c.registered_base(
        ns,
        j,
        sym,
        scope + 1,
        spec_builtin_var(i),
        spec_builtin_var(i),
        spec_builtin_var(i),
    ));
    lemma_bases_table_binds(ns, sym, j);
}

} // verus!
