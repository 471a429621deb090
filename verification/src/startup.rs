//! Startup of the compiler: the arenas are reserved, core is loaded with its directives, and every
//! module is given the symbols that make its imports reachable.
use vstd::prelude::*;
use crate::compiler_helpers::{spec_directives, DIRECTIVE_COUNT};
use crate::core_helpers::{
    core_instantiation_reservations, lemma_core_reservation_totals, CORE_BOUNDARY_COUNT,
    CORE_BUILTIN_COUNT, CORE_FUNC_COUNT,
};
use crate::core_loading::spec_core_entry_count;
use crate::core_module::{
    lemma_core_loaded_persists, lemma_core_table_size, spec_core_import, spec_directive_symbol,
    spec_first_func_sym, spec_first_func_type,
};
use crate::directives::DirectiveInline;
use crate::ids::{ModuleId, ScopeId, SymbolId};
use crate::intern::INTERNED_CORE;
use crate::module::{Bind, Module, ModuleState};
use crate::module_symbols::{lemma_module_entries_len, spec_mod_entries, spec_module_symbol_total};
use crate::scopes::{IntrinsicRegistry, ScopeType};
use crate::script_compiler::{ResolverState, ScriptCompiler};

verus! {

broadcast use vstd::std_specs::hash::group_hash_axioms;

/// Number of imports the modules of `mods` hold.
pub open spec fn spec_import_total(mods: Seq<Module>) -> nat
    decreases mods.len(),
{
    if mods.len() == 0 {
        0
    } else {
        spec_import_total(mods.drop_last()) + mods.last().imports@.len()
    }
}

/// Modules never bind more identifiers than their names and imports.
proof fn lemma_module_total_bound(mods: Seq<Module>)
    ensures
        spec_module_symbol_total(mods) <= spec_import_total(mods) + mods.len(),
    decreases mods.len(),
{
    if mods.len() > 0 {
        lemma_module_total_bound(mods.drop_last());
        let last = mods.last();
        lemma_module_entries_len(last.name_id, last.mod_id, last.imports@);
    }
}

/// Giving each module one more import adds one import per module.
proof fn lemma_import_total_grown(before: Seq<Module>, after: Seq<Module>)
    requires
        before.len() == after.len(),
        forall|m: int| 0 <= m < before.len() ==> (#[trigger] after[m]).imports.len() == before[m].imports.len() + 1,
    ensures
        spec_import_total(after) == spec_import_total(before) + before.len(),
    decreases before.len(),
{
    if before.len() > 0 {
        lemma_import_total_grown(before.drop_last(), after.drop_last());
    }
}

impl ScriptCompiler {
    /// Loads the core library and builds the script specific compiler for `mods`, the modules the
    /// module graph found, whose ids are their positions. Core becomes the module after them; every
    /// module, core included, imports core and searches its scope; the directives follow core's
    /// symbols; then every module gets the symbols that make its name and imports reachable.
    pub fn init(bind: Option<Bind>, mods: Vec<Module>) -> (res: ScriptCompiler)
        requires
            forall|m: int| 0 <= m < mods.len() ==> (#[trigger] mods@[m]).mod_id == m,
            forall|m: int| 0 <= m < mods.len() ==> (#[trigger] mods@[m]).scopes.len() == 0,
            forall|m: int, k: int|
                0 <= m < mods.len() && 0 <= k < mods@[m].imports.len() ==> (
                #[trigger] mods@[m].imports@[k]).kind !is UnresolvedSource,
            mods.len() + 13 < u16::MAX,
            spec_import_total(mods@) + 2 * mods.len() + 200 < u32::MAX,
        ensures
            res.bind == bind,
            res.resolver_state == ResolverState::Namespace,
            res.intrinsic_registry == (IntrinsicRegistry { core_mod_id: mods.len() as ModuleId, complex_scope_id: None }),
            res.core_loaded(mods.len() as ModuleId),
            res.types.len() == spec_first_func_type() + CORE_FUNC_COUNT,
            res.variables.len() == 140,
            res.exprs.len() == 140,
            res.values.len() == 140,
            res.directives@ == spec_directives().map_values(|e: (u32, DirectiveInline)| e.1),
            forall|k: int|
                0 <= k < DIRECTIVE_COUNT ==> #[trigger] res.syms@[spec_first_func_sym() + CORE_FUNC_COUNT + k]
                    == spec_directive_symbol(
                    spec_directives()[k].0,
                    (spec_first_func_sym() + CORE_FUNC_COUNT + k) as SymbolId,
                    spec_directives()[k].1,
                ),
            res.mods.len() == mods.len() + 1,
            forall|m: int|
                0 <= m < mods.len() ==> {
                    &&& (#[trigger] res.mods@[m]).name_id == mods@[m].name_id
                    &&& res.mods@[m].state == mods@[m].state
                    &&& res.mods@[m].mod_id == m
                    &&& res.mods@[m].imports@ == mods@[m].imports@.push(spec_core_import(mods.len() as ModuleId))
                    &&& res.mods@[m].scopes@ == seq![0u16, (12 + m) as ScopeId]
                    &&& res.mods@[m].exports@ == mods@[m].exports@
                },
            ({
                let core = res.mods@[mods.len() as int];
                &&& core.name_id == INTERNED_CORE
                &&& core.state == ModuleState::Loaded
                &&& core.mod_id == mods.len()
                &&& core.imports@ == seq![spec_core_import(mods.len() as ModuleId)]
                &&& core.scopes@ == seq![0u16, 0u16, (12 + mods.len()) as ScopeId]
                &&& core.exports@.to_set() == res.table(0).values()
                &&& core.exports@.len() == spec_core_entry_count()
            }),
            res.scopes.len() == 12 + mods.len() + 1,
            forall|m: int|
                0 <= m <= mods.len() ==> #[trigger] res.module_symbols_created(
                    res.mods@[m],
                    m,
                    12 + m,
                    spec_first_func_sym() + CORE_FUNC_COUNT + DIRECTIVE_COUNT + spec_module_symbol_total(res.mods@.take(m)),
                ),
            res.syms.len() == spec_first_func_sym() + CORE_FUNC_COUNT + DIRECTIVE_COUNT + spec_module_symbol_total(res.mods@),
            res.module_scopes_valid(),
    {
        // Core becomes the module after the given ones
        let core_mod_id = mods.len() as u32;
        let intrinsic_registry = IntrinsicRegistry::new(core_mod_id, None);

        // An alias replaces the import's name rather than adding a second identifier, so each
        // import is worth exactly one symbol.
        let mut import_len: usize = 0;
        let mut i: usize = 0;
        while i < mods.len()
            invariant
                0 <= i <= mods.len(),
                import_len == spec_import_total(mods@.take(i as int)),
                spec_import_total(mods@) + 2 * mods.len() + 200 < u32::MAX,
            decreases mods.len() - i,
        {
            proof {
                assert(mods@.take(i + 1).drop_last() =~= mods@.take(i as int));
                assert(mods@.take(i + 1).last() == mods@[i as int]);
                lemma_import_total_prefix(mods@, i + 1);
            }
            import_len += mods[i].imports.len();
            i += 1;
        }
        proof {
            assert(mods@.take(mods.len() as int) =~= mods@);
        }

        // `load_core` adds the implicit core module and one core import to every module,
        // including the implicit core module itself.
        let mod_count = mods.len() + 1;
        let import_count = import_len + mod_count;
        // Core does not give itself a symbol for its import of itself, but is counted in
        // `mod_count`
        let mod_addition = mod_count + import_count - 1;
        // Built-ins with an intrinsic namespace, such as `i8::MAX`, each own a scope and push
        // symbols of their own while core loads.
        let ns_counts = core_instantiation_reservations();
        proof {
            lemma_core_reservation_totals();
        }
        let scope_capacity = mod_count + 1 + ns_counts.scopes;

        let mut compiler = ScriptCompiler {
            bind,
            mods,
            // + 1 for the unknown type, which no dataset holds
            types: Vec::with_capacity(CORE_BUILTIN_COUNT + CORE_BOUNDARY_COUNT + CORE_FUNC_COUNT + 1),
            values: Vec::with_capacity(ns_counts.variables),
            exprs: Vec::with_capacity(ns_counts.variables),
            syms: Vec::with_capacity(
                CORE_BUILTIN_COUNT + CORE_BOUNDARY_COUNT + CORE_FUNC_COUNT + mod_addition + DIRECTIVE_COUNT
                    + ns_counts.symbols,
            ),
            variables: Vec::with_capacity(ns_counts.variables),
            directives: Vec::with_capacity(DIRECTIVE_COUNT),
            scopes: Vec::with_capacity(scope_capacity),
            intrinsic_registry,
            resolver_state: ResolverState::Namespace,
        };
        let ghost given = compiler.mods@;
        compiler.load_core();
        let ghost cored = compiler;
        compiler.load_directives();
        let ghost directed = compiler;
        proof {
            let loaded = compiler.mods@;
            lemma_import_total_grown(given, loaded.take(given.len() as int));
            assert(loaded.take(given.len() as int + 1).drop_last() =~= loaded.take(given.len() as int));
            assert(loaded.take(given.len() as int + 1) =~= loaded);
            lemma_module_total_bound(loaded);
            assert forall|m: int, k: int|
                0 <= m < loaded.len() && 0 <= k < loaded[m].scopes.len() implies compiler.scopes@[
                #[trigger] loaded[m].scopes@[k] as int].scope.scope_type != ScopeType::Compiler by {
                if m < given.len() {
                    assert(loaded[m].scopes@ == given[m].scopes@.push(0));
                }
            }
            assert forall|m: int, k: int|
                0 <= m < loaded.len() && 0 <= k < loaded[m].imports.len() implies (
                #[trigger] loaded[m].imports@[k]).kind !is UnresolvedSource by {
                if m < given.len() && k < given[m].imports.len() {
                    assert(loaded[m].imports@[k] == given[m].imports@[k]);
                }
            }
            assert forall|m: int, k: int|
                0 <= m < loaded.len() && 0 <= k < loaded[m].scopes.len() implies (
                #[trigger] loaded[m].scopes@[k]) < compiler.scopes.len() by {
                if m < given.len() {
                    assert(loaded[m].scopes@ == given[m].scopes@.push(0));
                }
            }
            assert forall|m: int| 0 <= m < loaded.len() implies (#[trigger] loaded[m]).mod_id == m by {
            }
        }
        compiler.create_module_symbols();
        proof {
            assert(compiler.syms@.take(spec_first_func_sym() + CORE_FUNC_COUNT) =~= cored.syms@);
            assert(compiler.types@.take(compiler.types.len() as int) =~= cored.types@);
            assert(compiler.variables@.take(140) =~= cored.variables@);
            assert(compiler.exprs@.take(140) =~= cored.exprs@);
            assert(compiler.values@.take(140) =~= cored.values@);
            assert forall|k: int| 0 <= k < 12 && k != 0 implies #[trigger] compiler.scopes@[k] == cored.scopes@[k] by {
                assert(compiler.scopes@[k] == directed.scopes@[k]);
            }
            assert(compiler.scopes@[0] == cored.scopes@[0]);
            lemma_core_loaded_persists(&cored, &compiler, core_mod_id);
            lemma_core_table_size();
            assert forall|k: int|
                0 <= k < DIRECTIVE_COUNT implies #[trigger] compiler.syms@[spec_first_func_sym() + CORE_FUNC_COUNT + k]
                    == spec_directive_symbol(
                    spec_directives()[k].0,
                    (spec_first_func_sym() + CORE_FUNC_COUNT + k) as SymbolId,
                    spec_directives()[k].1,
                ) by {
                let at = spec_first_func_sym() + CORE_FUNC_COUNT + k;
                assert(compiler.syms@.take(directed.syms.len() as int)[at] == compiler.syms@[at]);
            }
            assert forall|m: int|
                0 <= m <= given.len() implies #[trigger] compiler.module_symbols_created(
                    compiler.mods@[m],
                    m,
                    12 + m,
                    spec_first_func_sym() + CORE_FUNC_COUNT + DIRECTIVE_COUNT + spec_module_symbol_total(compiler.mods@.take(m)),
                ) by {
                assert(spec_mod_entries(compiler.mods@[m]) == spec_mod_entries(directed.mods@[m]));
                lemma_module_total_same_entries(compiler.mods@.take(m), directed.mods@.take(m));
                assert(compiler.module_symbols_created(
                    directed.mods@[m],
                    m,
                    directed.scopes.len() + m,
                    directed.syms.len() + spec_module_symbol_total(directed.mods@.take(m)),
                ));
            }
            lemma_module_total_same_entries(compiler.mods@, directed.mods@);
        }
        compiler
    }
}

/// Modules binding the same entries push the same number of module symbols.
proof fn lemma_module_total_same_entries(a: Seq<Module>, b: Seq<Module>)
    requires
        a.len() == b.len(),
        forall|m: int| 0 <= m < a.len() ==> spec_mod_entries(#[trigger] a[m]) == spec_mod_entries(b[m]),
    ensures
        spec_module_symbol_total(a) == spec_module_symbol_total(b),
    decreases a.len(),
{
    if a.len() > 0 {
        lemma_module_total_same_entries(a.drop_last(), b.drop_last());
        assert(spec_mod_entries(a[a.len() - 1]) == spec_mod_entries(b[b.len() - 1]));
    }
}

/// Counting the imports of the first `k` modules never gives more than counting all of them.
proof fn lemma_import_total_prefix(mods: Seq<Module>, k: int)
    requires
        0 <= k <= mods.len(),
    ensures
        spec_import_total(mods.take(k)) <= spec_import_total(mods),
    decreases mods.len(),
{
    if k == mods.len() {
        assert(mods.take(k) =~= mods);
    } else {
        lemma_import_total_prefix(mods.drop_last(), k);
        assert(mods.drop_last().take(k) =~= mods.take(k));
    }
}

} // verus!
