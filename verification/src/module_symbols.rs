//! The symbols that make modules reachable: each module's compiler scope binds its own name and
//! the name or alias of each import that reached a module.
use vstd::prelude::*;
use crate::ids::{InternedId, ModuleId, ScopeId, SymbolId};
use crate::module::{spec_import_ident, Import, ImportKind, Module};
use crate::scopes::{AssociatedScopeKind, ScopeType};
use crate::script_compiler::ScriptCompiler;
use crate::hir::{Symbol, SymbolKind, SymbolOrigin};

verus! {

broadcast use vstd::std_specs::hash::group_hash_axioms;

/// The module an import reaches: the source it was read from, or core.
pub open spec fn spec_import_target(import: Import) -> ModuleId {
    match import.kind {
        ImportKind::Source(_, m) => m,
        ImportKind::Core(m) => m,
        _ => 0,
    }
}

/// Whether some entry of `entries` binds the identifier `x`.
pub open spec fn spec_entries_bind(entries: Seq<(InternedId, ModuleId)>, x: InternedId) -> bool {
    exists|k: int| 0 <= k < entries.len() && (#[trigger] entries[k]).0 == x
}

/// What a module named `name` with id `self_id` binds in its compiler scope, in order: its own
/// name to itself, then each import that reached a module to that module, under its alias when
/// it has one. An identifier already bound is skipped; so is an import whose source could not
/// be read.
pub open spec fn spec_module_entries(name: InternedId, self_id: ModuleId, imports: Seq<Import>) -> Seq<(InternedId, ModuleId)>
    decreases imports.len(),
{
    if imports.len() == 0 {
        seq![(name, self_id)]
    } else {
        let prev = spec_module_entries(name, self_id, imports.drop_last());
        let import = imports.last();
        let ident = spec_import_ident(import);
        if import.kind is ErrorSource || spec_entries_bind(prev, ident) {
            prev
        } else {
            prev.push((ident, spec_import_target(import)))
        }
    }
}

/// The entries a module binds.
pub open spec fn spec_mod_entries(module: Module) -> Seq<(InternedId, ModuleId)> {
    spec_module_entries(module.name_id, module.mod_id, module.imports@)
}

/// The table binding each of `entries` in order, the `k`th to the symbol `sym0 + k`.
pub open spec fn spec_entries_table(entries: Seq<(InternedId, ModuleId)>, sym0: int) -> Map<InternedId, SymbolId>
    decreases entries.len(),
{
    if entries.len() == 0 {
        Map::empty()
    } else {
        spec_entries_table(entries.drop_last(), sym0).insert(
            entries.last().0,
            (sym0 + entries.len() - 1) as SymbolId,
        )
    }
}

/// Number of module symbols the modules of `mods` push.
pub open spec fn spec_module_symbol_total(mods: Seq<Module>) -> nat
    decreases mods.len(),
{
    if mods.len() == 0 {
        0
    } else {
        spec_module_symbol_total(mods.drop_last()) + spec_mod_entries(mods.last()).len()
    }
}

/// The namespace symbol module `owner` registers for `entry` at `sym_id`: it owns the whole
/// module the entry reaches.
pub open spec fn spec_module_symbol(entry: (InternedId, ModuleId), sym_id: int, owner: ModuleId) -> Symbol {
    Symbol {
        name_id: entry.0,
        self_id: sym_id as SymbolId,
        ast_id: None,
        sym_origin: SymbolOrigin::Module(owner),
        is_priv: true,
        associated_scope: Some(AssociatedScopeKind::Module(entry.1)),
        scope_origin: ScopeType::Compiler,
        kind: SymbolKind::Namespace,
    }
}

/// A table of entries binds exactly the identifiers of its entries.
proof fn lemma_entries_table_dom(entries: Seq<(InternedId, ModuleId)>, sym0: int)
    ensures
        forall|x: InternedId| #[trigger] spec_entries_table(entries, sym0).dom().contains(x) <==> spec_entries_bind(entries, x),
    decreases entries.len(),
{
    if entries.len() > 0 {
        let prev = entries.drop_last();
        lemma_entries_table_dom(prev, sym0);
        assert forall|x: InternedId| #[trigger] spec_entries_table(entries, sym0).dom().contains(x) <==> spec_entries_bind(entries, x) by {
            if spec_entries_bind(prev, x) {
                let k = choose|k: int| 0 <= k < prev.len() && (#[trigger] prev[k]).0 == x;
                assert(entries[k] == prev[k]);
            }
            if x == entries.last().0 {
                assert(entries[entries.len() - 1].0 == x);
            }
            assert(spec_entries_table(entries, sym0) == spec_entries_table(prev, sym0).insert(
                entries.last().0,
                (sym0 + entries.len() - 1) as SymbolId,
            ));
            assert(spec_entries_table(prev, sym0).dom().contains(x) <==> spec_entries_bind(prev, x));
            if spec_entries_bind(entries, x) {
                let k = choose|k: int| 0 <= k < entries.len() && (#[trigger] entries[k]).0 == x;
                if k < prev.len() {
                    assert(prev[k] == entries[k]);
                }
            }
        }
    }
}

/// Counting the module symbols of the first `m + 1` modules adds module `m`'s.
proof fn lemma_module_total_step(mods: Seq<Module>, m: int)
    requires
        0 <= m < mods.len(),
    ensures
        spec_module_symbol_total(mods.take(m + 1)) == spec_module_symbol_total(mods.take(m))
            + spec_mod_entries(mods[m]).len(),
{
    assert(mods.take(m + 1).drop_last() =~= mods.take(m));
    assert(mods.take(m + 1).last() == mods[m]);
}

/// Counting the first `k` modules never gives more than counting all of them.
proof fn lemma_module_total_prefix(mods: Seq<Module>, k: int)
    requires
        0 <= k <= mods.len(),
    ensures
        spec_module_symbol_total(mods.take(k)) <= spec_module_symbol_total(mods),
    decreases mods.len(),
{
    if k == mods.len() {
        assert(mods.take(k) =~= mods);
    } else {
        lemma_module_total_prefix(mods.drop_last(), k);
        assert(mods.drop_last().take(k) =~= mods.take(k));
    }
}

/// A module binds its own name first, and at most one identifier per import besides it: an alias
/// replaces the import's name rather than adding a second identifier.
pub proof fn lemma_module_entries_len(name: InternedId, self_id: ModuleId, imports: Seq<Import>)
    ensures
        1 <= spec_module_entries(name, self_id, imports).len() <= imports.len() + 1,
        spec_module_entries(name, self_id, imports)[0] == (name, self_id),
    decreases imports.len(),
{
    if imports.len() > 0 {
        lemma_module_entries_len(name, self_id, imports.drop_last());
    }
}

impl ScriptCompiler {
    /// The first scope of section `scope_type` in `list.push(id)` is `id` when `list` holds none
    /// and `id` is of that section.
    pub(crate) proof fn lemma_first_scope_push(&self, list: Seq<ScopeId>, id: ScopeId, scope_type: ScopeType)
        requires
            forall|k: int| 0 <= k < list.len() ==> self.scopes@[#[trigger] list[k] as int].scope.scope_type != scope_type,
            self.scopes@[id as int].scope.scope_type == scope_type,
        ensures
            self.spec_first_scope(list.push(id), scope_type) == Some(id),
        decreases list.len(),
    {
        if list.len() > 0 {
            let rest = list.drop_first();
            assert forall|k: int| 0 <= k < rest.len() implies self.scopes@[#[trigger] rest[k] as int].scope.scope_type != scope_type by {
                assert(rest[k] == list[k + 1]);
            }
            self.lemma_first_scope_push(rest, id, scope_type);
            assert(list.push(id).drop_first() =~= rest.push(id));
            assert(list.push(id)[0] == list[0]);
        } else {
            assert(list.push(id)[0] == id);
        }
    }
}

/// The entries of the first `j` imports never outnumber those of all of them.
proof fn lemma_module_entries_prefix(name: InternedId, self_id: ModuleId, imports: Seq<Import>, j: int)
    requires
        0 <= j <= imports.len(),
    ensures
        spec_module_entries(name, self_id, imports.take(j)).len() <= spec_module_entries(name, self_id, imports).len(),
    decreases imports.len(),
{
    if j == imports.len() {
        assert(imports.take(j) =~= imports);
    } else {
        lemma_module_entries_prefix(name, self_id, imports.drop_last(), j);
        assert(imports.drop_last().take(j) =~= imports.take(j));
    }
}

impl ScriptCompiler {
    /// Module `m`, as `module` describes it, has its compiler scope `c` binding its entries to the
    /// module symbols from `s` on.
    pub open spec fn module_symbols_created(&self, module: Module, m: int, c: int, s: int) -> bool {
        let entries = spec_mod_entries(module);
        &&& self.scopes@[c].scope.scope_id == c
        &&& self.scopes@[c].scope.scope_type == ScopeType::Compiler
        &&& !self.scopes@[c].scope.is_intrinsic
        &&& self.scopes@[c].scope.intrinsic_scope == None::<ScopeId>
        &&& self.scopes@[c].sym_owner == None::<SymbolId>
        &&& self.scopes@[c].mod_owner == m
        &&& self.scopes@[c].scope.table.ast_to_sym@.is_empty()
        &&& self.table(c) == spec_entries_table(entries, s)
        &&& forall|k: int| 0 <= k < entries.len() ==> #[trigger] self.syms@[s + k] == spec_module_symbol(entries[k], s + k, m as ModuleId)
    }

    /// Creates the symbols modules need to reach their imports: each module gets a compiler scope
    /// binding its own name, then the alias or name of each import that reached a module, each to
    /// a namespace symbol owning the module it names. An identifier the scope already binds is
    /// not bound again.
    pub(crate) fn create_module_symbols(&mut self)
        requires
            old(self).module_scopes_valid(),
            forall|m: int| 0 <= m < old(self).mods.len() ==> (#[trigger] old(self).mods@[m]).mod_id == m,
            forall|m: int, k: int|
                0 <= m < old(self).mods.len() && 0 <= k < old(self).mods@[m].scopes.len() ==> old(self).scopes@[
                    #[trigger] old(self).mods@[m].scopes@[k] as int].scope.scope_type != ScopeType::Compiler,
            forall|m: int, k: int|
                0 <= m < old(self).mods.len() && 0 <= k < old(self).mods@[m].imports.len() ==> (
                #[trigger] old(self).mods@[m].imports@[k]).kind !is UnresolvedSource,
            old(self).scopes.len() + old(self).mods.len() < u16::MAX,
            old(self).syms.len() + spec_module_symbol_total(old(self).mods@) < u32::MAX,
        ensures
            final(self).mods.len() == old(self).mods.len(),
            forall|m: int|
                0 <= m < old(self).mods.len() ==> {
                    &&& (#[trigger] final(self).mods@[m]).name_id == old(self).mods@[m].name_id
                    &&& final(self).mods@[m].state == old(self).mods@[m].state
                    &&& final(self).mods@[m].mod_id == old(self).mods@[m].mod_id
                    &&& final(self).mods@[m].imports@ == old(self).mods@[m].imports@
                    &&& final(self).mods@[m].exports@ == old(self).mods@[m].exports@
                    &&& final(self).mods@[m].scopes@ == old(self).mods@[m].scopes@.push((old(self).scopes.len() + m) as ScopeId)
                },
            final(self).scopes.len() == old(self).scopes.len() + old(self).mods.len(),
            forall|k: int| 0 <= k < old(self).scopes.len() ==> #[trigger] final(self).scopes@[k] == old(self).scopes@[k],
            forall|m: int|
                0 <= m < old(self).mods.len() ==> #[trigger] final(self).module_symbols_created(
                    old(self).mods@[m],
                    m,
                    old(self).scopes.len() + m,
                    old(self).syms.len() + spec_module_symbol_total(old(self).mods@.take(m)),
                ),
            final(self).syms.len() == old(self).syms.len() + spec_module_symbol_total(old(self).mods@),
            final(self).syms@.take(old(self).syms.len() as int) == old(self).syms@,
            final(self).module_scopes_valid(),
            final(self).types == old(self).types,
            final(self).variables == old(self).variables,
            final(self).exprs == old(self).exprs,
            final(self).values == old(self).values,
            final(self).directives == old(self).directives,
            final(self).intrinsic_registry == old(self).intrinsic_registry,
            final(self).resolver_state == old(self).resolver_state,
            final(self).bind == old(self).bind,
    {
        let ghost start = *self;
        let ghost s0 = self.syms.len() as int;
        let ghost c0 = self.scopes.len() as int;
        let n = self.mods.len();
        let mut i: usize = 0;
        proof {
            assert(self.syms@.take(s0) =~= start.syms@);
            assert(start.mods@.take(0) =~= Seq::<Module>::empty());
        }
        while i < n
            invariant
                n == start.mods.len(),
                0 <= i <= n,
                s0 == start.syms.len(),
                c0 == start.scopes.len(),
                start.module_scopes_valid(),
                forall|m: int| 0 <= m < n ==> (#[trigger] start.mods@[m]).mod_id == m,
                forall|m: int, k: int|
                    0 <= m < n && 0 <= k < start.mods@[m].scopes.len() ==> start.scopes@[
                        #[trigger] start.mods@[m].scopes@[k] as int].scope.scope_type != ScopeType::Compiler,
                forall|m: int, k: int|
                    0 <= m < n && 0 <= k < start.mods@[m].imports.len() ==> (
                    #[trigger] start.mods@[m].imports@[k]).kind !is UnresolvedSource,
                c0 + n < u16::MAX,
                s0 + spec_module_symbol_total(start.mods@) < u32::MAX,
                self.mods.len() == n,
                forall|m: int|
                    0 <= m < n ==> {
                        &&& (#[trigger] self.mods@[m]).name_id == start.mods@[m].name_id
                        &&& self.mods@[m].state == start.mods@[m].state
                        &&& self.mods@[m].mod_id == start.mods@[m].mod_id
                        &&& self.mods@[m].imports@ == start.mods@[m].imports@
                        &&& self.mods@[m].exports@ == start.mods@[m].exports@
                        &&& m < i ==> self.mods@[m].scopes@ == start.mods@[m].scopes@.push((c0 + m) as ScopeId)
                        &&& m >= i ==> self.mods@[m].scopes@ == start.mods@[m].scopes@
                    },
                self.scopes.len() == c0 + i,
                forall|k: int| 0 <= k < c0 ==> #[trigger] self.scopes@[k] == start.scopes@[k],
                forall|m: int|
                    0 <= m < i ==> #[trigger] self.module_symbols_created(
                        start.mods@[m],
                        m,
                        c0 + m,
                        s0 + spec_module_symbol_total(start.mods@.take(m)),
                    ),
                self.syms.len() == s0 + spec_module_symbol_total(start.mods@.take(i as int)),
                self.syms@.take(s0) == start.syms@,
                self.module_scopes_valid(),
                self.types == start.types,
                self.variables == start.variables,
                self.exprs == start.exprs,
                self.values == start.values,
                self.directives == start.directives,
                self.intrinsic_registry == start.intrinsic_registry,
                self.resolver_state == start.resolver_state,
                self.bind == start.bind,
            decreases n - i,
        {
            let ghost before = *self;
            let ghost module = start.mods@[i as int];
            let ghost sym_base = self.syms.len() as int;
            proof {
                lemma_module_total_step(start.mods@, i as int);
                lemma_module_total_prefix(start.mods@, i + 1);
                lemma_module_entries_len(module.name_id, module.mod_id, module.imports@);
            }
            let current_mod_name_id = self.mods[i].name_id;
            let current_mod_id = self.mods[i].mod_id;

            // Pushing the module symbol inside of itself, so that `main::MainType` can be used
            // from module `main`.
            let sym_id = self.syms.len() as u32;
            let sym = Symbol::new(
                current_mod_name_id,
                sym_id,
                None,
                SymbolOrigin::Module(current_mod_id),
                true,
                Some(AssociatedScopeKind::Module(current_mod_id)),
                ScopeType::Compiler,
                SymbolKind::Namespace,
            );
            proof {
                assert forall|k: int| 0 <= k < self.mods@[i as int].scopes.len() implies self.scopes@[
                    #[trigger] self.mods@[i as int].scopes@[k] as int].scope.scope_type != ScopeType::Compiler by {
                    assert(self.mods@[i as int].scopes@[k] == start.mods@[i as int].scopes@[k]);
                    assert(start.mods@[i as int].scopes@[k] < c0);
                }
                self.lemma_first_scope_none(self.mods@[i as int].scopes@, ScopeType::Compiler);
            }
            let scope_id = self.push_scope(ScopeType::Compiler, current_mod_id);
            let ghost c = scope_id as int;
            self.bind_in_scope(scope_id, current_mod_name_id, sym_id);
            self.syms.push(sym);
            let ghost named = *self;
            proof {
                assert(module.imports@.take(0) =~= Seq::<Import>::empty());
                assert(spec_module_entries(module.name_id, module.mod_id, module.imports@.take(0)) == seq![(module.name_id, module.mod_id)]);
                let none = Seq::<(InternedId, ModuleId)>::empty();
                assert(seq![(module.name_id, module.mod_id)].drop_last() =~= none);
                assert(spec_entries_table(none, sym_base) == Map::<InternedId, SymbolId>::empty());
                assert(spec_entries_table(seq![(module.name_id, module.mod_id)], sym_base) =~= Map::<InternedId, SymbolId>::empty().insert(module.name_id, sym_base as SymbolId));
            }

            let n_imports = self.mods[i].imports.len();
            let mut j: usize = 0;
            while j < n_imports
                invariant
                    n_imports == module.imports.len(),
                    0 <= j <= n_imports,
                    n == start.mods.len(),
                    i < n,
                    self.mods.len() == n,
                    c0 == start.scopes.len(),
                    current_mod_id == i,
                    sym_base >= 0,
                    start.module_scopes_valid(),
                    module == start.mods@[i as int],
                    module.mod_id == i,
                    forall|k: int| 0 <= k < n_imports ==> (#[trigger] module.imports@[k]).kind !is UnresolvedSource,
                    c == c0 + i,
                    c0 + n < u16::MAX,
                    sym_base + spec_mod_entries(module).len() < u32::MAX,
                    self.mods == named.mods,
                    self.mods@[i as int].imports@ == module.imports@,
                    self.mods@[i as int].mod_id == i,
                    self.mods@[i as int].scopes@ == start.mods@[i as int].scopes@.push(c as ScopeId),
                    forall|k: int| 0 <= k < start.mods@[i as int].scopes.len() ==> self.scopes@[
                        #[trigger] start.mods@[i as int].scopes@[k] as int].scope.scope_type != ScopeType::Compiler,
                    self.scopes.len() == c + 1,
                    forall|k: int| 0 <= k < c ==> #[trigger] self.scopes@[k] == named.scopes@[k],
                    self.scope_same_but_table(&named, c),
                    self.scopes@[c].scope.scope_type == ScopeType::Compiler,
                    self.table(c) == spec_entries_table(
                        spec_module_entries(module.name_id, module.mod_id, module.imports@.take(j as int)),
                        sym_base,
                    ),
                    self.syms.len() == sym_base + spec_module_entries(module.name_id, module.mod_id, module.imports@.take(j as int)).len(),
                    self.syms@.take(sym_base) == before.syms@,
                    forall|k: int|
                        0 <= k < spec_module_entries(module.name_id, module.mod_id, module.imports@.take(j as int)).len()
                            ==> #[trigger] self.syms@[sym_base + k] == spec_module_symbol(
                            spec_module_entries(module.name_id, module.mod_id, module.imports@.take(j as int))[k],
                            sym_base + k,
                            i as ModuleId,
                        ),
                    self.module_scopes_valid(),
                    self.types == start.types,
                    self.variables == start.variables,
                    self.exprs == start.exprs,
                    self.values == start.values,
                    self.directives == start.directives,
                    self.intrinsic_registry == start.intrinsic_registry,
                    self.resolver_state == start.resolver_state,
                    self.bind == start.bind,
                decreases n_imports - j,
            {
                let ghost prev = *self;
                let ghost prev_entries = spec_module_entries(module.name_id, module.mod_id, module.imports@.take(j as int));
                proof {
                    assert(module.imports@.take(j + 1).drop_last() =~= module.imports@.take(j as int));
                    assert(module.imports@.take(j + 1).last() == module.imports@[j as int]);
                    lemma_module_entries_prefix(module.name_id, module.mod_id, module.imports@, j + 1);
                    lemma_entries_table_dom(prev_entries, sym_base);
                }
                let import = self.mods[i].imports[j];
                // An import that could not be read reaches no module. Unresolved sources do not
                // remain at this stage.
                let target: Option<ModuleId> = match import.kind {
                    ImportKind::Source(_, m_id) => Some(m_id),
                    ImportKind::ErrorSource(_) => None,
                    ImportKind::UnresolvedSource(_) => None,
                    ImportKind::Core(m_id) => Some(m_id),
                };
                if let Some(mod_id) = target {
                    // An alias renames the import, so exactly one identifier is set per import.
                    let import_ident_id = match import.alias_id {
                        Some(alias) => alias,
                        None => import.name_id,
                    };
                    let import_sym_id = self.syms.len() as u32;
                    let sym = Symbol::new(
                        import_ident_id,
                        import_sym_id,
                        None,
                        SymbolOrigin::Module(current_mod_id),
                        true,
                        Some(AssociatedScopeKind::Module(mod_id)),
                        ScopeType::Compiler,
                        SymbolKind::Namespace,
                    );
                    proof {
                        self.lemma_first_scope_push(start.mods@[i as int].scopes@, c as ScopeId, ScopeType::Compiler);
                    }
                    let scope_id = self.push_scope(ScopeType::Compiler, current_mod_id);
                    proof {
                        let imp = module.imports@[j as int];
                        assert(import_ident_id == spec_import_ident(imp));
                        assert(mod_id == spec_import_target(imp));
                        assert(imp.kind !is ErrorSource);
                    }
                    // Identifiers that conflict with one already bound are filtered out.
                    if !self.scopes[scope_id as usize].scope.table.interned_to_sym.contains_key(&import_ident_id) {
                        self.bind_in_scope(scope_id, import_ident_id, import_sym_id);
                        self.syms.push(sym);
                        proof {
                            assert(!spec_entries_bind(prev_entries, import_ident_id));
                            let grown = prev_entries.push((import_ident_id, mod_id));
                            assert(spec_module_entries(module.name_id, module.mod_id, module.imports@.take(j + 1)) == grown);
                            assert(grown.drop_last() =~= prev_entries);
                            assert(spec_entries_table(grown, sym_base) == spec_entries_table(prev_entries, sym_base).insert(
                                import_ident_id,
                                (sym_base + prev_entries.len()) as SymbolId,
                            ));
                        }
                    } else {
                        proof {
                            assert(spec_entries_bind(prev_entries, import_ident_id));
                            assert(spec_module_entries(module.name_id, module.mod_id, module.imports@.take(j + 1)) == prev_entries);
                        }
                    }
                } else {
                    proof {
                        assert(module.imports@[j as int].kind is ErrorSource);
                        assert(spec_module_entries(module.name_id, module.mod_id, module.imports@.take(j + 1)) == prev_entries);
                    }
                }
                proof {
                    let entries = spec_module_entries(module.name_id, module.mod_id, module.imports@.take(j + 1));
                    assert(self.syms@.take(sym_base) =~= prev.syms@.take(sym_base));
                    assert forall|k: int| 0 <= k < start.mods@[i as int].scopes.len() implies self.scopes@[
                        #[trigger] start.mods@[i as int].scopes@[k] as int].scope.scope_type != ScopeType::Compiler by {
                        assert(start.mods@[i as int].scopes@[k] < c0);
                        assert(self.scopes@[start.mods@[i as int].scopes@[k] as int] == prev.scopes@[start.mods@[i as int].scopes@[k] as int]);
                    }
                    assert forall|k: int| 0 <= k < entries.len() implies #[trigger] self.syms@[sym_base + k] == spec_module_symbol(
                        entries[k],
                        sym_base + k,
                        i as ModuleId,
                    ) by {
                        if k < prev_entries.len() {
                            assert(entries[k] == prev_entries[k]);
                            assert(self.syms@[sym_base + k] == prev.syms@[sym_base + k]);
                        }
                    }
                }
                j += 1;
            }
            proof {
                assert(module.imports@.take(n_imports as int) =~= module.imports@);
                assert(self.syms@.take(s0) =~= before.syms@.take(s0));
                assert forall|m: int| 0 <= m <= i implies #[trigger] self.module_symbols_created(
                    start.mods@[m],
                    m,
                    c0 + m,
                    s0 + spec_module_symbol_total(start.mods@.take(m)),
                ) by {
                    if m < i {
                        lemma_module_total_step(start.mods@, m);
                        lemma_module_total_prefix(start.mods@.take(i as int), m + 1);
                        assert(start.mods@.take(i as int).take(m + 1) =~= start.mods@.take(m + 1));
                        assert(before.module_symbols_created(start.mods@[m], m, c0 + m, s0 + spec_module_symbol_total(start.mods@.take(m))));
                        assert(self.scopes@[c0 + m] == before.scopes@[c0 + m]);
                        let sb = s0 + spec_module_symbol_total(start.mods@.take(m));
                        assert forall|k: int| 0 <= k < spec_mod_entries(start.mods@[m]).len() implies #[trigger] self.syms@[sb + k]
                            == spec_module_symbol(spec_mod_entries(start.mods@[m])[k], sb + k, m as ModuleId) by {
                            assert(self.syms@[sb + k] == before.syms@[sb + k]);
                        }
                    }
                }
                assert forall|k: int| 0 <= k < c0 implies #[trigger] self.scopes@[k] == start.scopes@[k] by {
                    assert(self.scopes@[k] == before.scopes@[k]);
                }
            }
            i += 1;
        }
        proof {
            assert(start.mods@.take(n as int) =~= start.mods@);
        }
    }

    /// No scope of section `scope_type` is found in a list that holds none.
    pub(crate) proof fn lemma_first_scope_none(&self, list: Seq<ScopeId>, scope_type: ScopeType)
        requires
            forall|k: int| 0 <= k < list.len() ==> self.scopes@[#[trigger] list[k] as int].scope.scope_type != scope_type,
        ensures
            self.spec_first_scope(list, scope_type) is None,
        decreases list.len(),
    {
        if list.len() > 0 {
            let rest = list.drop_first();
            assert forall|k: int| 0 <= k < rest.len() implies self.scopes@[#[trigger] rest[k] as int].scope.scope_type != scope_type by {
                assert(rest[k] == list[k + 1]);
            }
            self.lemma_first_scope_none(rest, scope_type);
            assert(self.scopes@[list[0] as int].scope.scope_type != scope_type);
        }
    }
}

/// A module never binds an identifier twice.
pub proof fn lemma_module_entries_distinct(name: InternedId, self_id: ModuleId, imports: Seq<Import>)
    ensures
        forall|a: int, b: int|
            0 <= a < b < spec_module_entries(name, self_id, imports).len() ==> (
            #[trigger] spec_module_entries(name, self_id, imports)[a]).0 != (
            #[trigger] spec_module_entries(name, self_id, imports)[b]).0,
    decreases imports.len(),
{
    if imports.len() > 0 {
        lemma_module_entries_distinct(name, self_id, imports.drop_last());
        let prev = spec_module_entries(name, self_id, imports.drop_last());
        let entries = spec_module_entries(name, self_id, imports);
        assert forall|a: int, b: int| 0 <= a < b < entries.len() implies (#[trigger] entries[a]).0 != (
            #[trigger] entries[b]).0 by {
            if b < prev.len() {
                assert(entries[a] == prev[a]);
                assert(entries[b] == prev[b]);
            } else {
                assert(entries[a] == prev[a]);
                assert(!spec_entries_bind(prev, entries[b].0));
            }
        }
    }
}

/// In a table of distinct entries, the `k`th entry's identifier is bound to symbol `sym0 + k`.
proof fn lemma_entries_table_at(entries: Seq<(InternedId, ModuleId)>, sym0: int, k: int)
    requires
        0 <= k < entries.len(),
        forall|a: int, b: int| 0 <= a < b < entries.len() ==> (#[trigger] entries[a]).0 != (#[trigger] entries[b]).0,
    ensures
        spec_entries_table(entries, sym0).contains_key(entries[k].0),
        spec_entries_table(entries, sym0)[entries[k].0] == (sym0 + k) as SymbolId,
    decreases entries.len(),
{
    let prev = entries.drop_last();
    if k < entries.len() - 1 {
        assert forall|a: int, b: int| 0 <= a < b < prev.len() implies (#[trigger] prev[a]).0 != (#[trigger] prev[b]).0 by {
            assert(prev[a] == entries[a]);
            assert(prev[b] == entries[b]);
        }
        lemma_entries_table_at(prev, sym0, k);
        assert(prev[k] == entries[k]);
        assert(entries[k].0 != entries[entries.len() - 1].0);
    }
}

/// Each identifier a module binds reaches, through the module's compiler scope, the namespace
/// symbol that owns the module the identifier names; the module's own name comes first and
/// reaches the module itself.
pub proof fn lemma_module_scope_binds(c: &ScriptCompiler, module: Module, m: int, scope: int, s: int, k: int)
    requires
        c.module_symbols_created(module, m, scope, s),
        0 <= k < spec_mod_entries(module).len(),
    ensures
        c.table(scope).contains_key(spec_mod_entries(module)[k].0),
        c.table(scope)[spec_mod_entries(module)[k].0] == (s + k) as SymbolId,
        c.syms@[s + k] == spec_module_symbol(spec_mod_entries(module)[k], s + k, m as ModuleId),
        spec_mod_entries(module)[0] == (module.name_id, module.mod_id),
{
    lemma_module_entries_distinct(module.name_id, module.mod_id, module.imports@);
    lemma_module_entries_len(module.name_id, module.mod_id, module.imports@);
    lemma_entries_table_at(spec_mod_entries(module), s, k);
}

} // verus!
