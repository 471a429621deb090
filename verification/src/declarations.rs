//! Registration of the declarations a module's syntax tree holds: each gets a symbol in the scope
//! of its section, a type or a variable, and its module's export when it is public. A name the
//! scope already binds keeps its first symbol; the one found is returned so that the duplicate
//! can be reported.
use vstd::prelude::*;
use crate::hir::{
    AliasDef, EnumDef, StructDef, Symbol, SymbolKind, SymbolOrigin, Type, TypeDef, TypeInfo,
    VarDef, VariableMetadata, VariableState,
};
use crate::ids::{AstId, InternedId, MemberId, ModuleId, ScopeId, SymbolId, TypeId, VariableId};
use crate::extern_helpers::{spec_java_types, spec_rust_types};
use crate::intern::{INTERNED_JAVA_LOWER, INTERNED_JAVA_UPPER, INTERNED_RUST_LOWER, INTERNED_RUST_UPPER};
use crate::intrinsic_scopes::lemma_pushed_scope_is_found;
use crate::registration::spec_registered_symbol;
use crate::scopes::{Scope, ScopeInfo, ScopeType};
use crate::script_compiler::ScriptCompiler;

verus! {

broadcast use vstd::std_specs::hash::group_hash_axioms;

/// What registration reads of a declaration: its name, and whether it is private to its module.
#[derive(Debug, PartialEq, Eq, Clone, Copy, Structural)]
pub struct DeclHeader {
    pub name_id: InternedId,
    pub is_priv: bool,
}

/// The symbol a declaration got, and the symbol its name was already bound to in its scope.
#[derive(Debug, PartialEq, Eq, Clone, Copy, Structural)]
pub struct Registered {
    pub sym_id: SymbolId,
    pub original: Option<SymbolId>,
}

/// The symbol registered for declaration `decl` of module `owner`, at `sym_id`, in a scope of
/// section `scope_type`, with the given kind.
pub open spec fn spec_decl_symbol(
    decl: DeclHeader,
    sym_id: SymbolId,
    ast_id: AstId,
    owner: ModuleId,
    scope_type: ScopeType,
    kind: SymbolKind,
) -> Symbol {
    Symbol {
        name_id: decl.name_id,
        self_id: sym_id,
        ast_id: Some(ast_id),
        sym_origin: SymbolOrigin::Module(owner),
        is_priv: decl.is_priv,
        associated_scope: None,
        scope_origin: scope_type,
        kind,
    }
}

/// The symbol a name is already bound to in `table`, if any.
pub open spec fn spec_bound(table: Map<InternedId, SymbolId>, name_id: InternedId) -> Option<SymbolId> {
    if table.contains_key(name_id) {
        Some(table[name_id])
    } else {
        None
    }
}

/// `table` after binding `name_id` to `sym_id`, unless it binds the name already.
pub open spec fn spec_bind_first(table: Map<InternedId, SymbolId>, name_id: InternedId, sym_id: SymbolId) -> Map<
    InternedId,
    SymbolId,
> {
    if table.contains_key(name_id) {
        table
    } else {
        table.insert(name_id, sym_id)
    }
}

/// Finding the first scope of a section in a list gives the same scope once the list grew at its
/// end, as long as the scopes the list held kept their sections.
proof fn lemma_first_scope_kept(
    a: &ScriptCompiler,
    b: &ScriptCompiler,
    list: Seq<ScopeId>,
    grown: Seq<ScopeId>,
    scope_type: ScopeType,
)
    requires
        a.spec_first_scope(list, scope_type) is Some,
        list.len() <= grown.len(),
        grown.take(list.len() as int) == list,
        forall|k: int|
            0 <= k < list.len() ==> #[trigger] b.scopes@[list[k] as int].scope.scope_type == a.scopes@[list[k] as int].scope.scope_type,
    ensures
        b.spec_first_scope(grown, scope_type) == a.spec_first_scope(list, scope_type),
    decreases list.len(),
{
    assert(list[0] == grown[0]) by {
        assert(grown.take(list.len() as int)[0] == grown[0]);
    }
    assert(b.scopes@[list[0] as int].scope.scope_type == a.scopes@[list[0] as int].scope.scope_type);
    if a.scopes@[list[0] as int].scope.scope_type != scope_type {
        let rest = list.drop_first();
        let grown_rest = grown.drop_first();
        assert(grown_rest.take(rest.len() as int) =~= rest) by {
            assert forall|i: int| 0 <= i < rest.len() implies grown_rest.take(rest.len() as int)[i] == rest[i] by {
                assert(grown.take(list.len() as int)[i + 1] == grown[i + 1]);
            }
        }
        assert forall|k: int| 0 <= k < rest.len() implies #[trigger] b.scopes@[rest[k] as int].scope.scope_type
            == a.scopes@[rest[k] as int].scope.scope_type by {
            assert(rest[k] == list[k + 1]);
        }
        lemma_first_scope_kept(a, b, rest, grown_rest, scope_type);
    }
}

/// The complex scope and its platform namespaces stay as they were while their scopes and
/// symbols are left alone.
proof fn lemma_platform_kept(a: &ScriptCompiler, b: &ScriptCompiler, c: int, s: int)
    requires
        a.platform_scopes_loaded(c, s),
        0 <= c,
        0 <= s,
        c + 7 <= a.scopes.len(),
        c + 7 <= b.scopes.len(),
        forall|k: int| c <= k < c + 7 ==> #[trigger] b.scopes@[k] == a.scopes@[k],
        s + 34 <= a.syms.len(),
        s + 34 <= b.syms.len(),
        forall|i: int| s <= i < s + 34 ==> #[trigger] b.syms@[i] == a.syms@[i],
        b.intrinsic_registry == a.intrinsic_registry,
    ensures
        b.platform_scopes_loaded(c, s),
{
    assert(spec_rust_types().len() == 19);
    assert(spec_java_types().len() == 9);
    assert(b.scopes@[c] == a.scopes@[c]);
    assert(b.scopes@[c + 1] == a.scopes@[c + 1]);
    assert(b.scopes@[c + 2] == a.scopes@[c + 2]);
    assert(b.scopes@[c + 3] == a.scopes@[c + 3]);
    assert(b.scopes@[c + 4] == a.scopes@[c + 4]);
    assert(b.scopes@[c + 5] == a.scopes@[c + 5]);
    assert(b.scopes@[c + 6] == a.scopes@[c + 6]);
    assert(b.syms@[s] == a.syms@[s]);
    assert(b.syms@[s + 1] == a.syms@[s + 1]);
    assert(b.syms@[s + 2] == a.syms@[s + 2]);
    assert(b.syms@[s + 22] == a.syms@[s + 22]);
    assert(b.syms@[s + 23] == a.syms@[s + 23]);
    assert(b.syms@[s + 24] == a.syms@[s + 24]);
    assert forall|k: int| 0 <= k < spec_rust_types().len() implies #[trigger] b.syms@[s + 3 + k] == spec_registered_symbol(
        spec_rust_types()[k],
        (s + 3 + k) as SymbolId,
        0,
        0,
    ) by {
        assert(b.syms@[s + 3 + k] == a.syms@[s + 3 + k]);
    }
    assert forall|k: int| 0 <= k < spec_java_types().len() implies #[trigger] b.syms@[s + 22 + 3 + k] == spec_registered_symbol(
        spec_java_types()[k],
        (s + 22 + 3 + k) as SymbolId,
        0,
        0,
    ) by {
        assert(b.syms@[s + 22 + 3 + k] == a.syms@[s + 22 + 3 + k]);
    }
}

/// After a registration pushed (or found) the section's scope `s`, bound the declaration in it
/// and appended what it adds, the section still finds `s`, and the platform namespaces a
/// complex push created are still in place.
proof fn lemma_registration_kept(
    start: &ScriptCompiler,
    entered: &ScriptCompiler,
    bound: &ScriptCompiler,
    after: &ScriptCompiler,
    scope_type: ScopeType,
    owner: ModuleId,
    s: ScopeId,
)
    requires
        owner < entered.mods.len(),
        owner < after.mods.len(),
        entered.module_scopes_valid(),
        entered.spec_find_scope(scope_type, owner as int) == Some(s),
        s < entered.scopes.len(),
        s == start.pushed_scope_id(scope_type, owner),
        entered.scopes.len() == start.pushed_scope_count(scope_type, owner),
        entered.syms.len() == start.pushed_scope_syms(scope_type, owner),
        start.push_loads_complex(scope_type, owner) ==> entered.platform_scopes_loaded(
            start.scopes.len() as int,
            start.syms.len() as int,
        ),
        bound.scopes.len() == entered.scopes.len(),
        forall|k: int| 0 <= k < entered.scopes.len() && k != s ==> #[trigger] bound.scopes@[k] == entered.scopes@[k],
        bound.scopes@[s as int].scope.scope_type == entered.scopes@[s as int].scope.scope_type,
        bound.mods@[owner as int].scopes@ == entered.mods@[owner as int].scopes@,
        bound.syms == entered.syms,
        bound.intrinsic_registry == entered.intrinsic_registry,
        bound.scopes.len() <= after.scopes.len(),
        forall|k: int| 0 <= k < bound.scopes.len() ==> #[trigger] after.scopes@[k] == bound.scopes@[k],
        bound.mods@[owner as int].scopes.len() <= after.mods@[owner as int].scopes.len(),
        after.mods@[owner as int].scopes@.take(bound.mods@[owner as int].scopes.len() as int) == bound.mods@[owner as int].scopes@,
        bound.syms.len() <= after.syms.len(),
        after.syms@.take(bound.syms.len() as int) == bound.syms@,
        after.intrinsic_registry == bound.intrinsic_registry,
    ensures
        after.spec_find_scope(scope_type, owner as int) == Some(s),
        start.push_loads_complex(scope_type, owner) ==> after.platform_scopes_loaded(
            start.scopes.len() as int,
            start.syms.len() as int,
        ),
{
    let list = entered.mods@[owner as int].scopes@;
    assert forall|k: int| 0 <= k < list.len() implies #[trigger] after.scopes@[list[k] as int].scope.scope_type
        == entered.scopes@[list[k] as int].scope.scope_type by {
        assert(list[k] < entered.scopes.len());
        assert(after.scopes@[list[k] as int] == bound.scopes@[list[k] as int]);
    }
    lemma_first_scope_kept(entered, after, list, after.mods@[owner as int].scopes@, scope_type);
    if start.push_loads_complex(scope_type, owner) {
        let c = start.scopes.len() as int;
        let s0 = start.syms.len() as int;
        assert forall|k: int| c <= k < c + 7 implies #[trigger] after.scopes@[k] == entered.scopes@[k] by {
            assert(after.scopes@[k] == bound.scopes@[k]);
        }
        assert forall|i: int| s0 <= i < s0 + 34 implies #[trigger] after.syms@[i] == entered.syms@[i] by {
            assert(after.syms@.take(bound.syms.len() as int)[i] == after.syms@[i]);
        }
        lemma_platform_kept(entered, after, c, s0);
    }
}

/// Binding a name keeps the first symbol it was bound to: a bound name keeps its symbol, an
/// unbound one gets the new symbol, and no other name changes; the name found bound is reported.
pub proof fn lemma_bind_first(table: Map<InternedId, SymbolId>, name_id: InternedId, sym_id: SymbolId)
    ensures
        spec_bind_first(table, name_id, sym_id).contains_key(name_id),
        table.contains_key(name_id) ==> spec_bind_first(table, name_id, sym_id)[name_id] == table[name_id]
            && spec_bound(table, name_id) == Some(table[name_id]),
        !table.contains_key(name_id) ==> spec_bind_first(table, name_id, sym_id)[name_id] == sym_id && spec_bound(table, name_id)
            is None,
        forall|n: InternedId| n != name_id ==> (#[trigger] spec_bind_first(table, name_id, sym_id).contains_key(n)
            <==> table.contains_key(n)),
        forall|n: InternedId| n != name_id && table.contains_key(n) ==> #[trigger] spec_bind_first(table, name_id, sym_id)[n]
            == table[n],
{
}

impl ScriptCompiler {
    /// Whether pushing a scope of section `scope_type` for `owner` creates the complex scope's
    /// platform namespaces first.
    pub open spec fn push_loads_complex(&self, scope_type: ScopeType, owner: ModuleId) -> bool {
        &&& self.spec_find_scope(scope_type, owner as int) is None
        &&& scope_type == ScopeType::Complex
        &&& self.intrinsic_registry.complex_scope_id is None
    }

    /// The scope pushing a scope of section `scope_type` for `owner` gives: the one the module
    /// has, or a new one after the complex scope's platform namespaces when those are created.
    pub open spec fn pushed_scope_id(&self, scope_type: ScopeType, owner: ModuleId) -> int {
        match self.spec_find_scope(scope_type, owner as int) {
            Some(id) => id as int,
            None => if self.push_loads_complex(scope_type, owner) {
                self.scopes.len() + 7
            } else {
                self.scopes.len() as int
            },
        }
    }

    /// Number of scopes once that scope was pushed.
    pub open spec fn pushed_scope_count(&self, scope_type: ScopeType, owner: ModuleId) -> int {
        match self.spec_find_scope(scope_type, owner as int) {
            Some(_) => self.scopes.len() as int,
            None => self.pushed_scope_id(scope_type, owner) + 1,
        }
    }

    /// The identifier table of that scope before anything is registered in it.
    pub open spec fn pushed_scope_table(&self, scope_type: ScopeType, owner: ModuleId) -> Map<InternedId, SymbolId> {
        match self.spec_find_scope(scope_type, owner as int) {
            Some(id) => self.table(id as int),
            None => Map::empty(),
        }
    }

    /// The syntax item table of that scope before anything is registered in it.
    pub open spec fn pushed_scope_asts(&self, scope_type: ScopeType, owner: ModuleId) -> Map<AstId, SymbolId> {
        match self.spec_find_scope(scope_type, owner as int) {
            Some(id) => self.scopes@[id as int].scope.table.ast_to_sym@,
            None => Map::empty(),
        }
    }

    /// The scopes module `owner` lists once that scope was pushed.
    pub open spec fn pushed_scope_list(&self, scope_type: ScopeType, owner: ModuleId) -> Seq<ScopeId> {
        match self.spec_find_scope(scope_type, owner as int) {
            Some(_) => self.mods@[owner as int].scopes@,
            None => self.mods@[owner as int].scopes@.push(self.pushed_scope_id(scope_type, owner) as ScopeId),
        }
    }

    /// Number of symbols once that scope was pushed.
    pub open spec fn pushed_scope_syms(&self, scope_type: ScopeType, owner: ModuleId) -> int {
        if self.push_loads_complex(scope_type, owner) {
            self.syms.len() + 34
        } else {
            self.syms.len() as int
        }
    }

    /// Scope `id` is a section scope of module `owner` that the module's registrations created.
    pub open spec fn section_scope_fresh(&self, id: int, scope_type: ScopeType, owner: ModuleId) -> bool {
        &&& self.scopes@[id].scope.scope_id == id
        &&& !self.scopes@[id].scope.is_intrinsic
        &&& self.scopes@[id].scope.intrinsic_scope == if scope_type == ScopeType::Complex {
            self.intrinsic_registry.complex_scope_id
        } else {
            None
        }
        &&& self.scopes@[id].sym_owner == None::<SymbolId>
        &&& self.scopes@[id].mod_owner == owner
    }

    /// Scope `c` is the complex scope, binding `RUST` and `JAVA` from symbol `s` on, with the
    /// platform namespaces `RUST::types::rust` and `JAVA::types::java` nested inside.
    pub open spec fn platform_scopes_loaded(&self, c: int, s: int) -> bool {
        &&& self.intrinsic_registry.complex_scope_id == Some(c as ScopeId)
        &&& self.table(c) == map![INTERNED_RUST_UPPER => s as SymbolId, INTERNED_JAVA_UPPER => (s + 22) as SymbolId]
        &&& self.platform_registered(INTERNED_RUST_UPPER, INTERNED_RUST_LOWER, spec_rust_types(), s, c + 1)
        &&& self.platform_registered(INTERNED_JAVA_UPPER, INTERNED_JAVA_LOWER, spec_java_types(), s + 22, c + 4)
    }

    /// Room for pushing a scope of section `scope_type` for `owner` and registering a declaration.
    pub open spec fn can_register(&self, scope_type: ScopeType, owner: ModuleId) -> bool {
        &&& owner < self.mods.len()
        &&& self.module_scopes_valid()
        &&& self.scopes.len() + 9 <= u16::MAX
        &&& self.syms.len() + 35 <= u32::MAX
        &&& self.types.len() + 2 <= u32::MAX
        &&& self.variables.len() < u32::MAX
        &&& self.exprs.len() <= u32::MAX
        &&& self.values.len() <= u32::MAX
    }

    /// Pushes the scope of section `scope_type` for `owner`, or finds the one it has.
    fn enter_section(&mut self, scope_type: ScopeType, owner: ModuleId) -> (res: ScopeId)
        requires
            old(self).can_register(scope_type, owner),
        ensures
            res == old(self).pushed_scope_id(scope_type, owner),
            res < final(self).scopes.len(),
            final(self).scopes.len() == old(self).pushed_scope_count(scope_type, owner),
            final(self).scopes@[res as int].scope.scope_type == scope_type,
            final(self).spec_find_scope(scope_type, owner as int) == Some(res),
            final(self).table(res as int) == old(self).pushed_scope_table(scope_type, owner),
            final(self).scopes@[res as int].scope.table.ast_to_sym@ == old(self).pushed_scope_asts(scope_type, owner),
            old(self).spec_find_scope(scope_type, owner as int) is None ==> final(self).section_scope_fresh(
                res as int,
                scope_type,
                owner,
            ),
            forall|k: int| 0 <= k < old(self).scopes.len() ==> #[trigger] final(self).scopes@[k] == old(self).scopes@[k],
            final(self).module_scopes_valid(),
            final(self).mods.len() == old(self).mods.len(),
            forall|m: int| 0 <= m < final(self).mods.len() && m != owner ==> #[trigger] final(self).mods@[m] == old(self).mods@[m],
            final(self).mods@[owner as int].name_id == old(self).mods@[owner as int].name_id,
            final(self).mods@[owner as int].state == old(self).mods@[owner as int].state,
            final(self).mods@[owner as int].mod_id == old(self).mods@[owner as int].mod_id,
            final(self).mods@[owner as int].imports@ == old(self).mods@[owner as int].imports@,
            final(self).mods@[owner as int].exports@ == old(self).mods@[owner as int].exports@,
            final(self).mods@[owner as int].scopes@ == old(self).pushed_scope_list(scope_type, owner),
            final(self).syms.len() == old(self).pushed_scope_syms(scope_type, owner),
            final(self).syms@.take(old(self).syms.len() as int) == old(self).syms@,
            old(self).push_loads_complex(scope_type, owner) ==> final(self).platform_scopes_loaded(
                old(self).scopes.len() as int,
                old(self).syms.len() as int,
            ),
            !old(self).push_loads_complex(scope_type, owner) ==> final(self).intrinsic_registry == old(self).intrinsic_registry,
            final(self).intrinsic_registry.core_mod_id == old(self).intrinsic_registry.core_mod_id,
            final(self).types == old(self).types,
            final(self).variables@ == old(self).variables@,
            final(self).exprs@ == old(self).exprs@,
            final(self).values@ == old(self).values@,
            final(self).directives == old(self).directives,
            final(self).resolver_state == old(self).resolver_state,
            final(self).bind == old(self).bind,
    {
        let ghost before = *self;
        let scope_id = self.push_scope(scope_type, owner);
        proof {
            if before.spec_find_scope(scope_type, owner as int) is None {
                lemma_pushed_scope_is_found(&before, self, scope_type, owner, scope_id);
                assert(self.syms@.take(before.syms.len() as int) =~= before.syms@);
            }
        }
        scope_id
    }

    /// Binds syntax item `ast_id` to `sym_id` in scope `scope_id`, and the identifier `name_id`
    /// too unless the scope binds it already; returns the symbol it was bound to.
    fn bind_declaration(&mut self, scope_id: ScopeId, ast_id: AstId, name_id: InternedId, sym_id: SymbolId) -> (original:
        Option<SymbolId>)
        requires
            scope_id < old(self).scopes.len(),
        ensures
            original == spec_bound(old(self).table(scope_id as int), name_id),
            final(self).table(scope_id as int) == spec_bind_first(old(self).table(scope_id as int), name_id, sym_id),
            final(self).scopes@[scope_id as int].scope.table.ast_to_sym@ == old(self).scopes@[scope_id as int].scope.table.ast_to_sym@.insert(
                ast_id,
                sym_id,
            ),
            final(self).scopes.len() == old(self).scopes.len(),
            forall|s: int| 0 <= s < old(self).scopes.len() && s != scope_id ==> #[trigger] final(self).scopes@[s] == old(self).scopes@[s],
            final(self).scopes@[scope_id as int].scope.scope_id == old(self).scopes@[scope_id as int].scope.scope_id,
            final(self).scopes@[scope_id as int].scope.scope_type == old(self).scopes@[scope_id as int].scope.scope_type,
            final(self).scopes@[scope_id as int].scope.is_intrinsic == old(self).scopes@[scope_id as int].scope.is_intrinsic,
            final(self).scopes@[scope_id as int].scope.intrinsic_scope == old(self).scopes@[scope_id as int].scope.intrinsic_scope,
            final(self).scopes@[scope_id as int].sym_owner == old(self).scopes@[scope_id as int].sym_owner,
            final(self).scopes@[scope_id as int].mod_owner == old(self).scopes@[scope_id as int].mod_owner,
            final(self).mods == old(self).mods,
            final(self).types == old(self).types,
            final(self).syms == old(self).syms,
            final(self).variables == old(self).variables,
            final(self).values == old(self).values,
            final(self).exprs == old(self).exprs,
            final(self).directives == old(self).directives,
            final(self).intrinsic_registry == old(self).intrinsic_registry,
            final(self).resolver_state == old(self).resolver_state,
            final(self).bind == old(self).bind,
    {
        self.scopes[scope_id as usize].scope.table.ast_to_sym.insert(ast_id, sym_id);
        let original = match self.scopes[scope_id as usize].scope.table.interned_to_sym.get(&name_id) {
            Some(found) => Some(*found),
            None => None,
        };
        if original.is_none() {
            self.scopes[scope_id as usize].scope.table.interned_to_sym.insert(name_id, sym_id);
        }
        original
    }

    /// Binds `ast_id`, and `name_id` unless already bound, to `sym_id` in scope `scope_id`, then
    /// adds `sym_id` to the exports of module `owner` when `export` holds; returns the symbol the
    /// name was already bound to.
    fn bind_and_export(
        &mut self,
        scope_id: ScopeId,
        ast_id: AstId,
        name_id: InternedId,
        sym_id: SymbolId,
        owner: ModuleId,
        export: bool,
    ) -> (original: Option<SymbolId>)
        requires
            scope_id < old(self).scopes.len(),
            owner < old(self).mods.len(),
            old(self).module_scopes_valid(),
        ensures
            original == spec_bound(old(self).table(scope_id as int), name_id),
            final(self).table(scope_id as int) == spec_bind_first(old(self).table(scope_id as int), name_id, sym_id),
            final(self).scopes@[scope_id as int].scope.table.ast_to_sym@ == old(self).scopes@[scope_id as int].scope.table.ast_to_sym@.insert(
                ast_id,
                sym_id,
            ),
            final(self).scopes.len() == old(self).scopes.len(),
            forall|k: int| 0 <= k < old(self).scopes.len() && k != scope_id ==> #[trigger] final(self).scopes@[k] == old(self).scopes@[k],
            final(self).scopes@[scope_id as int].scope.scope_id == old(self).scopes@[scope_id as int].scope.scope_id,
            final(self).scopes@[scope_id as int].scope.scope_type == old(self).scopes@[scope_id as int].scope.scope_type,
            final(self).scopes@[scope_id as int].scope.is_intrinsic == old(self).scopes@[scope_id as int].scope.is_intrinsic,
            final(self).scopes@[scope_id as int].scope.intrinsic_scope == old(self).scopes@[scope_id as int].scope.intrinsic_scope,
            final(self).scopes@[scope_id as int].sym_owner == old(self).scopes@[scope_id as int].sym_owner,
            final(self).scopes@[scope_id as int].mod_owner == old(self).scopes@[scope_id as int].mod_owner,
            final(self).module_scopes_valid(),
            final(self).mods.len() == old(self).mods.len(),
            forall|m: int| 0 <= m < final(self).mods.len() && m != owner ==> #[trigger] final(self).mods@[m] == old(self).mods@[m],
            final(self).mods@[owner as int].name_id == old(self).mods@[owner as int].name_id,
            final(self).mods@[owner as int].state == old(self).mods@[owner as int].state,
            final(self).mods@[owner as int].mod_id == old(self).mods@[owner as int].mod_id,
            final(self).mods@[owner as int].imports@ == old(self).mods@[owner as int].imports@,
            final(self).mods@[owner as int].scopes@ == old(self).mods@[owner as int].scopes@,
            final(self).mods@[owner as int].exports@ == if export {
                old(self).mods@[owner as int].exports@.push(sym_id)
            } else {
                old(self).mods@[owner as int].exports@
            },
            final(self).types == old(self).types,
            final(self).syms == old(self).syms,
            final(self).variables == old(self).variables,
            final(self).values == old(self).values,
            final(self).exprs == old(self).exprs,
            final(self).directives == old(self).directives,
            final(self).intrinsic_registry == old(self).intrinsic_registry,
            final(self).resolver_state == old(self).resolver_state,
            final(self).bind == old(self).bind,
    {
        let original = self.bind_declaration(scope_id, ast_id, name_id, sym_id);
        if export {
            self.mods[owner as usize].exports.push(sym_id);
        }
        proof {
            assert forall|m: int, k: int|
                0 <= m < self.mods.len() && 0 <= k < self.mods@[m].scopes.len() implies (
                #[trigger] self.mods@[m].scopes@[k]) < self.scopes.len() by {
                if m == owner {
                    assert(self.mods@[m].scopes@ == old(self).mods@[m].scopes@);
                }
            }
        }
        original
    }

    /// What registering declaration `decl` of module `owner` as syntax item `ast_id` in section
    /// `scope_type` left: the section's scope binds the item and, unless it was bound already, the
    /// name to `res.sym_id`; the declaration's symbol of kind `kind` follows the symbols pushing the
    /// scope created; the module exports `res.sym_id` when `exported` holds; nothing else changed
    /// but the types, the variables and the scopes the registration adds.
    pub open spec fn section_registered(
        &self,
        old: &ScriptCompiler,
        decl: DeclHeader,
        ast_id: AstId,
        scope_type: ScopeType,
        owner: ModuleId,
        res: Registered,
        kind: SymbolKind,
        exported: bool,
    ) -> bool {
        let s = old.pushed_scope_id(scope_type, owner);
        let before = old.pushed_scope_table(scope_type, owner);
        let sym_pos = old.pushed_scope_syms(scope_type, owner);
        &&& res.original == spec_bound(before, decl.name_id)
        &&& 0 <= s < self.scopes.len()
        &&& self.scopes@[s].scope.scope_type == scope_type
        &&& self.spec_find_scope(scope_type, owner as int) == Some(s as ScopeId)
        &&& self.table(s) == spec_bind_first(before, decl.name_id, res.sym_id)
        &&& self.scopes@[s].scope.table.ast_to_sym@ == old.pushed_scope_asts(scope_type, owner).insert(ast_id, res.sym_id)
        &&& old.spec_find_scope(scope_type, owner as int) is None ==> self.section_scope_fresh(s, scope_type, owner)
        &&& forall|k: int| 0 <= k < old.scopes.len() && k != s ==> #[trigger] self.scopes@[k] == old.scopes@[k]
        &&& self.module_scopes_valid()
        &&& self.mods.len() == old.mods.len()
        &&& forall|m: int| 0 <= m < self.mods.len() && m != owner ==> #[trigger] self.mods@[m] == old.mods@[m]
        &&& self.mods@[owner as int].name_id == old.mods@[owner as int].name_id
        &&& self.mods@[owner as int].state == old.mods@[owner as int].state
        &&& self.mods@[owner as int].mod_id == old.mods@[owner as int].mod_id
        &&& self.mods@[owner as int].imports@ == old.mods@[owner as int].imports@
        &&& self.mods@[owner as int].exports@ == if exported {
            old.mods@[owner as int].exports@.push(res.sym_id)
        } else {
            old.mods@[owner as int].exports@
        }
        &&& self.syms.len() == sym_pos + 1
        &&& self.syms@.take(old.syms.len() as int) == old.syms@
        &&& self.syms@[sym_pos] == spec_decl_symbol(decl, res.sym_id, ast_id, owner, scope_type, kind)
        &&& old.push_loads_complex(scope_type, owner) ==> self.platform_scopes_loaded(
            old.scopes.len() as int,
            old.syms.len() as int,
        )
        &&& !old.push_loads_complex(scope_type, owner) ==> self.intrinsic_registry == old.intrinsic_registry
        &&& self.intrinsic_registry.core_mod_id == old.intrinsic_registry.core_mod_id
        &&& self.exprs@ == old.exprs@
        &&& self.values@ == old.values@
        &&& self.directives == old.directives
        &&& self.resolver_state == old.resolver_state
        &&& self.bind == old.bind
    }

    /// Registers the typedef `decl` of module `owner`, syntax item `ast_id`, in the scope of
    /// section `scope_type`: its symbol takes the next place once that scope was pushed, then its
    /// typedef type, naming the `Unknown` type right after it, a slot left to resolve. A typedef
    /// is not exported. Returns the symbol and the one the name was bound to before, if any.
    pub fn register_typedef(&mut self, decl: DeclHeader, ast_id: AstId, scope_type: ScopeType, owner: ModuleId) -> (res: Registered)
        requires
            old(self).can_register(scope_type, owner),
        ensures
            res.sym_id == old(self).pushed_scope_syms(scope_type, owner),
            final(self).section_registered(
                old(self),
                decl,
                ast_id,
                scope_type,
                owner,
                res,
                SymbolKind::Type(old(self).types.len() as TypeId),
                false,
            ),
            final(self).scopes.len() == old(self).pushed_scope_count(scope_type, owner),
            final(self).mods@[owner as int].scopes@ == old(self).pushed_scope_list(scope_type, owner),
            final(self).types@ == old(self).types@.push(
                TypeInfo {
                    ty: Type::TypeDef(
                        TypeDef { sym_id: res.sym_id, name_id: decl.name_id, inner_type_id: (old(self).types.len() + 1) as TypeId },
                    ),
                    owner,
                },
            ).push(TypeInfo { ty: Type::Unknown, owner }),
            final(self).variables@ == old(self).variables@,
    {
        let ghost start = *self;
        let scope_id = self.enter_section(scope_type, owner);
        let ghost entered = *self;
        let sym_id = self.syms.len() as SymbolId;
        let original = self.bind_and_export(scope_id, ast_id, decl.name_id, sym_id, owner, false);
        let ghost bound = *self;

        let type_def_type_id = self.types.len() as TypeId;
        let inner_type_id = (self.types.len() + 1) as TypeId;
        let type_def = TypeDef { sym_id, name_id: decl.name_id, inner_type_id };
        let symbol = Symbol::new(
            decl.name_id,
            sym_id,
            Some(ast_id),
            SymbolOrigin::Module(owner),
            decl.is_priv,
            None,
            scope_type,
            SymbolKind::Type(type_def_type_id),
        );
        self.syms.push(symbol);
        self.types.push(TypeInfo::new(Type::TypeDef(type_def), owner));
        self.types.push(TypeInfo::new(Type::Unknown, owner));
        proof {
            assert(self.mods@[owner as int].scopes@.take(bound.mods@[owner as int].scopes.len() as int)
                =~= bound.mods@[owner as int].scopes@);
            assert(self.syms@.take(bound.syms.len() as int) =~= bound.syms@);
            lemma_registration_kept(&start, &entered, &bound, self, scope_type, owner, scope_id);
            assert(self.syms@.take(start.syms.len() as int) =~= start.syms@);
        }
        Registered { sym_id, original }
    }

    /// Registers the struct `decl` of module `owner`, syntax item `ast_id`, in the scope of
    /// section `scope_type`, exported unless private. Its symbol id is taken before the scope is
    /// pushed, so when that push creates the complex scope's platform namespaces the id is the
    /// place the first of those took, while the struct's symbol follows them. Its struct type,
    /// with no fields yet, takes the next type place.
    pub fn register_struct(&mut self, decl: DeclHeader, ast_id: AstId, scope_type: ScopeType, owner: ModuleId) -> (res: Registered)
        requires
            old(self).can_register(scope_type, owner),
        ensures
            res.sym_id == old(self).syms.len(),
            final(self).section_registered(
                old(self),
                decl,
                ast_id,
                scope_type,
                owner,
                res,
                SymbolKind::Type(old(self).types.len() as TypeId),
                !decl.is_priv,
            ),
            final(self).scopes.len() == old(self).pushed_scope_count(scope_type, owner),
            final(self).mods@[owner as int].scopes@ == old(self).pushed_scope_list(scope_type, owner),
            final(self).types.len() == old(self).types.len() + 1,
            final(self).types@.take(old(self).types.len() as int) == old(self).types@,
            final(self).types@[old(self).types.len() as int].owner == owner,
            final(self).types@[old(self).types.len() as int].ty matches Type::Struct(def) && def.sym_id == res.sym_id
                && def.fields@ == Seq::<MemberId>::empty(),
            final(self).variables@ == old(self).variables@,
    {
        let ghost start = *self;
        let sym_id = self.syms.len() as SymbolId;
        let scope_id = self.enter_section(scope_type, owner);
        let ghost entered = *self;
        let original = self.bind_and_export(scope_id, ast_id, decl.name_id, sym_id, owner, !decl.is_priv);
        let ghost bound = *self;

        let type_id = self.types.len() as TypeId;
        let struct_def = StructDef { sym_id, fields: Vec::new() };
        let symbol = Symbol::new(
            decl.name_id,
            sym_id,
            Some(ast_id),
            SymbolOrigin::Module(owner),
            decl.is_priv,
            None,
            scope_type,
            SymbolKind::Type(type_id),
        );
        self.syms.push(symbol);
        self.types.push(TypeInfo::new(Type::Struct(struct_def), owner));
        proof {
            assert(self.mods@[owner as int].scopes@.take(bound.mods@[owner as int].scopes.len() as int)
                =~= bound.mods@[owner as int].scopes@);
            assert(self.syms@.take(bound.syms.len() as int) =~= bound.syms@);
            lemma_registration_kept(&start, &entered, &bound, self, scope_type, owner, scope_id);
            assert(self.syms@.take(start.syms.len() as int) =~= start.syms@);
            assert(self.types@.take(start.types.len() as int) =~= start.types@);
        }
        Registered { sym_id, original }
    }

    /// Registers the enum `decl` of module `owner`, syntax item `ast_id`, in the scope of section
    /// `scope_type`, exported unless private: its symbol takes the next place once that scope was
    /// pushed, its enum type, with no variants yet, the next type place.
    pub fn register_enum(&mut self, decl: DeclHeader, ast_id: AstId, scope_type: ScopeType, owner: ModuleId) -> (res: Registered)
        requires
            old(self).can_register(scope_type, owner),
        ensures
            res.sym_id == old(self).pushed_scope_syms(scope_type, owner),
            final(self).section_registered(
                old(self),
                decl,
                ast_id,
                scope_type,
                owner,
                res,
                SymbolKind::Type(old(self).types.len() as TypeId),
                !decl.is_priv,
            ),
            final(self).scopes.len() == old(self).pushed_scope_count(scope_type, owner),
            final(self).mods@[owner as int].scopes@ == old(self).pushed_scope_list(scope_type, owner),
            final(self).types.len() == old(self).types.len() + 1,
            final(self).types@.take(old(self).types.len() as int) == old(self).types@,
            final(self).types@[old(self).types.len() as int].owner == owner,
            final(self).types@[old(self).types.len() as int].ty matches Type::Enum(def) && def.sym_id == res.sym_id
                && def.variants@ == Seq::<MemberId>::empty(),
            final(self).variables@ == old(self).variables@,
    {
        let ghost start = *self;
        let scope_id = self.enter_section(scope_type, owner);
        let ghost entered = *self;
        let sym_id = self.syms.len() as SymbolId;
        let type_id = self.types.len() as TypeId;
        let original = self.bind_and_export(scope_id, ast_id, decl.name_id, sym_id, owner, !decl.is_priv);
        let ghost bound = *self;

        let enum_def = EnumDef { sym_id, variants: Vec::new() };
        let symbol = Symbol::new(
            decl.name_id,
            sym_id,
            Some(ast_id),
            SymbolOrigin::Module(owner),
            decl.is_priv,
            None,
            scope_type,
            SymbolKind::Type(type_id),
        );
        self.syms.push(symbol);
        self.types.push(TypeInfo::new(Type::Enum(enum_def), owner));
        proof {
            assert(self.mods@[owner as int].scopes@.take(bound.mods@[owner as int].scopes.len() as int)
                =~= bound.mods@[owner as int].scopes@);
            assert(self.syms@.take(bound.syms.len() as int) =~= bound.syms@);
            lemma_registration_kept(&start, &entered, &bound, self, scope_type, owner, scope_id);
            assert(self.syms@.take(start.syms.len() as int) =~= start.syms@);
            assert(self.types@.take(start.types.len() as int) =~= start.types@);
        }
        Registered { sym_id, original }
    }

    /// Registers the variable `decl` of module `owner`, syntax item `ast_id`, in the scope of
    /// section `scope_type`, exported unless private. As for a struct, its symbol id is taken
    /// before the scope is pushed. An `Unknown` type takes the next type place, reserved for the
    /// variable's type, and the variable, in that reserved state, the next variable place.
    pub fn register_var(&mut self, decl: DeclHeader, ast_id: AstId, scope_type: ScopeType, owner: ModuleId) -> (res: Registered)
        requires
            old(self).can_register(scope_type, owner),
        ensures
            res.sym_id == old(self).syms.len(),
            final(self).section_registered(
                old(self),
                decl,
                ast_id,
                scope_type,
                owner,
                res,
                SymbolKind::Variable(old(self).variables.len() as VariableId),
                !decl.is_priv,
            ),
            final(self).scopes.len() == old(self).pushed_scope_count(scope_type, owner),
            final(self).mods@[owner as int].scopes@ == old(self).pushed_scope_list(scope_type, owner),
            final(self).types@ == old(self).types@.push(TypeInfo { ty: Type::Unknown, owner }),
            final(self).variables@ == old(self).variables@.push(
                VarDef {
                    self_id: res.sym_id,
                    name_id: decl.name_id,
                    meta: VariableMetadata::User(ast_id),
                    state: VariableState::ReservedTypeSlot(old(self).types.len() as TypeId),
                },
            ),
    {
        let ghost start = *self;
        let sym_id = self.syms.len() as SymbolId;
        let scope_id = self.enter_section(scope_type, owner);
        let ghost entered = *self;
        let original = self.bind_and_export(scope_id, ast_id, decl.name_id, sym_id, owner, !decl.is_priv);
        let ghost bound = *self;

        let type_id = self.types.len() as TypeId;
        let var_id = self.variables.len() as VariableId;
        let var = VarDef::new(sym_id, decl.name_id, VariableMetadata::User(ast_id), VariableState::ReservedTypeSlot(type_id));
        let symbol = Symbol::new(
            decl.name_id,
            sym_id,
            Some(ast_id),
            SymbolOrigin::Module(owner),
            decl.is_priv,
            None,
            scope_type,
            SymbolKind::Variable(var_id),
        );
        self.syms.push(symbol);
        self.types.push(TypeInfo::new(Type::Unknown, owner));
        self.variables.push(var);
        proof {
            assert(self.mods@[owner as int].scopes@.take(bound.mods@[owner as int].scopes.len() as int)
                =~= bound.mods@[owner as int].scopes@);
            assert(self.syms@.take(bound.syms.len() as int) =~= bound.syms@);
            lemma_registration_kept(&start, &entered, &bound, self, scope_type, owner, scope_id);
            assert(self.syms@.take(start.syms.len() as int) =~= start.syms@);
        }
        Registered { sym_id, original }
    }

    /// Registers the alias `decl` of module `owner`, syntax item `ast_id`, in the scope of section
    /// `scope_type`, exported unless private: its symbol takes the next place once that scope was
    /// pushed, and a local scope owned by the alias's symbol, listed last by the module, holds its
    /// parameters. Its alias type, naming that local scope, takes the next type place.
    pub fn register_alias(&mut self, decl: DeclHeader, ast_id: AstId, scope_type: ScopeType, owner: ModuleId) -> (res: Registered)
        requires
            old(self).can_register(scope_type, owner),
        ensures
            res.sym_id == old(self).pushed_scope_syms(scope_type, owner),
            final(self).section_registered(
                old(self),
                decl,
                ast_id,
                scope_type,
                owner,
                res,
                SymbolKind::Type(old(self).types.len() as TypeId),
                !decl.is_priv,
            ),
            final(self).scopes.len() == old(self).pushed_scope_count(scope_type, owner) + 1,
            ({
                let local = old(self).pushed_scope_count(scope_type, owner);
                &&& final(self).mods@[owner as int].scopes@ == old(self).pushed_scope_list(scope_type, owner).push(local as ScopeId)
                &&& final(self).scopes@[local].scope.scope_id == local
                &&& final(self).scopes@[local].scope.scope_type == ScopeType::Local
                &&& !final(self).scopes@[local].scope.is_intrinsic
                &&& final(self).scopes@[local].scope.intrinsic_scope == None::<ScopeId>
                &&& final(self).scopes@[local].scope.table.interned_to_sym@ == Map::<InternedId, SymbolId>::empty()
                &&& final(self).scopes@[local].scope.table.ast_to_sym@ == Map::<AstId, SymbolId>::empty()
                &&& final(self).scopes@[local].sym_owner == Some(res.sym_id)
                &&& final(self).scopes@[local].mod_owner == owner
                &&& final(self).types@ == old(self).types@.push(
                    TypeInfo { ty: Type::Alias(AliasDef { sym_id: res.sym_id, local_scope_id: local as ScopeId }), owner },
                )
            }),
            final(self).variables@ == old(self).variables@,
    {
        let ghost start = *self;
        let scope_id = self.enter_section(scope_type, owner);
        let ghost entered = *self;
        let sym_id = self.syms.len() as SymbolId;
        let type_id = self.types.len() as TypeId;
        let original = self.bind_and_export(scope_id, ast_id, decl.name_id, sym_id, owner, !decl.is_priv);
        let ghost bound = *self;

        // Sections have no parent scopes, so the alias's parameters get a local scope of their own.
        let local_scope_id = self.scopes.len() as ScopeId;
        let local_scope = Scope::new(local_scope_id, ScopeType::Local, false, None);
        self.scopes.push(ScopeInfo::new(local_scope, Some(sym_id), owner));
        self.mods[owner as usize].scopes.push(local_scope_id);

        let alias_def = AliasDef { sym_id, local_scope_id };
        let symbol = Symbol::new(
            decl.name_id,
            sym_id,
            Some(ast_id),
            SymbolOrigin::Module(owner),
            decl.is_priv,
            None,
            scope_type,
            SymbolKind::Type(type_id),
        );
        self.syms.push(symbol);
        self.types.push(TypeInfo::new(Type::Alias(alias_def), owner));
        proof {
            assert(self.mods@[owner as int].scopes@.take(bound.mods@[owner as int].scopes.len() as int)
                =~= bound.mods@[owner as int].scopes@);
            assert(self.syms@.take(bound.syms.len() as int) =~= bound.syms@);
            lemma_registration_kept(&start, &entered, &bound, self, scope_type, owner, scope_id);
            assert(self.syms@.take(start.syms.len() as int) =~= start.syms@);
            assert forall|m: int, k: int|
                0 <= m < self.mods.len() && 0 <= k < self.mods@[m].scopes.len() implies (
                #[trigger] self.mods@[m].scopes@[k]) < self.scopes.len() by {
                if m == owner && k < bound.mods@[m].scopes.len() {
                    assert(self.mods@[m].scopes@[k] == bound.mods@[m].scopes@[k]);
                }
            }
        }
        Registered { sym_id, original }
    }
}

/// Registering two declarations of the same name in the same section of a module keeps the name
/// bound to the symbol it had first: the second registration reports that symbol as the one
/// already bound, and the section's scope still binds the name to it.
pub proof fn lemma_duplicate_keeps_first(
    c0: &ScriptCompiler,
    c1: &ScriptCompiler,
    c2: &ScriptCompiler,
    first: DeclHeader,
    second: DeclHeader,
    first_ast: AstId,
    second_ast: AstId,
    scope_type: ScopeType,
    owner: ModuleId,
    r1: Registered,
    r2: Registered,
    k1: SymbolKind,
    k2: SymbolKind,
    e1: bool,
    e2: bool,
)
    requires
        c1.section_registered(c0, first, first_ast, scope_type, owner, r1, k1, e1),
        c2.section_registered(c1, second, second_ast, scope_type, owner, r2, k2, e2),
        first.name_id == second.name_id,
    ensures
        c1.pushed_scope_id(scope_type, owner) == c0.pushed_scope_id(scope_type, owner),
        r2.original == Some(
            match r1.original {
                Some(found) => found,
                None => r1.sym_id,
            },
        ),
        c2.table(c0.pushed_scope_id(scope_type, owner)) == c1.table(c0.pushed_scope_id(scope_type, owner)),
        c2.table(c0.pushed_scope_id(scope_type, owner))[first.name_id] == r2.original->0,
{
    let s = c0.pushed_scope_id(scope_type, owner);
    assert(c1.pushed_scope_table(scope_type, owner) == c1.table(s));
    assert(c1.table(s).contains_key(first.name_id));
    assert(c2.table(s) == c1.table(s));
}

/// The symbol registered for a declaration sits at the id the registration returns, except where
/// the id was taken before a push that created the complex scope's platform namespaces.
pub proof fn lemma_registered_symbol_at_id(
    new: &ScriptCompiler,
    old: &ScriptCompiler,
    decl: DeclHeader,
    ast_id: AstId,
    scope_type: ScopeType,
    owner: ModuleId,
    res: Registered,
    kind: SymbolKind,
    exported: bool,
)
    requires
        new.section_registered(old, decl, ast_id, scope_type, owner, res, kind, exported),
        res.sym_id == old.pushed_scope_syms(scope_type, owner) || (res.sym_id == old.syms.len()
            && !old.push_loads_complex(scope_type, owner)),
    ensures
        res.sym_id < new.syms.len(),
        new.syms@[res.sym_id as int] == spec_decl_symbol(decl, res.sym_id, ast_id, owner, scope_type, kind),
        new.syms@[res.sym_id as int].self_id == res.sym_id,
{
}

} // verus!
