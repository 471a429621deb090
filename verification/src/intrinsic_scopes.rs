//! Scopes the compiler creates on demand: a module's scope of a given section, and the intrinsic
//! scope holding the platform namespaces that complex sections reach.
use vstd::prelude::*;
use crate::extern_helpers::{
    all_extern_namespaces_dataset, is_platform_namespace, spec_java_types, spec_rust_types,
};
use crate::hir::{Symbol, SymbolKind, SymbolOrigin};
use crate::instantiation_symbols::{
    spec_base_scope_count, spec_base_symbol_count, spec_base_variable_count, spec_scope_count,
    spec_symbol_count, spec_variable_count, InstantiationSymbolBase,
};
use crate::ids::{InternedId, ModuleId, ScopeId, SymbolId};
use crate::intern::{
    INTERNED_JAVA_LOWER, INTERNED_JAVA_UPPER, INTERNED_RUST_LOWER, INTERNED_RUST_UPPER,
    INTERNED_TYPES_LOWER,
};
use crate::registration::{
    lemma_extends_refl, lemma_extends_trans, lemma_index_bounds, lemma_registered_base_persists,
    lemma_registered_bases_all, spec_base_scalar, spec_bases_scalar, spec_bases_table,
    spec_registered_symbol,
};
use crate::scopes::{AssociatedScopeKind, IntrinsicRegistry, Scope, ScopeInfo, ScopeType};
use crate::script_compiler::ScriptCompiler;

verus! {

/// Symbols registering every root of `roots` pushes.
pub open spec fn spec_roots_symbol_count(roots: Seq<Seq<InstantiationSymbolBase>>) -> nat
    decreases roots.len(),
{
    if roots.len() == 0 {
        0
    } else {
        spec_roots_symbol_count(roots.drop_last()) + spec_symbol_count(roots.last())
    }
}

/// Scopes registering every root of `roots` pushes.
pub open spec fn spec_roots_scope_count(roots: Seq<Seq<InstantiationSymbolBase>>) -> nat
    decreases roots.len(),
{
    if roots.len() == 0 {
        0
    } else {
        spec_roots_scope_count(roots.drop_last()) + spec_scope_count(roots.last())
    }
}

/// Variables registering every root of `roots` pushes.
pub open spec fn spec_roots_variable_count(roots: Seq<Seq<InstantiationSymbolBase>>) -> nat
    decreases roots.len(),
{
    if roots.len() == 0 {
        0
    } else {
        spec_roots_variable_count(roots.drop_last()) + spec_variable_count(roots.last())
    }
}

/// A table after binding the bases of every root of `roots` in order, symbol ids counted from
/// `sym0`.
pub open spec fn spec_roots_table(
    table: Map<InternedId, SymbolId>,
    roots: Seq<Seq<InstantiationSymbolBase>>,
    sym0: int,
) -> Map<InternedId, SymbolId>
    decreases roots.len(),
{
    if roots.len() == 0 {
        table
    } else {
        spec_bases_table(
            spec_roots_table(table, roots.drop_last(), sym0),
            roots.last(),
            sym0 + spec_roots_symbol_count(roots.drop_last()),
        )
    }
}

/// Counting the first `i + 1` roots adds root `i` to counting the first `i`.
proof fn lemma_roots_counts_step(roots: Seq<Seq<InstantiationSymbolBase>>, i: int)
    requires
        0 <= i < roots.len(),
    ensures
        spec_roots_symbol_count(roots.take(i + 1)) == spec_roots_symbol_count(roots.take(i))
            + spec_symbol_count(roots[i]),
        spec_roots_scope_count(roots.take(i + 1)) == spec_roots_scope_count(roots.take(i))
            + spec_scope_count(roots[i]),
        spec_roots_variable_count(roots.take(i + 1)) == spec_roots_variable_count(roots.take(i))
            + spec_variable_count(roots[i]),
{
    assert(roots.take(i + 1).drop_last() =~= roots.take(i));
    assert(roots.take(i + 1).last() == roots[i]);
}

/// Counting the first `k` roots never gives more than counting all of them.
proof fn lemma_roots_counts_prefix(roots: Seq<Seq<InstantiationSymbolBase>>, k: int)
    requires
        0 <= k <= roots.len(),
    ensures
        spec_roots_symbol_count(roots.take(k)) <= spec_roots_symbol_count(roots),
        spec_roots_scope_count(roots.take(k)) <= spec_roots_scope_count(roots),
        spec_roots_variable_count(roots.take(k)) <= spec_roots_variable_count(roots),
    decreases roots.len(),
{
    if k == roots.len() {
        assert(roots.take(k) =~= roots);
    } else {
        lemma_roots_counts_prefix(roots.drop_last(), k);
        assert(roots.drop_last().take(k) =~= roots.take(k));
    }
}

impl ScriptCompiler {
    /// What registering root `r` of `roots` left for its base `j`, the arenas having held `s0`
    /// symbols, `c0` scopes, `v0` variables, `e0` expressions and `a0` values before the first
    /// root.
    pub open spec fn registered_root_base(
        &self,
        roots: Seq<Seq<InstantiationSymbolBase>>,
        r: int,
        j: int,
        s0: int,
        c0: int,
        v0: int,
        e0: int,
        a0: int,
    ) -> bool {
        let pre = roots.take(r);
        let v = spec_roots_variable_count(pre);
        self.registered_base(
            roots[r],
            j,
            s0 + spec_roots_symbol_count(pre),
            c0 + spec_roots_scope_count(pre),
            v0 + v,
            e0 + v,
            a0 + v,
        )
    }

    /// Entry point to the recursive registration of every root of `root_dataset` into scope
    /// `current_scope_id`, root after root.
    pub(crate) fn register_all_instantiation_bases(
        &mut self,
        current_scope_id: ScopeId,
        root_dataset: &Vec<Vec<InstantiationSymbolBase>>,
    )
        requires
            current_scope_id < old(self).scopes.len(),
            forall|r: int| 0 <= r < root_dataset.len() ==> #[trigger] spec_bases_scalar(root_dataset@[r]@),
            old(self).syms.len() + spec_roots_symbol_count(root_dataset@.map_values(|v: Vec<InstantiationSymbolBase>| v@)) <= u32::MAX,
            old(self).scopes.len() + spec_roots_scope_count(root_dataset@.map_values(|v: Vec<InstantiationSymbolBase>| v@)) <= u16::MAX,
            old(self).variables.len() + spec_roots_variable_count(root_dataset@.map_values(|v: Vec<InstantiationSymbolBase>| v@)) <= u32::MAX,
            old(self).exprs.len() + spec_roots_variable_count(root_dataset@.map_values(|v: Vec<InstantiationSymbolBase>| v@)) <= u32::MAX,
            old(self).values.len() + spec_roots_variable_count(root_dataset@.map_values(|v: Vec<InstantiationSymbolBase>| v@)) <= u32::MAX,
        ensures
            ({
                let roots = root_dataset@.map_values(|v: Vec<InstantiationSymbolBase>| v@);
                &&& final(self).syms.len() == old(self).syms.len() + spec_roots_symbol_count(roots)
                &&& final(self).scopes.len() == old(self).scopes.len() + spec_roots_scope_count(roots)
                &&& final(self).variables.len() == old(self).variables.len() + spec_roots_variable_count(roots)
                &&& final(self).exprs.len() == old(self).exprs.len() + spec_roots_variable_count(roots)
                &&& final(self).values.len() == old(self).values.len() + spec_roots_variable_count(roots)
                &&& final(self).table(current_scope_id as int) == spec_roots_table(
                    old(self).table(current_scope_id as int),
                    roots,
                    old(self).syms.len() as int,
                )
                &&& forall|r: int, j: int|
                    0 <= r < roots.len() && 0 <= j < roots[r].len() ==> #[trigger] final(self).registered_root_base(
                        roots,
                        r,
                        j,
                        old(self).syms.len() as int,
                        old(self).scopes.len() as int,
                        old(self).variables.len() as int,
                        old(self).exprs.len() as int,
                        old(self).values.len() as int,
                    )
            }),
            final(self).extends_arenas(old(self), current_scope_id as int),
            final(self).same_outside_registration(old(self)),
    {
        let ghost start = *self;
        let ghost roots = root_dataset@.map_values(|v: Vec<InstantiationSymbolBase>| v@);
        let ghost s0 = self.syms.len() as int;
        let ghost c0 = self.scopes.len() as int;
        let ghost v0 = self.variables.len() as int;
        let ghost e0 = self.exprs.len() as int;
        let ghost a0 = self.values.len() as int;
        let n = root_dataset.len();
        let mut i: usize = 0;
        proof {
            lemma_extends_refl(&start, current_scope_id as int);
            assert(roots.take(0) =~= Seq::<Seq<InstantiationSymbolBase>>::empty());
        }
        while i < n
            invariant
                n == root_dataset.len(),
                roots == root_dataset@.map_values(|v: Vec<InstantiationSymbolBase>| v@),
                roots.len() == n,
                0 <= i <= n,
                s0 == start.syms.len(),
                c0 == start.scopes.len(),
                v0 == start.variables.len(),
                e0 == start.exprs.len(),
                a0 == start.values.len(),
                current_scope_id < start.scopes.len(),
                forall|r: int| 0 <= r < root_dataset.len() ==> #[trigger] spec_bases_scalar(root_dataset@[r]@),
                s0 + spec_roots_symbol_count(roots) <= u32::MAX,
                c0 + spec_roots_scope_count(roots) <= u16::MAX,
                v0 + spec_roots_variable_count(roots) <= u32::MAX,
                e0 + spec_roots_variable_count(roots) <= u32::MAX,
                a0 + spec_roots_variable_count(roots) <= u32::MAX,
                self.syms.len() == s0 + spec_roots_symbol_count(roots.take(i as int)),
                self.scopes.len() == c0 + spec_roots_scope_count(roots.take(i as int)),
                self.variables.len() == v0 + spec_roots_variable_count(roots.take(i as int)),
                self.exprs.len() == e0 + spec_roots_variable_count(roots.take(i as int)),
                self.values.len() == a0 + spec_roots_variable_count(roots.take(i as int)),
                self.extends_arenas(&start, current_scope_id as int),
                self.table(current_scope_id as int) == spec_roots_table(
                    start.table(current_scope_id as int),
                    roots.take(i as int),
                    s0,
                ),
                forall|r: int, j: int|
                    0 <= r < i && 0 <= j < roots[r].len() ==> #[trigger] self.registered_root_base(roots, r, j, s0, c0, v0, e0, a0),
                self.same_outside_registration(&start),
            decreases n - i,
        {
            let ghost prev = *self;
            proof {
                lemma_roots_counts_step(roots, i as int);
                lemma_roots_counts_prefix(roots, i + 1);
                assert(roots[i as int] == root_dataset@[i as int]@);
                assert(roots.take(i + 1).drop_last() =~= roots.take(i as int));
                assert(roots.take(i + 1).last() == roots[i as int]);
            }
            self.register_instantiation_bases(current_scope_id, root_dataset[i].as_slice());
            proof {
                lemma_extends_trans(&start, &prev, self, current_scope_id as int);
                assert forall|r: int, j: int| 0 <= r <= i && 0 <= j < roots[r].len() implies #[trigger] self.registered_root_base(roots, r, j, s0, c0, v0, e0, a0) by {
                    if r < i {
                        lemma_roots_counts_step(roots, r);
                        lemma_roots_counts_prefix(roots.take(i as int), r + 1);
                        assert(roots.take(i as int).take(r + 1) =~= roots.take(r + 1));
                        assert(roots.take(i as int).take(r) =~= roots.take(r));
                        lemma_index_bounds(roots[r], j, roots[r].len() as int);
                        assert(roots[r].take(roots[r].len() as int) =~= roots[r]);
                        let vv = spec_roots_variable_count(roots.take(r));
                        assert(prev.registered_root_base(roots, r, j, s0, c0, v0, e0, a0));
                        lemma_registered_base_persists(
                            &prev,
                            self,
                            roots[r],
                            j,
                            s0 + spec_roots_symbol_count(roots.take(r)),
                            c0 + spec_roots_scope_count(roots.take(r)),
                            v0 + vv,
                            e0 + vv,
                            a0 + vv,
                            current_scope_id as int,
                        );
                    } else {
                        assert(self.registered_base(
                            roots[r],
                            j,
                            prev.syms.len() as int,
                            prev.scopes.len() as int,
                            prev.variables.len() as int,
                            prev.exprs.len() as int,
                            prev.values.len() as int,
                        ));
                    }
                }
            }
            i += 1;
        }
        proof {
            assert(roots.take(n as int) =~= roots);
        }
    }
}


/// Whether every base of `bases` is a platform type.
pub open spec fn all_extern_types(bases: Seq<InstantiationSymbolBase>) -> bool {
    forall|k: int| 0 <= k < bases.len() ==> (#[trigger] bases[k]).kind is ExternType
}

/// Platform types push one symbol each, and no scope or variable.
proof fn lemma_extern_types_counts(bases: Seq<InstantiationSymbolBase>)
    requires
        all_extern_types(bases),
    ensures
        spec_symbol_count(bases) == bases.len(),
        spec_scope_count(bases) == 0,
        spec_variable_count(bases) == 0,
        spec_bases_scalar(bases),
    decreases bases.len(),
{
    if bases.len() > 0 {
        let rest = bases.drop_last();
        assert forall|k: int| 0 <= k < rest.len() implies (#[trigger] rest[k]).kind is ExternType by {
            assert(rest[k] == bases[k]);
        }
        lemma_extern_types_counts(rest);
        assert(bases.last().kind is ExternType);
        assert(spec_base_symbol_count(bases.last()) == 1);
        assert(spec_base_scope_count(bases.last()) == 0);
        assert(spec_base_variable_count(bases.last()) == 0);
        assert(spec_base_scalar(bases.last()));
        assert(spec_symbol_count(bases) == spec_symbol_count(rest) + 1);
        assert(spec_scope_count(bases) == spec_scope_count(rest));
        assert(spec_variable_count(bases) == spec_variable_count(rest));
        assert(spec_bases_scalar(bases));
    } else {
        assert(spec_symbol_count(bases) == 0);
        assert(spec_scope_count(bases) == 0);
        assert(spec_variable_count(bases) == 0);
        assert(spec_bases_scalar(bases));
    }
}

/// Counting a single base counts that base.
proof fn lemma_single_counts(base: InstantiationSymbolBase)
    ensures
        spec_symbol_count(seq![base]) == spec_base_symbol_count(base),
        spec_scope_count(seq![base]) == spec_base_scope_count(base),
        spec_variable_count(seq![base]) == spec_base_variable_count(base),
        spec_bases_scalar(seq![base]) == spec_base_scalar(base),
{
    let empty = Seq::<InstantiationSymbolBase>::empty();
    assert(spec_symbol_count(empty) == 0);
    assert(spec_scope_count(empty) == 0);
    assert(spec_variable_count(empty) == 0);
    assert(spec_bases_scalar(empty));
    assert(seq![base].drop_last() =~= empty);
}

/// A platform namespace `upper::types::lower` holding platform types pushes three namespace
/// symbols with a scope each, then a symbol per type.
proof fn lemma_platform_counts(
    base: InstantiationSymbolBase,
    upper: InternedId,
    lower: InternedId,
    members: Seq<InstantiationSymbolBase>,
)
    requires
        is_platform_namespace(base, upper, lower, members),
        all_extern_types(members),
    ensures
        spec_base_symbol_count(base) == 3 + members.len(),
        spec_base_scope_count(base) == 3,
        spec_base_variable_count(base) == 0,
        spec_base_scalar(base),
{
    lemma_extern_types_counts(members);
    let types = base.kind->Namespace_0@;
    let platform = types[0].kind->Namespace_0@;
    lemma_single_counts(platform[0]);
    assert(platform =~= seq![platform[0]]);
    lemma_single_counts(types[0]);
    assert(types =~= seq![types[0]]);
}

/// The platform namespaces a complex scope holds, root after root.
proof fn lemma_extern_roots(roots: Seq<Seq<InstantiationSymbolBase>>)
    requires
        roots.len() == 2,
        roots[0].len() == 1,
        roots[1].len() == 1,
        is_platform_namespace(roots[0][0], INTERNED_RUST_UPPER, INTERNED_RUST_LOWER, spec_rust_types()),
        is_platform_namespace(roots[1][0], INTERNED_JAVA_UPPER, INTERNED_JAVA_LOWER, spec_java_types()),
    ensures
        spec_bases_scalar(roots[0]),
        spec_bases_scalar(roots[1]),
        spec_symbol_count(roots[0]) == 22,
        spec_symbol_count(roots[1]) == 12,
        spec_roots_symbol_count(roots) == 34,
        spec_roots_scope_count(roots) == 6,
        spec_roots_variable_count(roots) == 0,
        spec_roots_symbol_count(roots.take(0)) == 0,
        spec_roots_scope_count(roots.take(0)) == 0,
        spec_roots_variable_count(roots.take(0)) == 0,
        spec_roots_symbol_count(roots.take(1)) == 22,
        spec_roots_scope_count(roots.take(1)) == 3,
        spec_roots_variable_count(roots.take(1)) == 0,
{
    assert(all_extern_types(spec_rust_types()));
    assert(all_extern_types(spec_java_types()));
    lemma_platform_counts(roots[0][0], INTERNED_RUST_UPPER, INTERNED_RUST_LOWER, spec_rust_types());
    lemma_platform_counts(roots[1][0], INTERNED_JAVA_UPPER, INTERNED_JAVA_LOWER, spec_java_types());
    lemma_single_counts(roots[0][0]);
    lemma_single_counts(roots[1][0]);
    assert(roots[0] =~= seq![roots[0][0]]);
    assert(roots[1] =~= seq![roots[1][0]]);
    let none = Seq::<Seq<InstantiationSymbolBase>>::empty();
    assert(spec_roots_symbol_count(none) == 0);
    assert(spec_roots_scope_count(none) == 0);
    assert(spec_roots_variable_count(none) == 0);
    assert(roots.take(0) =~= none);
    assert(roots.take(1).drop_last() =~= roots.take(0));
    assert(roots.take(1).last() == roots[0]);
    assert(spec_roots_symbol_count(roots.take(1)) == 22);
    assert(spec_roots_scope_count(roots.take(1)) == 3);
    assert(spec_roots_variable_count(roots.take(1)) == 0);
    assert(roots.drop_last() =~= roots.take(1));
    assert(roots.last() == roots[1]);
}


/// The symbol of the platform namespace `name_id`, registered at `sym_id` and owning scope
/// `scope_id`.
pub open spec fn spec_platform_symbol(name_id: InternedId, sym_id: int, scope_id: int) -> Symbol {
    Symbol {
        name_id,
        self_id: sym_id as SymbolId,
        ast_id: None,
        sym_origin: SymbolOrigin::Compiler,
        is_priv: false,
        associated_scope: Some(AssociatedScopeKind::Scope(scope_id as ScopeId)),
        scope_origin: ScopeType::Compiler,
        kind: SymbolKind::Namespace,
    }
}

impl ScriptCompiler {
    /// Scope `s` is a compiler created scope, intrinsic to the symbol `sym` of core.
    pub open spec fn is_namespace_scope(&self, s: int, sym: int) -> bool {
        &&& self.scopes@[s].scope.scope_id == s
        &&& self.scopes@[s].scope.scope_type == ScopeType::Compiler
        &&& self.scopes@[s].scope.is_intrinsic
        &&& self.scopes@[s].scope.intrinsic_scope == None::<ScopeId>
        &&& self.scopes@[s].sym_owner == Some(sym as SymbolId)
        &&& self.scopes@[s].mod_owner == self.intrinsic_registry.core_mod_id
    }

    /// The platform namespace `upper::types::lower` holding `members` is registered from symbol
    /// `s` and scope `c` on: each namespace is a symbol owning a scope that binds the next one,
    /// and the innermost scope binds each platform type to its symbol.
    pub open spec fn platform_registered(
        &self,
        upper: InternedId,
        lower: InternedId,
        members: Seq<InstantiationSymbolBase>,
        s: int,
        c: int,
    ) -> bool {
        &&& self.syms@[s] == spec_platform_symbol(upper, s, c)
        &&& self.is_namespace_scope(c, s)
        &&& self.table(c) == map![INTERNED_TYPES_LOWER => (s + 1) as SymbolId]
        &&& self.syms@[s + 1] == spec_platform_symbol(INTERNED_TYPES_LOWER, s + 1, c + 1)
        &&& self.is_namespace_scope(c + 1, s + 1)
        &&& self.table(c + 1) == map![lower => (s + 2) as SymbolId]
        &&& self.syms@[s + 2] == spec_platform_symbol(lower, s + 2, c + 2)
        &&& self.is_namespace_scope(c + 2, s + 2)
        &&& self.table(c + 2) == spec_bases_table(Map::empty(), members, s + 3)
        &&& forall|k: int|
            0 <= k < members.len() ==> #[trigger] self.syms@[s + 3 + k] == spec_registered_symbol(
                members[k],
                (s + 3 + k) as SymbolId,
                0,
                0,
            )
    }

    /// This compiler is `old` with the complex scope created as scope `c`: the scope binds
    /// `RUST` and `JAVA`, each a namespace owning a scope, with `types` and the platform's types
    /// nested inside: `RUST::types::rust` binds the Rust types, `JAVA::types::java` the Java ones.
    pub open spec fn complex_scope_created(&self, old: &ScriptCompiler, c: int) -> bool {
        let s = old.syms.len() as int;
        &&& c == old.scopes.len()
        &&& self.scopes.len() == c + 7
        &&& self.syms.len() == s + 34
        &&& self.syms@.take(s) == old.syms@
        &&& self.variables@ == old.variables@
        &&& self.exprs@ == old.exprs@
        &&& self.values@ == old.values@
        &&& forall|k: int| 0 <= k < c ==> #[trigger] self.scopes@[k] == old.scopes@[k]
        &&& self.intrinsic_registry == (IntrinsicRegistry {
            core_mod_id: old.intrinsic_registry.core_mod_id,
            complex_scope_id: Some(c as ScopeId),
        })
        &&& self.scopes@[c].scope.scope_id == c
        &&& self.scopes@[c].scope.scope_type == ScopeType::Complex
        &&& self.scopes@[c].scope.is_intrinsic
        &&& self.scopes@[c].scope.intrinsic_scope == None::<ScopeId>
        &&& self.scopes@[c].sym_owner == None::<SymbolId>
        &&& self.scopes@[c].mod_owner == old.intrinsic_registry.core_mod_id
        &&& self.scopes@[c].scope.table.ast_to_sym@.is_empty()
        &&& self.table(c) == map![INTERNED_RUST_UPPER => s as SymbolId, INTERNED_JAVA_UPPER => (s + 22) as SymbolId]
        &&& self.syms@[s] == spec_platform_symbol(INTERNED_RUST_UPPER, s, c + 1)
        &&& self.syms@[s + 22] == spec_platform_symbol(INTERNED_JAVA_UPPER, s + 22, c + 4)
        &&& self.platform_registered(INTERNED_RUST_UPPER, INTERNED_RUST_LOWER, spec_rust_types(), s, c + 1)
        &&& self.platform_registered(INTERNED_JAVA_UPPER, INTERNED_JAVA_LOWER, spec_java_types(), s + 22, c + 4)
        &&& self.mods == old.mods
        &&& self.types == old.types
        &&& self.directives == old.directives
        &&& self.resolver_state == old.resolver_state
        &&& self.bind == old.bind
    }

    /// Creates the scope holding the platform namespaces an `override` section reaches, such as
    /// `RUST::types::rust`, and returns its `ScopeId`; returns the existing one when it was
    /// already created.
    fn load_complex_symbols(&mut self) -> (res: ScopeId)
        requires
            old(self).intrinsic_registry.complex_scope_id is None ==> {
                &&& old(self).scopes.len() + 7 <= u16::MAX
                &&& old(self).syms.len() + 34 <= u32::MAX
                &&& old(self).variables.len() <= u32::MAX
                &&& old(self).exprs.len() <= u32::MAX
                &&& old(self).values.len() <= u32::MAX
            },
        ensures
            match old(self).intrinsic_registry.complex_scope_id {
                Some(id) => res == id && *final(self) == *old(self),
                None => final(self).complex_scope_created(old(self), res as int),
            },
    {
        if let Some(inner) = self.intrinsic_registry.complex_scope_id {
            return inner;
        }
        let ghost start = *self;
        let core_mod_id = self.intrinsic_registry.core_mod_id;
        let scope_id = self.scopes.len() as u16;

        // Scope of the platform namespaces, such as `RUST` and `JAVA`
        let scope = Scope::new(scope_id, ScopeType::Complex, true, None);
        self.scopes.push(ScopeInfo::new(scope, None, core_mod_id));
        let ghost pushed = *self;

        let dataset = all_extern_namespaces_dataset();
        let ghost roots = dataset@.map_values(|v: Vec<InstantiationSymbolBase>| v@);
        proof {
            assert(roots[0] == dataset@[0]@);
            assert(roots[1] == dataset@[1]@);
            lemma_extern_roots(roots);
            assert forall|r: int| 0 <= r < dataset.len() implies #[trigger] spec_bases_scalar(dataset@[r]@) by {
                assert(roots[r] == dataset@[r]@);
            }
        }
        self.register_all_instantiation_bases(scope_id, &dataset);
        let ghost registered = *self;

        self.intrinsic_registry.complex_scope_id = Some(scope_id);
        proof {
            let s = start.syms.len() as int;
            let c = scope_id as int;
            assert(registered.registered_root_base(roots, 0, 0, s, c + 1, start.variables.len() as int, start.exprs.len() as int, start.values.len() as int));
            assert(registered.registered_root_base(roots, 1, 0, s, c + 1, start.variables.len() as int, start.exprs.len() as int, start.values.len() as int));
            assert(roots[0].take(0) =~= Seq::<InstantiationSymbolBase>::empty());
            assert(roots[1].take(0) =~= Seq::<InstantiationSymbolBase>::empty());
            assert(spec_symbol_count(Seq::<InstantiationSymbolBase>::empty()) == 0);
            assert(spec_scope_count(Seq::<InstantiationSymbolBase>::empty()) == 0);
            assert(all_extern_types(spec_rust_types()));
            assert(all_extern_types(spec_java_types()));
            let v0 = start.variables.len() as int;
            let e0 = start.exprs.len() as int;
            let a0 = start.values.len() as int;
            lemma_platform_registered(&registered, roots[0], INTERNED_RUST_UPPER, INTERNED_RUST_LOWER, spec_rust_types(), s, c + 1, v0, e0, a0);
            lemma_platform_registered(&registered, roots[1], INTERNED_JAVA_UPPER, INTERNED_JAVA_LOWER, spec_java_types(), s + 22, c + 4, v0, e0, a0);
            assert(self.syms@[s] == spec_platform_symbol(INTERNED_RUST_UPPER, s, c + 1));
            assert(self.syms@[s + 22] == spec_platform_symbol(INTERNED_JAVA_UPPER, s + 22, c + 4));
            assert(self.syms@.take(s) =~= registered.syms@.take(pushed.syms.len() as int));
            assert(self.variables@ =~= registered.variables@.take(pushed.variables.len() as int));
            assert(self.exprs@ =~= registered.exprs@.take(pushed.exprs.len() as int));
            assert(self.values@ =~= registered.values@.take(pushed.values.len() as int));
            let none = Seq::<Seq<InstantiationSymbolBase>>::empty();
            assert(roots.drop_last() =~= roots.take(1));
            assert(roots.take(1).drop_last() =~= none);
            assert(roots.take(1).last() == roots[0]);
            assert(roots[0].drop_last() =~= Seq::<InstantiationSymbolBase>::empty());
            assert(roots[1].drop_last() =~= Seq::<InstantiationSymbolBase>::empty());
            let empty_table = Map::<InternedId, SymbolId>::empty();
            let no_bases = Seq::<InstantiationSymbolBase>::empty();
            assert(spec_roots_table(empty_table, none, s) == empty_table);
            assert(spec_roots_symbol_count(none) == 0);
            assert(spec_bases_table(empty_table, no_bases, s) == empty_table);
            assert(spec_bases_table(empty_table, roots[0], s) == empty_table.insert(INTERNED_RUST_UPPER, s as SymbolId));
            assert(spec_roots_table(empty_table, roots.take(1), s) == empty_table.insert(INTERNED_RUST_UPPER, s as SymbolId));
            let rust_table = empty_table.insert(INTERNED_RUST_UPPER, s as SymbolId);
            assert(spec_bases_table(rust_table, no_bases, s + 22) == rust_table);
            assert(spec_bases_table(rust_table, roots[1], s + 22) == rust_table.insert(INTERNED_JAVA_UPPER, (s + 22) as SymbolId));
            assert(self.table(c) =~= map![INTERNED_RUST_UPPER => s as SymbolId, INTERNED_JAVA_UPPER => (s + 22) as SymbolId]);
            assert forall|k: int| 0 <= k < c implies #[trigger] self.scopes@[k] == start.scopes@[k] by {
                assert(self.scopes@[k] == pushed.scopes@[k]);
            }
        }
        scope_id
    }
}


impl ScriptCompiler {
    /// Scope `id` is a fresh scope of section `scope_type` that module `owner` owns, searching
    /// `intrinsic` after itself.
    pub open spec fn is_fresh_scope(&self, id: int, scope_type: ScopeType, owner: ModuleId, intrinsic: Option<ScopeId>) -> bool {
        &&& self.scopes@[id].scope.scope_id == id
        &&& self.scopes@[id].scope.scope_type == scope_type
        &&& !self.scopes@[id].scope.is_intrinsic
        &&& self.scopes@[id].scope.intrinsic_scope == intrinsic
        &&& self.scopes@[id].sym_owner == None::<SymbolId>
        &&& self.scopes@[id].mod_owner == owner
        &&& self.scopes@[id].scope.table.interned_to_sym@ == Map::<InternedId, SymbolId>::empty()
        &&& self.scopes@[id].scope.table.ast_to_sym@.is_empty()
    }

    /// Module `owner` lists scope `id` last, after the scopes it listed in `old`, and no other
    /// module changed.
    pub open spec fn mods_gain_scope(&self, old: &ScriptCompiler, owner: ModuleId, id: ScopeId) -> bool {
        &&& self.mods.len() == old.mods.len()
        &&& forall|m: int| 0 <= m < self.mods.len() && m != owner ==> #[trigger] self.mods@[m] == old.mods@[m]
        &&& self.mods@[owner as int].name_id == old.mods@[owner as int].name_id
        &&& self.mods@[owner as int].state == old.mods@[owner as int].state
        &&& self.mods@[owner as int].mod_id == old.mods@[owner as int].mod_id
        &&& self.mods@[owner as int].imports@ == old.mods@[owner as int].imports@
        &&& self.mods@[owner as int].exports@ == old.mods@[owner as int].exports@
        &&& self.mods@[owner as int].scopes@ == old.mods@[owner as int].scopes@.push(id)
    }

    /// Pushes a new scope of section `scope_type` owned by `owner_id` and returns its `ScopeId`.
    /// If the module already has a scope of that section, returns that scope's `ScopeId` and
    /// changes nothing. A complex scope searches the intrinsic scope of platform namespaces,
    /// which is created the first time it is needed.
    pub fn push_scope(&mut self, scope_type: ScopeType, owner_id: ModuleId) -> (res: ScopeId)
        requires
            owner_id < old(self).mods.len(),
            old(self).module_scopes_valid(),
            old(self).scopes.len() < u16::MAX,
            scope_type == ScopeType::Complex && old(self).intrinsic_registry.complex_scope_id is None ==> {
                &&& old(self).scopes.len() + 8 <= u16::MAX
                &&& old(self).syms.len() + 34 <= u32::MAX
                &&& old(self).variables.len() <= u32::MAX
                &&& old(self).exprs.len() <= u32::MAX
                &&& old(self).values.len() <= u32::MAX
            },
        ensures
            final(self).module_scopes_valid(),
            res < final(self).scopes.len(),
            final(self).scopes@[res as int].scope.scope_type == scope_type,
            old(self).spec_find_scope(scope_type, owner_id as int) matches Some(id) ==> {
                &&& res == id
                &&& *final(self) == *old(self)
            },
            old(self).spec_find_scope(scope_type, owner_id as int) is None && (scope_type != ScopeType::Complex
                || old(self).intrinsic_registry.complex_scope_id is Some) ==> {
                &&& res == old(self).scopes.len()
                &&& final(self).scopes.len() == old(self).scopes.len() + 1
                &&& forall|k: int| 0 <= k < old(self).scopes.len() ==> #[trigger] final(self).scopes@[k] == old(self).scopes@[k]
                &&& final(self).is_fresh_scope(
                    res as int,
                    scope_type,
                    owner_id,
                    if scope_type == ScopeType::Complex {
                        old(self).intrinsic_registry.complex_scope_id
                    } else {
                        None
                    },
                )
                &&& final(self).mods_gain_scope(old(self), owner_id, res)
                &&& final(self).syms == old(self).syms
                &&& final(self).types == old(self).types
                &&& final(self).variables == old(self).variables
                &&& final(self).exprs == old(self).exprs
                &&& final(self).values == old(self).values
                &&& final(self).directives == old(self).directives
                &&& final(self).intrinsic_registry == old(self).intrinsic_registry
                &&& final(self).resolver_state == old(self).resolver_state
                &&& final(self).bind == old(self).bind
            },
            old(self).spec_find_scope(scope_type, owner_id as int) is None && scope_type == ScopeType::Complex
                && old(self).intrinsic_registry.complex_scope_id is None ==> {
                let c = old(self).scopes.len() as int;
                &&& res == c + 7
                &&& final(self).scopes.len() == c + 8
                &&& final(self).is_fresh_scope(res as int, scope_type, owner_id, Some(c as ScopeId))
                &&& final(self).syms.len() == old(self).syms.len() + 34
                &&& final(self).syms@.take(old(self).syms.len() as int) == old(self).syms@
                &&& forall|k: int| 0 <= k < c ==> #[trigger] final(self).scopes@[k] == old(self).scopes@[k]
                &&& final(self).intrinsic_registry.complex_scope_id == Some(c as ScopeId)
                &&& final(self).intrinsic_registry.core_mod_id == old(self).intrinsic_registry.core_mod_id
                &&& final(self).table(c) == map![
                    INTERNED_RUST_UPPER => old(self).syms.len() as SymbolId,
                    INTERNED_JAVA_UPPER => (old(self).syms.len() + 22) as SymbolId,
                ]
                &&& final(self).platform_registered(
                    INTERNED_RUST_UPPER,
                    INTERNED_RUST_LOWER,
                    spec_rust_types(),
                    old(self).syms.len() as int,
                    c + 1,
                )
                &&& final(self).platform_registered(
                    INTERNED_JAVA_UPPER,
                    INTERNED_JAVA_LOWER,
                    spec_java_types(),
                    old(self).syms.len() + 22,
                    c + 4,
                )
                &&& final(self).mods_gain_scope(old(self), owner_id, res)
                &&& final(self).types == old(self).types
                &&& final(self).variables@ == old(self).variables@
                &&& final(self).exprs@ == old(self).exprs@
                &&& final(self).values@ == old(self).values@
                &&& final(self).directives == old(self).directives
                &&& final(self).resolver_state == old(self).resolver_state
                &&& final(self).bind == old(self).bind
            },
    {
        if let Some(found) = self.find_scope_in_mod(scope_type, owner_id) {
            return found;
        }
        let ghost start = *self;
        let intrinsic_scope_opt: Option<ScopeId> = match scope_type {
            ScopeType::Complex => Some(self.load_complex_symbols()),
            ScopeType::Local
            | ScopeType::Neutral
            | ScopeType::Var
            | ScopeType::Nest
            | ScopeType::Compiler
            | ScopeType::Core => None,
        };
        let ghost loaded = *self;

        let scope_id = self.scopes.len() as u16;
        let scope = Scope::new(scope_id, scope_type, false, intrinsic_scope_opt);
        let scope_info = ScopeInfo::new(scope, None, owner_id);
        self.scopes.push(scope_info);

        // Giving the module the scope id so that it is searched when looking up from the module
        self.mods[owner_id as usize].scopes.push(scope_id);
        proof {
            assert forall|m: int, k: int|
                0 <= m < self.mods.len() && 0 <= k < self.mods@[m].scopes.len() implies (
                #[trigger] self.mods@[m].scopes@[k]) < self.scopes.len() by {
                if m == owner_id && k == self.mods@[m].scopes.len() - 1 {
                } else {
                    assert(self.mods@[m].scopes@[k] == start.mods@[m].scopes@[k]);
                }
            }
            assert forall|k: int| 0 <= k < start.scopes.len() implies #[trigger] self.scopes@[k] == start.scopes@[k] by {
                assert(self.scopes@[k] == loaded.scopes@[k]);
            }
            if scope_type == ScopeType::Complex && start.intrinsic_registry.complex_scope_id is None {
                assert(self.syms@.take(start.syms.len() as int) =~= loaded.syms@.take(start.syms.len() as int));
                let c = start.scopes.len() as int;
                assert(self.scopes@[c] == loaded.scopes@[c]);
                assert(self.scopes@[c + 1] == loaded.scopes@[c + 1]);
                assert(self.scopes@[c + 2] == loaded.scopes@[c + 2]);
                assert(self.scopes@[c + 3] == loaded.scopes@[c + 3]);
                assert(self.scopes@[c + 4] == loaded.scopes@[c + 4]);
                assert(self.scopes@[c + 5] == loaded.scopes@[c + 5]);
                assert(self.scopes@[c + 6] == loaded.scopes@[c + 6]);
            }
        }
        scope_id
    }
}


impl ScriptCompiler {
    /// A list in which no scope of section `scope_type` is found holds none.
    proof fn lemma_first_scope_none_all(&self, list: Seq<ScopeId>, scope_type: ScopeType)
        requires
            self.spec_first_scope(list, scope_type) is None,
        ensures
            forall|k: int| 0 <= k < list.len() ==> self.scopes@[#[trigger] list[k] as int].scope.scope_type != scope_type,
        decreases list.len(),
    {
        if list.len() > 0 {
            let rest = list.drop_first();
            self.lemma_first_scope_none_all(rest, scope_type);
            assert forall|k: int| 0 <= k < list.len() implies self.scopes@[#[trigger] list[k] as int].scope.scope_type != scope_type by {
                if k > 0 {
                    assert(list[k] == rest[k - 1]);
                }
            }
        }
    }
}

/// Once a module was given a scope of a section it had none of, that scope is the one found for
/// the section: pushing the same section for the same module again returns it and changes
/// nothing.
pub proof fn lemma_pushed_scope_is_found(
    before: &ScriptCompiler,
    after: &ScriptCompiler,
    scope_type: ScopeType,
    owner: ModuleId,
    id: ScopeId,
)
    requires
        owner < before.mods.len(),
        before.module_scopes_valid(),
        before.spec_find_scope(scope_type, owner as int) is None,
        after.mods_gain_scope(before, owner, id),
        id < after.scopes.len(),
        after.scopes@[id as int].scope.scope_type == scope_type,
        before.scopes.len() <= after.scopes.len(),
        forall|k: int| 0 <= k < before.scopes.len() ==> #[trigger] after.scopes@[k] == before.scopes@[k],
    ensures
        after.spec_find_scope(scope_type, owner as int) == Some(id),
{
    let list = before.mods@[owner as int].scopes@;
    before.lemma_first_scope_none_all(list, scope_type);
    assert forall|k: int| 0 <= k < list.len() implies after.scopes@[#[trigger] list[k] as int].scope.scope_type != scope_type by {
        assert(list[k] < before.scopes.len());
        assert(after.scopes@[list[k] as int] == before.scopes@[list[k] as int]);
    }
    after.lemma_first_scope_push(list, id, scope_type);
}


/// A registered root holding a single platform namespace registers the whole platform tree.
proof fn lemma_platform_registered(
    c: &ScriptCompiler,
    root: Seq<InstantiationSymbolBase>,
    upper: InternedId,
    lower: InternedId,
    members: Seq<InstantiationSymbolBase>,
    s: int,
    c1: int,
    v0: int,
    e0: int,
    a0: int,
)
    requires
        root.len() == 1,
        is_platform_namespace(root[0], upper, lower, members),
        all_extern_types(members),
        c.registered_base(root, 0, s, c1, v0, e0, a0),
    ensures
        c.platform_registered(upper, lower, members, s, c1),
{
    let none = Seq::<InstantiationSymbolBase>::empty();
    let empty_table = Map::<InternedId, SymbolId>::empty();
    assert(spec_symbol_count(none) == 0);
    assert(spec_scope_count(none) == 0);
    assert(spec_variable_count(none) == 0);
    assert(spec_bases_table(empty_table, none, s + 1) == empty_table);
    assert(spec_bases_table(empty_table, none, s + 2) == empty_table);
    assert(root.take(0) =~= none);
    let types = root[0].kind->Namespace_0@;
    let platform = types[0].kind->Namespace_0@;
    assert(types.take(0) =~= none);
    assert(platform.take(0) =~= none);
    assert(types.drop_last() =~= none);
    assert(platform.drop_last() =~= none);
    // `upper` owns scope `c1`, binding `types`
    lemma_registered_bases_all(c, types, s + 1, c1 + 1, v0, e0, a0);
    assert(c.registered_base(types, 0, s + 1, c1 + 1, v0, e0, a0));
    assert(c.table(c1) =~= map![INTERNED_TYPES_LOWER => (s + 1) as SymbolId]);
    // `types` owns scope `c1 + 1`, binding `lower`
    lemma_registered_bases_all(c, platform, s + 2, c1 + 2, v0, e0, a0);
    assert(c.registered_base(platform, 0, s + 2, c1 + 2, v0, e0, a0));
    assert(c.table(c1 + 1) =~= map![lower => (s + 2) as SymbolId]);
    // `lower` owns scope `c1 + 2`, binding each platform type
    lemma_registered_bases_all(c, members, s + 3, c1 + 3, v0, e0, a0);
    assert forall|k: int| 0 <= k < members.len() implies #[trigger] c.syms@[s + 3 + k] == spec_registered_symbol(
        members[k],
        (s + 3 + k) as SymbolId,
        0,
        0,
    ) by {
        assert(c.registered_base(members, k, s + 3, c1 + 3, v0, e0, a0));
        assert forall|m: int| 0 <= m < members.take(k).len() implies (#[trigger] members.take(k)[m]).kind is ExternType by {
            assert(members.take(k)[m] == members[m]);
        }
        lemma_extern_types_counts(members.take(k));
        assert(members[k].kind is ExternType);
    }
}

} // verus!
