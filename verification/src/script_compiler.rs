//! The script compiler: every arena the resolution stages fill, the stage resolution is in, and
//! the lookup of a module's scopes.
use vstd::prelude::*;
use crate::directives::DirectiveInline;
use crate::hir::{ResolvedExpr, Symbol, TypeInfo, ValueInfo, VarDef};
use crate::ids::{InternedId, ModuleId, ScopeId, SymbolId};
use crate::module::{Bind, Module};
use crate::scopes::{IntrinsicRegistry, Scope, ScopeInfo, ScopeType};

verus! {

broadcast use vstd::std_specs::hash::group_hash_axioms;

/// Stage of resolution the compiler is in. Each resolver runs in its own stage and advances it.
#[derive(Debug, PartialEq, Eq, Clone, Copy, Structural)]
pub enum ResolverState {
    Namespace,
    Member,
    Type,
    Constraint,
    Done,
}

/// The stage that follows `state`.
pub open spec fn spec_next_state(state: ResolverState) -> ResolverState {
    match state {
        ResolverState::Namespace => ResolverState::Member,
        ResolverState::Member => ResolverState::Type,
        ResolverState::Type => ResolverState::Constraint,
        _ => ResolverState::Done,
    }
}

/// The stages follow one another in order, namespaces, members, types, constraints, and end in
/// `Done`, which stays.
pub proof fn lemma_stage_order()
    ensures
        spec_next_state(ResolverState::Namespace) == ResolverState::Member,
        spec_next_state(ResolverState::Member) == ResolverState::Type,
        spec_next_state(ResolverState::Type) == ResolverState::Constraint,
        spec_next_state(ResolverState::Constraint) == ResolverState::Done,
        spec_next_state(ResolverState::Done) == ResolverState::Done,
{
}

impl ResolverState {
    /// Moves to the next stage; `Done` stays `Done`.
    pub fn advance(&mut self)
        ensures
            *final(self) == spec_next_state(*old(self)),
    {
        *self = match *self {
            ResolverState::Namespace => ResolverState::Member,
            ResolverState::Member => ResolverState::Type,
            ResolverState::Type => ResolverState::Constraint,
            ResolverState::Constraint | ResolverState::Done => ResolverState::Done,
        };
    }
}

/// Script compiler that holds all essential data for incremental updates through resolution.
pub struct ScriptCompiler {
    /// Optional bind statement that is obtained from the main module
    pub bind: Option<Bind>,
    /// All modules found during compilation
    pub mods: Vec<Module>,
    /// Type table which contains every module's stored types
    pub types: Vec<TypeInfo>,
    /// All values that were cached
    pub values: Vec<ValueInfo>,
    /// All expressions that were found
    pub exprs: Vec<ResolvedExpr>,
    /// All symbols that were found
    pub syms: Vec<Symbol>,
    /// All variables that were found
    pub variables: Vec<VarDef>,
    /// All directives that were found
    pub directives: Vec<DirectiveInline>,
    /// Scope arena
    pub scopes: Vec<ScopeInfo>,
    /// Information regarding intrinsic data such as core's `ModuleId`
    pub intrinsic_registry: IntrinsicRegistry,
    /// The current stage the compiler is in
    pub resolver_state: ResolverState,
}

impl ScriptCompiler {
    /// Identifier table of scope `s`.
    pub open spec fn table(&self, s: int) -> Map<InternedId, SymbolId> {
        self.scopes@[s].scope.table.interned_to_sym@
    }

    /// Every scope a module lists exists.
    pub open spec fn module_scopes_valid(&self) -> bool {
        forall|m: int, k: int|
            0 <= m < self.mods.len() && 0 <= k < self.mods@[m].scopes.len() ==> (
            #[trigger] self.mods@[m].scopes@[k]) < self.scopes.len()
    }

    /// The first scope of type `scope_type` in `list`, if any.
    pub open spec fn spec_first_scope(&self, list: Seq<ScopeId>, scope_type: ScopeType) -> Option<ScopeId>
        decreases list.len(),
    {
        if list.len() == 0 {
            None
        } else if self.scopes@[list[0] as int].scope.scope_type == scope_type {
            Some(list[0])
        } else {
            self.spec_first_scope(list.drop_first(), scope_type)
        }
    }

    /// The first scope of type `scope_type` that module `owner` lists, if any.
    pub open spec fn spec_find_scope(&self, scope_type: ScopeType, owner: int) -> Option<ScopeId> {
        self.spec_first_scope(self.mods@[owner].scopes@, scope_type)
    }

    /// Finds the first scope of type `scope_type` among the scopes module `owner` lists.
    pub fn find_scope_in_mod(&self, scope_type: ScopeType, owner: ModuleId) -> (res: Option<ScopeId>)
        requires
            owner < self.mods.len(),
            self.module_scopes_valid(),
        ensures
            res == self.spec_find_scope(scope_type, owner as int),
            res matches Some(id) ==> id < self.scopes.len() && self.scopes@[id as int].scope.scope_type == scope_type,
    {
        let list = &self.mods[owner as usize].scopes;
        let mut k: usize = 0;
        proof {
            assert(list@.skip(0) =~= list@);
        }
        while k < list.len()
            invariant
                owner < self.mods.len(),
                self.module_scopes_valid(),
                list@ == self.mods@[owner as int].scopes@,
                0 <= k <= list.len(),
                self.spec_find_scope(scope_type, owner as int) == self.spec_first_scope(list@.skip(k as int), scope_type),
            decreases list.len() - k,
        {
            let scope_id = list[k];
            assert(self.mods@[owner as int].scopes@[k as int] == scope_id);
            assert(list@.skip(k as int)[0] == scope_id);
            if self.scopes[scope_id as usize].scope.scope_type == scope_type {
                return Some(scope_id);
            }
            assert(list@.skip(k as int).drop_first() =~= list@.skip(k + 1));
            k += 1;
        }
        None
    }

    /// Binds `name_id` to `sym_id` in the table of scope `scope_id`.
    pub(crate) fn bind_in_scope(&mut self, scope_id: ScopeId, name_id: InternedId, sym_id: SymbolId)
        requires
            scope_id < old(self).scopes.len(),
        ensures
            final(self).scopes.len() == old(self).scopes.len(),
            final(self).table(scope_id as int) == old(self).table(scope_id as int).insert(name_id, sym_id),
            final(self).scopes@[scope_id as int].scope.table.ast_to_sym@ == old(self).scopes@[scope_id as int].scope.table.ast_to_sym@,
            final(self).scopes@[scope_id as int].scope.scope_id == old(self).scopes@[scope_id as int].scope.scope_id,
            final(self).scopes@[scope_id as int].scope.scope_type == old(self).scopes@[scope_id as int].scope.scope_type,
            final(self).scopes@[scope_id as int].scope.is_intrinsic == old(self).scopes@[scope_id as int].scope.is_intrinsic,
            final(self).scopes@[scope_id as int].scope.intrinsic_scope == old(self).scopes@[scope_id as int].scope.intrinsic_scope,
            final(self).scopes@[scope_id as int].sym_owner == old(self).scopes@[scope_id as int].sym_owner,
            final(self).scopes@[scope_id as int].mod_owner == old(self).scopes@[scope_id as int].mod_owner,
            forall|s: int| 0 <= s < old(self).scopes.len() && s != scope_id ==> final(self).scopes@[s] == old(self).scopes@[s],
            final(self).mods == old(self).mods,
            final(self).types == old(self).types,
            final(self).values == old(self).values,
            final(self).exprs == old(self).exprs,
            final(self).syms == old(self).syms,
            final(self).variables == old(self).variables,
            final(self).directives == old(self).directives,
            final(self).intrinsic_registry == old(self).intrinsic_registry,
            final(self).resolver_state == old(self).resolver_state,
            final(self).bind == old(self).bind,
    {
        self.scopes[scope_id as usize].scope.table.interned_to_sym.insert(name_id, sym_id);
    }
}

} // verus!
