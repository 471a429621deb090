//! Scopes: the tables that map identifiers to symbols, and which module or symbol owns them.
use vstd::prelude::*;
use std::collections::HashMap;
use crate::ids::{AstId, InternedId, ModuleId, ScopeId, SymbolId};

verus! {

/// Section or origin a scope belongs to.
#[derive(Debug, PartialEq, Eq, Clone, Copy, Structural)]
pub enum ScopeType {
    Local,
    Neutral,
    Var,
    Nest,
    Complex,
    Compiler,
    Core,
}

/// What a symbol's own scope is: a whole module, or a single scope.
#[derive(Debug, PartialEq, Eq, Clone, Copy, Structural)]
pub enum AssociatedScopeKind {
    Module(ModuleId),
    Scope(ScopeId),
}

/// Lookup table of a scope.
#[derive(Debug)]
pub struct Table {
    /// Identifier to the symbol it is bound to in this scope.
    pub interned_to_sym: HashMap<InternedId, SymbolId>,
    /// Syntax tree item to the symbol registered for it.
    pub ast_to_sym: HashMap<AstId, SymbolId>,
}

impl Table {
    /// An empty table.
    pub fn new() -> (res: Table)
        ensures
            res.interned_to_sym@ == Map::<InternedId, SymbolId>::empty(),
            res.ast_to_sym@ == Map::<AstId, SymbolId>::empty(),
    {
        Table { interned_to_sym: HashMap::new(), ast_to_sym: HashMap::new() }
    }

    /// An empty table with room reserved for `ast_capacity` syntax items and `interned_capacity`
    /// identifiers. The room reserved is left unsaid: a map's capacity is what its allocator gives,
    /// and no view of the map holds it.
    pub fn with_capacities(ast_capacity: usize, interned_capacity: usize) -> (res: Table)
        ensures
            res.interned_to_sym@ == Map::<InternedId, SymbolId>::empty(),
            res.ast_to_sym@ == Map::<AstId, SymbolId>::empty(),
    {
        Table {
            interned_to_sym: HashMap::with_capacity(interned_capacity),
            ast_to_sym: HashMap::with_capacity(ast_capacity),
        }
    }
}

/// A scope and its table.
#[derive(Debug)]
pub struct Scope {
    pub scope_id: ScopeId,
    pub scope_type: ScopeType,
    /// `true` for scopes the compiler creates to hold intrinsic symbols.
    pub is_intrinsic: bool,
    /// Intrinsic scope searched after this one, such as the complex section's platform namespaces.
    pub intrinsic_scope: Option<ScopeId>,
    pub table: Table,
}

impl Scope {
    /// A scope with an empty table.
    pub fn new(
        scope_id: ScopeId,
        scope_type: ScopeType,
        is_intrinsic: bool,
        intrinsic_scope: Option<ScopeId>,
    ) -> (res: Scope)
        ensures
            res.scope_id == scope_id,
            res.scope_type == scope_type,
            res.is_intrinsic == is_intrinsic,
            res.intrinsic_scope == intrinsic_scope,
            res.table.interned_to_sym@ == Map::<InternedId, SymbolId>::empty(),
            res.table.ast_to_sym@ == Map::<AstId, SymbolId>::empty(),
    {
        Scope { scope_id, scope_type, is_intrinsic, intrinsic_scope, table: Table::new() }
    }

    /// A scope holding the given table.
    pub fn with_table(
        scope_id: ScopeId,
        scope_type: ScopeType,
        intrinsic_scope: Option<ScopeId>,
        is_intrinsic: bool,
        table: Table,
    ) -> (res: Scope)
        ensures
            res.scope_id == scope_id,
            res.scope_type == scope_type,
            res.is_intrinsic == is_intrinsic,
            res.intrinsic_scope == intrinsic_scope,
            res.table == table,
    {
        Scope { scope_id, scope_type, is_intrinsic, intrinsic_scope, table }
    }
}

/// A scope with its owners.
#[derive(Debug)]
pub struct ScopeInfo {
    pub scope: Scope,
    /// Symbol the scope belongs to, such as the built-in type whose namespace it holds.
    pub sym_owner: Option<SymbolId>,
    /// Module the scope belongs to.
    pub mod_owner: ModuleId,
}

impl ScopeInfo {
    pub fn new(scope: Scope, sym_owner: Option<SymbolId>, mod_owner: ModuleId) -> (res: ScopeInfo)
        ensures
            res.scope == scope,
            res.sym_owner == sym_owner,
            res.mod_owner == mod_owner,
    {
        ScopeInfo { scope, sym_owner, mod_owner }
    }
}

/// Where the compiler's intrinsic data lives.
#[derive(Debug, Clone, Copy)]
pub struct IntrinsicRegistry {
    pub core_mod_id: ModuleId,
    /// Scope holding the platform namespaces of complex sections, once it was created.
    pub complex_scope_id: Option<ScopeId>,
}

impl IntrinsicRegistry {
    pub fn new(core_mod_id: ModuleId, complex_scope_id: Option<ScopeId>) -> (res: IntrinsicRegistry)
        ensures
            res.core_mod_id == core_mod_id,
            res.complex_scope_id == complex_scope_id,
    {
        IntrinsicRegistry { core_mod_id, complex_scope_id }
    }
}

} // verus!
