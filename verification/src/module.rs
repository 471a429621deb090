//! Modules of a compilation and the imports between them.
use vstd::prelude::*;
use crate::ids::{InternedId, ModuleId, ScopeId, SourceRegionId, SymbolId};

verus! {

/// How an import was resolved by the module graph.
#[derive(Debug, PartialEq, Eq, Clone, Copy, Structural)]
pub enum ImportKind {
    /// A source file, read from the given region, that became the given module.
    Source(SourceRegionId, ModuleId),
    /// A source file that could not be read.
    ErrorSource(SourceRegionId),
    /// A source file the module graph has not resolved yet.
    UnresolvedSource(SourceRegionId),
    /// The implicit core module.
    Core(ModuleId),
}

/// An import of a module.
#[derive(Debug, PartialEq, Eq, Clone, Copy, Structural)]
pub struct Import {
    /// Name of the imported file.
    pub name_id: InternedId,
    pub kind: ImportKind,
    /// Name the import is bound to instead of the file name.
    pub alias_id: Option<InternedId>,
}

impl Import {
    pub fn new(name_id: InternedId, kind: ImportKind, alias_id: Option<InternedId>) -> (res: Import)
        ensures
            res == (Import { name_id, kind, alias_id }),
    {
        Import { name_id, kind, alias_id }
    }
}

/// The identifier an import binds in its module: the alias when given, the file name otherwise.
pub open spec fn spec_import_ident(import: Import) -> InternedId {
    match import.alias_id {
        Some(alias) => alias,
        None => import.name_id,
    }
}

/// How far a module was read.
#[derive(Debug, PartialEq, Eq, Clone, Copy, Structural)]
pub enum ModuleState {
    Unloaded,
    Loaded,
    Failed,
}

/// A module of the compilation.
#[derive(Debug, Clone)]
pub struct Module {
    pub name_id: InternedId,
    pub state: ModuleState,
    pub mod_id: ModuleId,
    pub imports: Vec<Import>,
    /// Scopes searched when an identifier is looked up from this module.
    pub scopes: Vec<ScopeId>,
    /// Symbols other modules can reach.
    pub exports: Vec<SymbolId>,
}

impl Module {
    /// A module with no scopes and no exports yet.
    pub fn new(name_id: InternedId, state: ModuleState, mod_id: ModuleId, imports: Vec<Import>) -> (res: Module)
        ensures
            res.name_id == name_id,
            res.state == state,
            res.mod_id == mod_id,
            res.imports == imports,
            res.scopes@ == Seq::<ScopeId>::empty(),
            res.exports@ == Seq::<SymbolId>::empty(),
    {
        Module { name_id, state, mod_id, imports, scopes: Vec::new(), exports: Vec::new() }
    }
}

/// The bind statement of the main module: the name the compiled configuration is bound to.
#[derive(Debug, PartialEq, Eq, Clone, Copy, Structural)]
pub struct Bind {
    pub name_id: InternedId,
}

} // verus!
