//! Identifier types of the compiler's arenas. Each id is the index of its item in the arena that
//! holds it.
use vstd::prelude::*;

verus! {

/// Index into the interner's table of identifiers.
pub type InternedId = u32;

/// Index into `ScriptCompiler::mods`.
pub type ModuleId = u32;

/// Index into `ScriptCompiler::scopes`.
pub type ScopeId = u16;

/// Index into `ScriptCompiler::syms`.
pub type SymbolId = u32;

/// Index into `ScriptCompiler::types`.
pub type TypeId = u32;

/// Index into `ScriptCompiler::variables`.
pub type VariableId = u32;

/// Index into `ScriptCompiler::exprs`.
pub type ExprId = u32;

/// Index into `ScriptCompiler::values`.
pub type ValueId = u32;

/// Index into `ScriptCompiler::directives`.
pub type DirectiveId = u32;

/// Index of an item in a module's abstract syntax tree.
pub type AstId = u32;

/// Index into `ScriptCompiler::sym_members`.
pub type MemberId = u32;

/// Index of a source region a module was read from.
pub type SourceRegionId = u32;

} // verus!
