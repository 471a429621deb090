//! Startup and semantic queries of the chrn script compiler: the built-in core module with its
//! intrinsic namespaces, the directives, the symbols that make modules reachable, the scopes
//! pushed on demand, the registration of a module's declarations, the bookkeeping of expressions
//! waiting on unresolved symbols, and the type checks that resolution stages run against the
//! compiler's arenas.

pub mod typechecker_concepts;
pub mod builtins;
pub mod compiler_consts;
pub mod directives;
pub mod ids;
pub mod intern;
pub mod scopes;
pub mod hir;
pub mod instantiation_symbols;
pub mod core_helpers;
pub mod compiler_helpers;
pub mod extern_helpers;
pub mod module;
pub mod script_compiler;
pub mod registration;
pub mod core_loading;
pub mod core_module;
pub mod module_symbols;
pub mod startup;
pub mod intrinsic_scopes;
pub mod type_queries;
pub mod typechecker;
pub mod type_context;
pub mod declarations;
pub mod cycles;
pub mod var_resolution;
pub mod pending_resolution;
pub mod parent_notification;
pub mod literals;
pub mod references;
