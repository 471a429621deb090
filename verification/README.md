# chrn script compiler core, verified

The startup and the semantic queries of the chrn script compiler, written in Verus: every
executable function carries a contract that Verus proves.

- `script_compiler`, `startup`, `core_loading`, `registration`, `intrinsic_scopes`: the
  compiler's arenas, and how `ScriptCompiler::init` fills them. Core's built-in types (with their
  intrinsic namespaces such as `i8::MAX`), the unknown type, the boundaries and the core functions
  are loaded at fixed ids; the directives follow; then every module gets a compiler scope binding
  its own name and each import it reaches. Scopes are pushed on demand, and the platform
  namespaces of complex sections (`RUST::types::rust`, `JAVA::types::java`) are created once.
- `core_helpers`, `compiler_helpers`, `extern_helpers`, `compiler_consts`, `intern`: the datasets
  core is built from, with their specifications, and the fixed ids of built-ins and directives.
- `type_queries`, `typechecker`, `typechecker_concepts`: following deferred types, reading the
  definitions symbols lead to, and checking symbols and types against what a context expects.
- `declarations`: registering a module's typedefs, structs, enums, aliases and variables in the
  scope of their section, with their types, exports and, for aliases, a local scope; a name
  already bound in a section keeps its first symbol, and the one found is returned for reporting.
- `literals`, `references`: registering literal expressions (integers read with `str::parse`,
  the one outside call, behind a wrapper stating std's documented grammar) and expressions that
  name a symbol once it was looked up, with the cycle check and the waiting expression they leave.
- `type_context`, `cycles`, `var_resolution`, `pending_resolution`, `parent_notification`: the bookkeeping of
  expressions waiting on unresolved symbols, the check that a new reference closes no dependency
  cycle, what a variable records once its expression is registered, and how the expressions
  waiting on a resolved variable are resumed: which are still open, how their root takes the
  variable's type and value, how each records what it learned, and how a round of resolution
  passes resolved parents on and decides whether another round is needed.
- `hir`, `scopes`, `module`, `builtins`, `directives`, `ids`, `instantiation_symbols`: the data
  the compiler works on.

Public proof functions state the laws the compiler keeps, such as that each built-in's core id is
its position in the dataset, that a scope a module was given is the one found again, and that the
constants of the built-ins' namespaces never reach the core scope, that a duplicate declaration
leaves the name bound to its first symbol, that the cycle check reports exactly the
references from a symbol to one that already depends on it, and that a round of notifying parents
leaves nothing to notify again.

`tests/` runs the compiler on concrete modules.
