//! Directives the compiler knows.
use vstd::prelude::*;

verus! {

/// Directives that change how a literal's type is read.
#[derive(Debug, PartialEq, Eq, Clone, Copy, Structural)]
pub enum TypeDirective {
    Scient,
    Hex,
    Bin,
    Octal,
    Unicode,
}

/// A directive written inline, before the item it applies to.
#[derive(Debug, PartialEq, Eq, Clone, Copy, Structural)]
pub enum DirectiveInline {
    Warn,
    Ignore,
    Type(TypeDirective),
}

} // verus!
