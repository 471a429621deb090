//! Expected-kind descriptions used by the type checker and its diagnostics.
//!
//! The display names ("builtin", "extern type", "unknown", ...) are this crate's own wording: the
//! language crate's classifier, which names these kinds for diagnostics, is not available to this
//! crate, so these texts could not be held against it.
use vstd::prelude::*;

verus! {

/// Flat view of a symbol's kind, without the payload it carries.
#[derive(Debug, PartialEq, Eq, Clone, Copy, Structural)]
pub enum SymbolKindFlat {
    Namespace,
    Variable,
    Type,
    Directive,
    ExternType,
}

/// Kind of a type, after following deferred types to the type they stand for.
#[derive(Debug, PartialEq, Eq, Clone, Copy, Structural)]
pub enum TypeKind {
    Builtin,
    Struct,
    Enum,
    Func,
    Alias,
    TypeDef,
    Boundaries,
    Unknown,
}

/// More dynamic way of expecting a certain kind without specifically picking a type like
/// `SymbolKindFlat`.
#[derive(Debug, PartialEq, Eq, Clone, Copy, Structural)]
pub enum ExpectedKind {
    Symbol(SymbolKindFlat),
    Type(ExpectedKindType),
}

/// More dynamic way of expecting a certain type.
#[derive(Debug, PartialEq, Eq, Clone, Copy, Structural)]
pub enum ExpectedKindType {
    AnyBuiltin,
    Kind(TypeKind),
}

/// The word a symbol kind is classified as in diagnostics.
pub open spec fn symbol_kind_word(kind: SymbolKindFlat) -> Seq<char> {
    match kind {
        SymbolKindFlat::Namespace => "namespace"@,
        SymbolKindFlat::Variable => "variable"@,
        SymbolKindFlat::Type => "type"@,
        SymbolKindFlat::Directive => "directive"@,
        SymbolKindFlat::ExternType => "extern type"@,
    }
}

/// The word a type kind is classified as in diagnostics.
pub open spec fn type_kind_word(kind: TypeKind) -> Seq<char> {
    match kind {
        TypeKind::Builtin => "builtin"@,
        TypeKind::Struct => "struct"@,
        TypeKind::Enum => "enum"@,
        TypeKind::Func => "function"@,
        TypeKind::Alias => "alias"@,
        TypeKind::TypeDef => "typedef"@,
        TypeKind::Boundaries => "boundary"@,
        TypeKind::Unknown => "unknown"@,
    }
}

/// Text an `ExpectedKindType` is rendered as.
pub open spec fn expected_kind_type_text(kind: ExpectedKindType) -> Seq<char> {
    match kind {
        ExpectedKindType::AnyBuiltin => "builtin type"@,
        ExpectedKindType::Kind(k) => type_kind_word(k),
    }
}

/// Text an `ExpectedKind` is rendered as.
pub open spec fn expected_kind_text(kind: ExpectedKind) -> Seq<char> {
    match kind {
        ExpectedKind::Symbol(flat) => symbol_kind_word(flat),
        ExpectedKind::Type(ty) => expected_kind_type_text(ty),
    }
}

impl SymbolKindFlat {
    /// Classified word of this symbol kind.
    pub fn classified(self) -> (res: String)
        ensures
            res@ == symbol_kind_word(self),
    {
        let word = match self {
            SymbolKindFlat::Namespace => "namespace",
            SymbolKindFlat::Variable => "variable",
            SymbolKindFlat::Type => "type",
            SymbolKindFlat::Directive => "directive",
            SymbolKindFlat::ExternType => "extern type",
        };
        proof {
            reveal_strlit("namespace");
            reveal_strlit("variable");
            reveal_strlit("type");
            reveal_strlit("directive");
            reveal_strlit("extern type");
        }
        word.to_string()
    }
}

impl TypeKind {
    /// Classified word of this type kind.
    pub fn classified(self) -> (res: String)
        ensures
            res@ == type_kind_word(self),
    {
        let word = match self {
            TypeKind::Builtin => "builtin",
            TypeKind::Struct => "struct",
            TypeKind::Enum => "enum",
            TypeKind::Func => "function",
            TypeKind::Alias => "alias",
            TypeKind::TypeDef => "typedef",
            TypeKind::Boundaries => "boundary",
            TypeKind::Unknown => "unknown",
        };
        word.to_string()
    }
}

impl ExpectedKind {
    /// Renders the expected kind for diagnostics.
    pub fn to_string(self) -> (res: String)
        ensures
            res@ == expected_kind_text(self),
    {
        match self {
            ExpectedKind::Symbol(flat) => flat.classified(),
            ExpectedKind::Type(kind) => kind.to_string(),
        }
    }

    /// Expects a symbol of the given kind.
    pub fn from_symbol_kind(kind: SymbolKindFlat) -> (res: ExpectedKind)
        ensures
            res == ExpectedKind::Symbol(kind),
    {
        ExpectedKind::Symbol(kind)
    }

    /// Expects a type of the given kind.
    pub fn from_type_kind(kind: TypeKind) -> (res: ExpectedKind)
        ensures
            res == ExpectedKind::Type(ExpectedKindType::Kind(kind)),
    {
        ExpectedKind::Type(ExpectedKindType::from_type_kind(kind))
    }
}

impl ExpectedKindType {
    /// Renders the expected type kind for diagnostics.
    pub fn to_string(self) -> (res: String)
        ensures
            res@ == expected_kind_type_text(self),
    {
        match self {
            ExpectedKindType::AnyBuiltin => {
                proof {
                    reveal_strlit("builtin type");
                }
                "builtin type".to_string()
            },
            ExpectedKindType::Kind(kind) => kind.classified(),
        }
    }

    /// Expects a type of the given kind.
    pub fn from_type_kind(kind: TypeKind) -> (res: ExpectedKindType)
        ensures
            res == ExpectedKindType::Kind(kind),
    {
        ExpectedKindType::Kind(kind)
    }
}

} // verus!
