//! The compiler's high-level representation: symbols, types, variables, expressions and values.
use vstd::prelude::*;
use crate::builtins::{BuiltinType, ExternPlatformType, TypeBoundaryFlags};
use crate::ids::{
    AstId, DirectiveId, ExprId, InternedId, MemberId, ModuleId, ScopeId, SymbolId, TypeId, ValueId,
    VariableId,
};
use crate::scopes::{AssociatedScopeKind, ScopeType};
use crate::typechecker_concepts::SymbolKindFlat;

verus! {

/// Where a symbol comes from.
#[derive(Debug, PartialEq, Eq, Clone, Copy, Structural)]
pub enum SymbolOrigin {
    Module(ModuleId),
    Compiler,
}

/// What a symbol names.
#[derive(Debug, PartialEq, Eq, Clone, Copy, Structural)]
pub enum SymbolKind {
    Namespace,
    Variable(VariableId),
    Type(TypeId),
    Directive(DirectiveId),
    ExternType(ExternPlatformType),
}

/// The payload-free kind of a symbol kind.
pub open spec fn spec_symbol_kind_flat(kind: SymbolKind) -> SymbolKindFlat {
    match kind {
        SymbolKind::Namespace => SymbolKindFlat::Namespace,
        SymbolKind::Variable(_) => SymbolKindFlat::Variable,
        SymbolKind::Type(_) => SymbolKindFlat::Type,
        SymbolKind::Directive(_) => SymbolKindFlat::Directive,
        SymbolKind::ExternType(_) => SymbolKindFlat::ExternType,
    }
}

/// Dropping the payload keeps the kind: each symbol kind has its own like-named flat kind, and no
/// two share one.
pub proof fn lemma_flat_kind_of(kind: SymbolKind)
    ensures
        kind is Namespace <==> spec_symbol_kind_flat(kind) == SymbolKindFlat::Namespace,
        kind is Variable <==> spec_symbol_kind_flat(kind) == SymbolKindFlat::Variable,
        kind is Type <==> spec_symbol_kind_flat(kind) == SymbolKindFlat::Type,
        kind is Directive <==> spec_symbol_kind_flat(kind) == SymbolKindFlat::Directive,
        kind is ExternType <==> spec_symbol_kind_flat(kind) == SymbolKindFlat::ExternType,
{
}

impl SymbolKind {
    /// Drops the payload of the kind.
    pub fn to_flat(&self) -> (res: SymbolKindFlat)
        ensures
            res == spec_symbol_kind_flat(*self),
    {
        match self {
            SymbolKind::Namespace => SymbolKindFlat::Namespace,
            SymbolKind::Variable(_) => SymbolKindFlat::Variable,
            SymbolKind::Type(_) => SymbolKindFlat::Type,
            SymbolKind::Directive(_) => SymbolKindFlat::Directive,
            SymbolKind::ExternType(_) => SymbolKindFlat::ExternType,
        }
    }
}

/// A named entity of a module or of the compiler.
#[derive(Debug, PartialEq, Eq, Clone, Copy, Structural)]
pub struct Symbol {
    pub name_id: InternedId,
    pub self_id: SymbolId,
    /// Syntax item the symbol was declared by; `None` for compiler generated symbols.
    pub ast_id: Option<AstId>,
    pub sym_origin: SymbolOrigin,
    pub is_priv: bool,
    /// Scope the symbol itself owns, such as a namespace's members.
    pub associated_scope: Option<AssociatedScopeKind>,
    /// Kind of the scope the symbol was declared in.
    pub scope_origin: ScopeType,
    pub kind: SymbolKind,
}

impl Symbol {
    pub fn new(
        name_id: InternedId,
        self_id: SymbolId,
        ast_id: Option<AstId>,
        sym_origin: SymbolOrigin,
        is_priv: bool,
        associated_scope: Option<AssociatedScopeKind>,
        scope_origin: ScopeType,
        kind: SymbolKind,
    ) -> (res: Symbol)
        ensures
            res == (Symbol {
                name_id,
                self_id,
                ast_id,
                sym_origin,
                is_priv,
                associated_scope,
                scope_origin,
                kind,
            }),
    {
        Symbol { name_id, self_id, ast_id, sym_origin, is_priv, associated_scope, scope_origin, kind }
    }
}

/// Built-in function or predicate of core.
#[derive(Debug, PartialEq, Eq, Clone, Copy, Structural)]
pub enum BuiltinFuncKind {
    IsEmpty,
    IsWhitespace,
    Contains,
    StartsW,
    EndsW,
    Range,
    Equals,
}

/// A constraint a call's arguments must meet.
#[derive(Debug, PartialEq, Eq, Clone, Copy, Structural)]
pub enum ArgConstraint {
    ArgCount(u8),
    CharacterMappable,
    Numeric,
    Comparable,
    MatchingArgumentTypes,
    SameTypeAsSelf,
}

/// A function type.
#[derive(Debug, PartialEq, Eq, Clone)]
pub struct FuncDef {
    pub self_id: SymbolId,
    pub name_id: InternedId,
    pub kind: BuiltinFuncKind,
    pub type_constraints: TypeBoundaryFlags,
    pub arg_constraints: Vec<ArgConstraint>,
    pub affects_type_constraint: bool,
    pub ret_type: TypeId,
}

/// A built-in type and the symbol that names it.
#[derive(Debug, PartialEq, Eq, Clone, Copy, Structural)]
pub struct BuiltinTypeInfo {
    pub sym_id: SymbolId,
    pub ty: BuiltinType,
}

/// A struct type and its fields.
#[derive(Debug, PartialEq, Eq, Clone)]
pub struct StructDef {
    pub sym_id: SymbolId,
    pub fields: Vec<MemberId>,
}

/// An enum type and its variants.
#[derive(Debug, PartialEq, Eq, Clone)]
pub struct EnumDef {
    pub sym_id: SymbolId,
    pub variants: Vec<MemberId>,
}

/// An alias type and the local scope holding its parameters.
#[derive(Debug, PartialEq, Eq, Clone, Copy, Structural)]
pub struct AliasDef {
    pub sym_id: SymbolId,
    pub local_scope_id: ScopeId,
}

/// A typedef and the type it names.
#[derive(Debug, PartialEq, Eq, Clone, Copy, Structural)]
pub struct TypeDef {
    pub sym_id: SymbolId,
    pub name_id: InternedId,
    pub inner_type_id: TypeId,
}

/// A type of the type table.
#[derive(Debug, PartialEq, Eq, Clone)]
pub enum Type {
    BuiltinTypeInfo(BuiltinTypeInfo),
    Struct(StructDef),
    Enum(EnumDef),
    Func(FuncDef),
    Alias(AliasDef),
    TypeDef(TypeDef),
    Boundaries(TypeBoundaryFlags),
    /// A type that was not resolved; also the placeholder of a type slot reserved for later.
    Unknown,
    /// A type that stands for another type of the table.
    Deferred(TypeId),
}

/// A type and the module that owns it.
#[derive(Debug, PartialEq, Eq, Clone)]
pub struct TypeInfo {
    pub ty: Type,
    pub owner: ModuleId,
}

impl TypeInfo {
    pub fn new(ty: Type, owner: ModuleId) -> (res: TypeInfo)
        ensures
            res.ty == ty,
            res.owner == owner,
    {
        TypeInfo { ty, owner }
    }
}

/// Integer values the compiler evaluates.
#[derive(Debug, PartialEq, Eq, Clone, Copy, Structural)]
pub enum ArbitraryIntKind {
    I64(i64),
    U64(u64),
}

/// Floating-point values the compiler carries, held by their IEEE-754 binary64 bit pattern.
#[derive(Debug, PartialEq, Eq, Clone, Copy, Structural)]
pub enum ArbitraryFloatKind {
    F64(u64),
}

/// A constant value.
#[derive(Debug, PartialEq, Eq, Clone, Copy, Structural)]
pub enum Value {
    I64(i64),
    /// A 64-bit float, held by its IEEE-754 binary64 bit pattern.
    F64(u64),
    ArbitraryInt(ArbitraryIntKind),
    ArbitraryFloat(ArbitraryFloatKind),
    Bool(bool),
    Char(char),
    InternedStr(InternedId),
}

/// A value, the expression it came from, and its type.
#[derive(Debug, PartialEq, Eq, Clone, Copy, Structural)]
pub struct ValueInfo {
    pub type_id: TypeId,
    pub expr_id: ExprId,
    pub const_val: Option<Value>,
}

impl ValueInfo {
    pub fn new(type_id: TypeId, expr_id: ExprId, const_val: Option<Value>) -> (res: ValueInfo)
        ensures
            res == (ValueInfo { type_id, expr_id, const_val }),
    {
        ValueInfo { type_id, expr_id, const_val }
    }
}

/// Shape of a resolved expression.
#[derive(Debug, PartialEq, Eq, Clone, Copy, Structural)]
pub enum ExprHir {
    /// A constant value.
    Val(ValueId),
    /// A reference to a symbol, such as a variable.
    Var(SymbolId),
}

/// Whether an expression was written by a user or generated by the compiler.
#[derive(Debug, PartialEq, Eq, Clone, Copy, Structural)]
pub enum ResolvedExprMetadata {
    User(AstId),
    Generated,
}

/// An expression whose type is known.
#[derive(Debug, PartialEq, Eq, Clone)]
pub struct ResolvedExpr {
    pub type_id: TypeId,
    pub expr_hir: ExprHir,
    pub val_id: ValueId,
    pub meta: ResolvedExprMetadata,
    /// The expressions this one is built from, such as the two sides of a binary operation.
    pub operands: Vec<ExprId>,
    /// The expression built from this one, if any; resolution walks up through it.
    pub user: Option<ExprId>,
}

impl ResolvedExpr {
    pub fn new(
        type_id: TypeId,
        expr_hir: ExprHir,
        val_id: ValueId,
        meta: ResolvedExprMetadata,
        operands: Vec<ExprId>,
    ) -> (res: ResolvedExpr)
        ensures
            res == (ResolvedExpr { type_id, expr_hir, val_id, meta, operands, user: None }),
    {
        ResolvedExpr { type_id, expr_hir, val_id, meta, operands, user: None }
    }
}

/// Whether a variable was written by a user or generated by the compiler.
#[derive(Debug, PartialEq, Eq, Clone, Copy, Structural)]
pub enum VariableMetadata {
    User(AstId),
    Generated,
}

/// How far a variable is resolved.
#[derive(Debug, PartialEq, Eq, Clone, Copy, Structural)]
pub enum VariableState {
    /// Only a type slot is reserved for the variable.
    ReservedTypeSlot(TypeId),
    /// The variable holds a known value.
    Known(ValueId),
}

/// A variable.
#[derive(Debug, PartialEq, Eq, Clone, Copy, Structural)]
pub struct VarDef {
    pub self_id: SymbolId,
    pub name_id: InternedId,
    pub meta: VariableMetadata,
    pub state: VariableState,
}

impl VarDef {
    pub fn new(
        self_id: SymbolId,
        name_id: InternedId,
        meta: VariableMetadata,
        state: VariableState,
    ) -> (res: VarDef)
        ensures
            res == (VarDef { self_id, name_id, meta, state }),
    {
        VarDef { self_id, name_id, meta, state }
    }
}

} // verus!
