//! Descriptions of compiler generated symbols, registered procedurally into scopes.
use vstd::prelude::*;
use crate::builtins::{BuiltinType, ExternPlatformType};
use crate::hir::{ArbitraryIntKind, Symbol, SymbolKind, SymbolOrigin, Value};
use crate::ids::{AstId, InternedId, SymbolId};
use crate::scopes::{AssociatedScopeKind, ScopeType};

verus! {

/// Description of a symbol the compiler instantiates: its name, its origin and what it is.
#[derive(Debug)]
pub struct InstantiationSymbolBase {
    pub name_id: InternedId,
    pub sym_origin: SymbolOrigin,
    pub scope_origin: ScopeType,
    pub is_priv: bool,
    pub kind: InstantiationSymbolKind,
}

/// What an instantiated symbol is.
#[derive(Debug)]
pub enum InstantiationSymbolKind {
    /// A namespace holding further symbols in a scope of its own.
    Namespace(Vec<InstantiationSymbolBase>),
    /// A variable with a constant value.
    Variable(InstantiationVariable),
    /// A type of a target platform.
    ExternType(ExternPlatformType),
}

/// A compiler generated variable: its type and its value.
#[derive(Debug)]
pub struct InstantiationVariable {
    pub ty: InstiationType,
    pub val: InstiationValue,
}

/// Type of a compiler generated variable.
#[derive(Debug, PartialEq, Eq, Clone, Copy, Structural)]
pub enum InstiationType {
    BuiltinType(BuiltinType),
}

/// Value of a compiler generated variable.
#[derive(Debug)]
pub enum InstiationValue {
    I64(i64),
    U64(u64),
    /// IEEE-754 binary64 bit pattern of the value.
    F64(u64),
    Bool(bool),
    Char(char),
    Tuple(Vec<InstiationValue>),
    Array(Vec<InstiationValue>),
    Str(InternedId),
}

impl InstantiationSymbolBase {
    pub fn new(
        name_id: InternedId,
        sym_origin: SymbolOrigin,
        scope_origin: ScopeType,
        is_priv: bool,
        kind: InstantiationSymbolKind,
    ) -> (res: Self)
        ensures
            res == (InstantiationSymbolBase { name_id, sym_origin, scope_origin, is_priv, kind }),
    {
        Self { name_id, sym_origin, scope_origin, is_priv, kind }
    }

    /// Converts to a symbol, keeping the name, origin and privacy this base describes.
    pub fn to_sym(
        &self,
        sym_id: SymbolId,
        ast_id: Option<AstId>,
        associated_scope: Option<AssociatedScopeKind>,
        kind: SymbolKind,
    ) -> (res: Symbol)
        ensures
            res == (Symbol {
                name_id: self.name_id,
                self_id: sym_id,
                ast_id,
                sym_origin: self.sym_origin,
                is_priv: self.is_priv,
                associated_scope,
                scope_origin: self.scope_origin,
                kind,
            }),
    {
        Symbol::new(
            self.name_id,
            sym_id,
            ast_id,
            self.sym_origin,
            self.is_priv,
            associated_scope,
            self.scope_origin,
            kind,
        )
    }
}

impl InstantiationVariable {
    pub fn new(ty: InstiationType, val: InstiationValue) -> (res: Self)
        ensures
            res == (InstantiationVariable { ty, val }),
    {
        Self { ty, val }
    }
}

/// Whether a value is a scalar, the only values that convert to a `Value`.
pub open spec fn is_scalar_value(val: InstiationValue) -> bool {
    !(val is Tuple || val is Array)
}

/// The `Value` a scalar instantiation value stands for.
pub open spec fn spec_to_val(val: InstiationValue) -> Value {
    match val {
        InstiationValue::I64(v) => Value::I64(v),
        InstiationValue::U64(v) => Value::ArbitraryInt(ArbitraryIntKind::U64(v)),
        InstiationValue::F64(bits) => Value::F64(bits),
        InstiationValue::Bool(b) => Value::Bool(b),
        InstiationValue::Char(c) => Value::Char(c),
        InstiationValue::Str(id) => Value::InternedStr(id),
        _ => Value::Bool(false),
    }
}

/// Converting keeps the value: an `i64` stays that number, a float its bits, an unsigned number,
/// a boolean, a character and a string theirs.
pub proof fn lemma_to_val_keeps_value(val: InstiationValue)
    ensures
        val matches InstiationValue::I64(v) ==> spec_to_val(val) == Value::I64(v),
        val matches InstiationValue::F64(bits) ==> spec_to_val(val) == Value::F64(bits),
        val matches InstiationValue::U64(v) ==> spec_to_val(val) == Value::ArbitraryInt(ArbitraryIntKind::U64(v)),
        val matches InstiationValue::Bool(b) ==> spec_to_val(val) == Value::Bool(b),
        val matches InstiationValue::Char(c) ==> spec_to_val(val) == Value::Char(c),
        val matches InstiationValue::Str(id) ==> spec_to_val(val) == Value::InternedStr(id),
{
}

impl InstiationValue {
    /// Converts itself to the `Value` type.
    pub fn to_val(&self) -> (res: Value)
        requires
            is_scalar_value(*self),
        ensures
            res == spec_to_val(*self),
    {
        match self {
            InstiationValue::I64(val) => Value::I64(*val),
            InstiationValue::U64(val) => Value::ArbitraryInt(ArbitraryIntKind::U64(*val)),
            InstiationValue::F64(bits) => Value::F64(*bits),
            InstiationValue::Bool(b) => Value::Bool(*b),
            InstiationValue::Char(c) => Value::Char(*c),
            InstiationValue::Str(id) => Value::InternedStr(*id),
            InstiationValue::Tuple(_) | InstiationValue::Array(_) => Value::Bool(false),
        }
    }
}

/// Number of symbols registering `bases` pushes: one per base, namespaces' members included.
pub open spec fn spec_symbol_count(bases: Seq<InstantiationSymbolBase>) -> nat
    decreases bases,
{
    if bases.len() == 0 {
        0
    } else {
        spec_symbol_count(bases.drop_last()) + spec_base_symbol_count(bases.last())
    }
}

/// Number of symbols registering one base pushes.
pub open spec fn spec_base_symbol_count(base: InstantiationSymbolBase) -> nat
    decreases base,
{
    match base.kind {
        InstantiationSymbolKind::Namespace(inner) => 1 + spec_symbol_count(inner@),
        _ => 1,
    }
}

/// Number of scopes registering `bases` pushes: one per namespace, nested ones included.
pub open spec fn spec_scope_count(bases: Seq<InstantiationSymbolBase>) -> nat
    decreases bases,
{
    if bases.len() == 0 {
        0
    } else {
        spec_scope_count(bases.drop_last()) + spec_base_scope_count(bases.last())
    }
}

/// Number of scopes registering one base pushes.
pub open spec fn spec_base_scope_count(base: InstantiationSymbolBase) -> nat
    decreases base,
{
    match base.kind {
        InstantiationSymbolKind::Namespace(inner) => 1 + spec_scope_count(inner@),
        _ => 0,
    }
}

/// Number of variables registering `bases` pushes: one per variable, nested ones included.
pub open spec fn spec_variable_count(bases: Seq<InstantiationSymbolBase>) -> nat
    decreases bases,
{
    if bases.len() == 0 {
        0
    } else {
        spec_variable_count(bases.drop_last()) + spec_base_variable_count(bases.last())
    }
}

/// Number of variables registering one base pushes.
pub open spec fn spec_base_variable_count(base: InstantiationSymbolBase) -> nat
    decreases base,
{
    match base.kind {
        InstantiationSymbolKind::Namespace(inner) => spec_variable_count(inner@),
        InstantiationSymbolKind::Variable(_) => 1,
        InstantiationSymbolKind::ExternType(_) => 0,
    }
}

/// Counting the bases of two lists one after the other gives the sum of their counts: symbols,
/// scopes and variables alike; an empty list counts nothing.
pub proof fn lemma_counts_additive(a: Seq<InstantiationSymbolBase>, b: Seq<InstantiationSymbolBase>)
    ensures
        spec_symbol_count(Seq::<InstantiationSymbolBase>::empty()) == 0,
        spec_scope_count(Seq::<InstantiationSymbolBase>::empty()) == 0,
        spec_variable_count(Seq::<InstantiationSymbolBase>::empty()) == 0,
        spec_symbol_count(a + b) == spec_symbol_count(a) + spec_symbol_count(b),
        spec_scope_count(a + b) == spec_scope_count(a) + spec_scope_count(b),
        spec_variable_count(a + b) == spec_variable_count(a) + spec_variable_count(b),
    decreases b.len(),
{
    if b.len() == 0 {
        assert(a + b =~= a);
    } else {
        lemma_counts_additive(a, b.drop_last());
        assert((a + b).drop_last() =~= a + b.drop_last());
        assert((a + b).last() == b.last());
    }
}

/// Counting the first `k` bases never gives more than counting all of them.
pub proof fn lemma_counts_of_prefix(bases: Seq<InstantiationSymbolBase>, k: int)
    requires
        0 <= k <= bases.len(),
    ensures
        spec_symbol_count(bases.take(k)) <= spec_symbol_count(bases),
        spec_scope_count(bases.take(k)) <= spec_scope_count(bases),
        spec_variable_count(bases.take(k)) <= spec_variable_count(bases),
    decreases bases.len(),
{
    if k < bases.len() {
        lemma_counts_of_prefix(bases.drop_last(), k);
        assert(bases.drop_last().take(k) =~= bases.take(k));
    } else {
        assert(bases.take(k) =~= bases);
    }
}

/// Counting a prefix one base longer adds exactly that base's counts.
pub proof fn lemma_counts_step(bases: Seq<InstantiationSymbolBase>, k: int)
    requires
        0 <= k < bases.len(),
    ensures
        spec_symbol_count(bases.take(k + 1)) == spec_symbol_count(bases.take(k))
            + spec_base_symbol_count(bases[k]),
        spec_scope_count(bases.take(k + 1)) == spec_scope_count(bases.take(k))
            + spec_base_scope_count(bases[k]),
        spec_variable_count(bases.take(k + 1)) == spec_variable_count(bases.take(k))
            + spec_base_variable_count(bases[k]),
{
    assert(bases.take(k + 1).drop_last() =~= bases.take(k));
}

} // verus!
