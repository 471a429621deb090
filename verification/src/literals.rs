//! Registering the literal expressions of a declaration: each becomes one expression and one
//! constant value of its core type.
use vstd::prelude::*;
use crate::compiler_consts::{CORE_BOOL, CORE_CHAR, CORE_I64, CORE_STR};
use crate::hir::{ExprHir, ResolvedExpr, ResolvedExprMetadata, Value, ValueInfo};
use crate::ids::{AstId, ExprId, InternedId, TypeId, ValueId};
use crate::script_compiler::ScriptCompiler;

verus! {

/// A literal of the syntax tree, with what registering it reads.
#[derive(Debug, PartialEq, Eq, Clone)]
pub enum LiteralExpr {
    /// An integer literal: its interned text `name_id`, spelled `text`.
    Integer { name_id: InternedId, text: String },
    Char(char),
    /// A string literal, by its interned text.
    Str(InternedId),
    Bool(bool),
}

/// Why a literal could not be registered.
#[derive(Debug, PartialEq, Eq, Clone, Copy, Structural)]
pub enum LiteralError {
    /// The integer literal `name_id` does not fit an `i64`.
    NumericOverflow(InternedId),
}

/// Whether every character of `s` is an ASCII decimal digit, and there is at least one.
pub open spec fn all_decimal_digits(s: Seq<char>) -> bool {
    &&& s.len() > 0
    &&& forall|i: int| 0 <= i < s.len() ==> '0' <= #[trigger] s[i] && s[i] <= '9'
}

/// The number the decimal digits `s` spell.
pub open spec fn decimal_value(s: Seq<char>) -> int
    decreases s.len(),
{
    if s.len() == 0 {
        0
    } else {
        decimal_value(s.drop_last()) * 10 + (s.last() as int - '0' as int)
    }
}

/// What reading `text` as an `i64` gives: an optional `+` or `-` sign followed by decimal digits,
/// when the number they spell fits an `i64`; nothing otherwise.
pub open spec fn spec_parse_i64(text: Seq<char>) -> Option<i64> {
    let signed = text.len() > 0 && (text[0] == '-' || text[0] == '+');
    let digits = if signed {
        text.drop_first()
    } else {
        text
    };
    let magnitude = decimal_value(digits);
    let value = if signed && text[0] == '-' {
        -magnitude
    } else {
        magnitude
    };
    if all_decimal_digits(digits) && i64::MIN <= value <= i64::MAX {
        Some(value as i64)
    } else {
        None
    }
}

/// Reads `text` as an `i64` with `str::parse`. Its contract restates what std documents for
/// integers: an optional `+` or `-` sign followed by one or more ASCII digits, accepted when the
/// value fits the type.
#[verifier::external_body]
fn parse_i64(text: &str) -> (res: Option<i64>)
    ensures
        res == spec_parse_i64(text@),
{
    text.parse::<i64>().ok()
}

/// The core type and constant value of a literal, when it has one.
pub open spec fn spec_literal(lit: LiteralExpr) -> Option<(TypeId, Value)> {
    match lit {
        LiteralExpr::Integer { text, .. } => match spec_parse_i64(text@) {
            Some(n) => Some((CORE_I64, Value::I64(n))),
            None => None,
        },
        LiteralExpr::Char(c) => Some((CORE_CHAR, Value::Char(c))),
        LiteralExpr::Str(name_id) => Some((CORE_STR, Value::InternedStr(name_id))),
        LiteralExpr::Bool(b) => Some((CORE_BOOL, Value::Bool(b))),
    }
}

/// A literal's constant is the literal itself: a boolean literal holds its own boolean, a
/// character its character, a string its interned text, each of its core type; an integer holds
/// the number its text spells, as an `i64`, when it fits.
pub proof fn lemma_literal_is_itself(lit: LiteralExpr)
    ensures
        lit matches LiteralExpr::Bool(b) ==> spec_literal(lit) == Some((CORE_BOOL, Value::Bool(b))),
        lit matches LiteralExpr::Char(c) ==> spec_literal(lit) == Some((CORE_CHAR, Value::Char(c))),
        lit matches LiteralExpr::Str(n) ==> spec_literal(lit) == Some((CORE_STR, Value::InternedStr(n))),
        lit matches LiteralExpr::Integer { text, .. } ==> (spec_literal(lit) is Some <==> spec_parse_i64(text@) is Some),
        lit is Integer && spec_parse_i64(lit->text@) is Some ==> spec_literal(lit) == Some(
            (CORE_I64, Value::I64(spec_parse_i64(lit->text@)->0)),
        ),
{
}

/// Plain decimal digits read as the number they spell, when it fits an `i64`; a leading `-`
/// negates it.
pub proof fn lemma_parse_i64_digits(digits: Seq<char>)
    requires
        all_decimal_digits(digits),
        decimal_value(digits) <= i64::MAX,
    ensures
        spec_parse_i64(digits) == Some(decimal_value(digits) as i64),
        spec_parse_i64(seq!['-'] + digits) == Some((-decimal_value(digits)) as i64),
{
    assert(digits[0] != '-' && digits[0] != '+');
    let neg = seq!['-'] + digits;
    assert(neg[0] == '-');
    assert(neg.drop_first() =~= digits);
    lemma_decimal_value_nonneg(digits);
}

/// Decimal digits spell a number that is not negative.
proof fn lemma_decimal_value_nonneg(s: Seq<char>)
    requires
        forall|i: int| 0 <= i < s.len() ==> '0' <= #[trigger] s[i] && s[i] <= '9',
    ensures
        decimal_value(s) >= 0,
    decreases s.len(),
{
    if s.len() > 0 {
        assert forall|i: int| 0 <= i < s.drop_last().len() implies '0' <= #[trigger] s.drop_last()[i] && s.drop_last()[i] <= '9' by {
            assert(s.drop_last()[i] == s[i]);
        }
        lemma_decimal_value_nonneg(s.drop_last());
        assert(s[s.len() - 1] == s.last());
    }
}

impl ScriptCompiler {
    /// Registers the literal `lit`, written at syntax item `ast_id`: its expression takes the next
    /// expression place and its value the next value place, typed with the literal's core type
    /// (`i64` for integers) and holding the constant. An integer that does not fit an `i64` is a
    /// `NumericOverflow`, and then nothing is pushed.
    pub fn register_literal(&mut self, lit: &LiteralExpr, ast_id: AstId) -> (res: Result<ExprId, LiteralError>)
        requires
            old(self).exprs.len() < u32::MAX,
            old(self).values.len() < u32::MAX,
        ensures
            match spec_literal(*lit) {
                None => {
                    &&& res == Err::<ExprId, LiteralError>(LiteralError::NumericOverflow(lit->name_id))
                    &&& final(self).exprs@ == old(self).exprs@
                    &&& final(self).values@ == old(self).values@
                },
                Some((type_id, val)) => {
                    let expr_id = old(self).exprs.len() as ExprId;
                    let val_id = old(self).values.len() as ValueId;
                    &&& res == Ok::<ExprId, LiteralError>(expr_id)
                    &&& final(self).exprs.len() == old(self).exprs.len() + 1
                    &&& final(self).exprs@.take(old(self).exprs.len() as int) == old(self).exprs@
                    &&& final(self).exprs@[expr_id as int].type_id == type_id
                    &&& final(self).exprs@[expr_id as int].expr_hir == ExprHir::Val(val_id)
                    &&& final(self).exprs@[expr_id as int].val_id == val_id
                    &&& final(self).exprs@[expr_id as int].meta == ResolvedExprMetadata::User(ast_id)
                    &&& final(self).exprs@[expr_id as int].operands@ == Seq::<ExprId>::empty()
                    &&& final(self).exprs@[expr_id as int].user == None::<ExprId>
                    &&& final(self).values@ == old(self).values@.push(ValueInfo { type_id, expr_id, const_val: Some(val) })
                },
            },
            *lit matches LiteralExpr::Bool(b) ==> res is Ok && final(self).values@.last() == (ValueInfo {
                type_id: CORE_BOOL,
                expr_id: res->Ok_0,
                const_val: Some(Value::Bool(b)),
            }),
            *lit matches LiteralExpr::Char(c) ==> res is Ok && final(self).values@.last() == (ValueInfo {
                type_id: CORE_CHAR,
                expr_id: res->Ok_0,
                const_val: Some(Value::Char(c)),
            }),
            *lit matches LiteralExpr::Str(name_id) ==> res is Ok && final(self).values@.last() == (ValueInfo {
                type_id: CORE_STR,
                expr_id: res->Ok_0,
                const_val: Some(Value::InternedStr(name_id)),
            }),
            *lit is Integer && spec_parse_i64(lit->text@) is Some ==> res is Ok && final(self).values@.last() == (ValueInfo {
                type_id: CORE_I64,
                expr_id: res->Ok_0,
                const_val: Some(Value::I64(spec_parse_i64(lit->text@)->0)),
            }),
            *lit is Integer && spec_parse_i64(lit->text@) is None ==> res == Err::<ExprId, LiteralError>(
                LiteralError::NumericOverflow(lit->name_id),
            ),
            res is Ok ==> final(self).exprs@[res->Ok_0 as int].val_id == old(self).values.len() && final(self).exprs@[res->Ok_0 as int].type_id
                == final(self).values@.last().type_id,
            final(self).types == old(self).types,
            final(self).syms == old(self).syms,
            final(self).variables == old(self).variables,
            final(self).scopes == old(self).scopes,
            final(self).mods == old(self).mods,
            final(self).directives == old(self).directives,
            final(self).intrinsic_registry == old(self).intrinsic_registry,
            final(self).resolver_state == old(self).resolver_state,
            final(self).bind == old(self).bind,
    {
        let (type_id, val) = match lit {
            LiteralExpr::Integer { name_id, text } => match parse_i64(text.as_str()) {
                Some(num) => (CORE_I64, Value::I64(num)),
                None => {
                    return Err(LiteralError::NumericOverflow(*name_id));
                },
            },
            LiteralExpr::Char(c) => (CORE_CHAR, Value::Char(*c)),
            LiteralExpr::Str(name_id) => (CORE_STR, Value::InternedStr(*name_id)),
            LiteralExpr::Bool(b) => (CORE_BOOL, Value::Bool(*b)),
        };
        let expr_id = self.exprs.len() as ExprId;
        let val_id = self.values.len() as ValueId;
        let expr = ResolvedExpr::new(type_id, ExprHir::Val(val_id), val_id, ResolvedExprMetadata::User(ast_id), Vec::new());
        self.values.push(ValueInfo::new(type_id, expr_id, Some(val)));
        self.exprs.push(expr);
        proof {
            assert(self.exprs@.take(old(self).exprs.len() as int) =~= old(self).exprs@);
        }
        Ok(expr_id)
    }
}

} // verus!
