use lib::compiler_consts::{CORE_BOOL, CORE_CHAR, CORE_I64, CORE_STR};
use lib::hir::{ExprHir, ResolvedExprMetadata, Value};
use lib::literals::{LiteralError, LiteralExpr};
use lib::script_compiler::ScriptCompiler;

fn integer(name_id: u32, text: &str) -> LiteralExpr {
    LiteralExpr::Integer { name_id, text: text.to_string() }
}

#[test]
fn integer_literals_become_i64_constants() {
    let mut compiler = ScriptCompiler::init(None, Vec::new());
    let exprs = compiler.exprs.len() as u32;
    let values = compiler.values.len() as u32;

    assert_eq!(compiler.register_literal(&integer(500, "42"), 3), Ok(exprs));
    let expr = &compiler.exprs[exprs as usize];
    assert_eq!(expr.type_id, CORE_I64);
    assert_eq!(expr.expr_hir, ExprHir::Val(values));
    assert_eq!(expr.val_id, values);
    assert_eq!(expr.meta, ResolvedExprMetadata::User(3));
    assert!(expr.operands.is_empty());
    assert_eq!(expr.user, None);
    let val = &compiler.values[values as usize];
    assert_eq!(val.type_id, CORE_I64);
    assert_eq!(val.expr_id, exprs);
    assert_eq!(val.const_val, Some(Value::I64(42)));

    assert_eq!(compiler.register_literal(&integer(501, "-9223372036854775808"), 4), Ok(exprs + 1));
    assert_eq!(compiler.values[(values + 1) as usize].const_val, Some(Value::I64(i64::MIN)));
    assert_eq!(compiler.register_literal(&integer(502, "+7"), 5), Ok(exprs + 2));
    assert_eq!(compiler.values[(values + 2) as usize].const_val, Some(Value::I64(7)));
}

#[test]
fn integers_beyond_i64_overflow_and_push_nothing() {
    let mut compiler = ScriptCompiler::init(None, Vec::new());
    let exprs = compiler.exprs.len();
    let values = compiler.values.len();
    assert_eq!(
        compiler.register_literal(&integer(600, "9223372036854775808"), 1),
        Err(LiteralError::NumericOverflow(600))
    );
    assert_eq!(compiler.register_literal(&integer(601, "-"), 1), Err(LiteralError::NumericOverflow(601)));
    assert_eq!(compiler.exprs.len(), exprs);
    assert_eq!(compiler.values.len(), values);
}

#[test]
fn other_literals_take_their_core_types() {
    let mut compiler = ScriptCompiler::init(None, Vec::new());
    let values = compiler.values.len();
    compiler.register_literal(&LiteralExpr::Char('x'), 1).unwrap();
    compiler.register_literal(&LiteralExpr::Str(77), 2).unwrap();
    compiler.register_literal(&LiteralExpr::Bool(true), 3).unwrap();
    assert_eq!(compiler.values[values].type_id, CORE_CHAR);
    assert_eq!(compiler.values[values].const_val, Some(Value::Char('x')));
    assert_eq!(compiler.values[values + 1].type_id, CORE_STR);
    assert_eq!(compiler.values[values + 1].const_val, Some(Value::InternedStr(77)));
    assert_eq!(compiler.values[values + 2].type_id, CORE_BOOL);
    assert_eq!(compiler.values[values + 2].const_val, Some(Value::Bool(true)));
}
