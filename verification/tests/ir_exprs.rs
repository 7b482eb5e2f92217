//! The defect-accumulating IR combinators.

use crabql::ir::funcs::Mappings;
use crabql::ir::table::{Column, Table};
use crabql::ir::{BaseExpr, BoolOp, Comparison, Expr, ExprResult, Value};

#[test]
fn len_of_a_column_builds_a_func_node() {
    let r = Column::new("name").len();
    assert!(!r.has_error());
    match r.expr {
        Expr::Func(f) => assert_eq!(f.args.len(), 1),
        _ => panic!("expected a function node"),
    }
}

#[test]
fn len_of_a_boolean_is_a_defect() {
    let bools = Mappings::gt(Column::new("a"), 3_usize.into_res());
    let r = bools.len();
    assert_eq!(
        r.error.map(|e| e.0),
        Some("Attempt to apply LEN() to a boolean expression".to_string())
    );
}

#[test]
fn len_of_a_numeric_literal_is_a_defect() {
    let r = 3_usize.into_res().len();
    assert_eq!(
        r.error.map(|e| e.0),
        Some("Attempt to apply `LEN()` function to a literal value not of type String".to_string())
    );
}

#[test]
fn count_only_counts_columns() {
    assert!(!Column::new("id").count().has_error());
    assert_eq!(
        3_usize.into_res().count().error.map(|e| e.0),
        Some("Attempt to count rows of a non column type".to_string())
    );
}

#[test]
fn connectives_need_boolean_operands() {
    let ok = Mappings::gt(Column::new("a"), 1_usize.into_res())
        .and(Mappings::gt(Column::new("b"), 2_usize.into_res()));
    assert!(!ok.has_error());

    let bad = Column::new("a").into_res().or(Column::new("b").into_res());
    assert_eq!(
        bad.error.map(|e| e.0),
        Some("Attempt to `AND` non-boolean expressions".to_string())
    );
}

#[test]
fn an_early_defect_is_carried_through() {
    let bad = 3_usize.into_res().count();
    let chained = bad.and(Mappings::gt(Column::new("b"), 2_usize.into_res()));
    assert_eq!(
        chained.error.map(|e| e.0),
        Some("Attempt to count rows of a non column type".to_string())
    );
}

#[test]
fn comparisons_wrap_literal_values() {
    let r = Column::new("id").ge(Value::Int(-4));
    assert!(r.error.is_none());
    match r.expr {
        Expr::Bool(b) => {
            assert!(matches!(b.op, BoolOp::Ge));
            assert!(matches!(*b.rhs, Expr::Base(BaseExpr::Lit(Value::Int(-4)))));
        }
        _ => panic!("expected a boolean node"),
    }
}

#[test]
fn comparison_operators_cover_all_forms() {
    let c = Column::new("id");
    assert!(matches!(c.eq(Value::UInt(1)).expr, Expr::Bool(_)));
    assert!(matches!(c.ne(Value::UInt(1)).expr, Expr::Bool(_)));
    assert!(matches!(Comparison::gt(&c, Value::UInt(1)).expr, Expr::Bool(_)));
    assert!(matches!(c.lt(Value::UInt(1)).expr, Expr::Bool(_)));
    assert!(matches!(c.le(Value::Null).expr, Expr::Bool(_)));
}

#[test]
fn tables_hand_out_named_columns() {
    let t = Table::new("emp");
    let c = t.col("id");
    assert_eq!(c.name, "id");
    let r: ExprResult = c.into_res();
    assert!(matches!(r.expr, Expr::Base(BaseExpr::Col(_))));
}

#[test]
fn values_convert_from_primitives() {
    assert!(matches!(Value::from(3_usize), Value::UInt(3)));
    assert!(matches!(Value::from(-3_isize), Value::Int(-3)));
    assert!(matches!(Value::from("x".to_string()), Value::Str(_)));
}
