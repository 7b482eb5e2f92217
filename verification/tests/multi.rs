//! List-joins and their rendering.

use crabql::expr::multi::MultiExpr;
use crabql::expr::{col, Dialect, Expr, ExprType};

#[test]
fn display() {
    let mut joined = MultiExpr::new(col("hello"));
    joined.push(col("world").len().gt(Expr::num_lit(3)));
    println!("SELECT {} FROM my_table", joined.display(Dialect::Postgres));
}

#[test]
fn multi_display() {
    let mut joined = MultiExpr::new(col("hello"));
    joined.push(col("world").len().gt(Expr::num_lit(3)));
    println!("SELECT {} FROM my_table", joined.display(Dialect::Postgres));
}

#[test]
fn single_element_renders_alone() {
    let joined = MultiExpr::new(col("only"));
    assert_eq!(joined.display(Dialect::Postgres), "only");
    assert_eq!(joined.len(), 1);
}

#[test]
fn three_elements_join_with_comma() {
    let mut joined = MultiExpr::new(col("a"));
    joined.push(col("b"));
    joined.push(col("c"));
    assert_eq!(joined.display(Dialect::Postgres), "a, b, c");
    assert_eq!(joined.len(), 3);
}

#[test]
fn join_conditions_are_unconstrained() {
    let mut joined = MultiExpr::new(col("a"));
    joined.push(col("b"));
    let conds = joined.conditions(ExprType::Any);
    assert_eq!(conds.len(), 2);
    assert_eq!(
        conds[0],
        crabql::checker::Condition::ColumnExistsAndType("a".to_string(), ExprType::Any)
    );
}
