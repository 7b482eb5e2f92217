//! Rendering expressions to SQL text.

use crabql::expr::{col, Case, CaseBranch, Dialect, Expr, ExprType, Expression};

#[test]
fn equality_of_two_columns() {
    let e = Expr::Eq(Box::new(crabql::expr::Eq::new(col("a"), col("b"), ExprType::Any)));
    assert_eq!(e.display(Dialect::Postgres), "a = b");
}

#[test]
fn equality_via_the_combinator() {
    let e = col("a").eq(col("b"));
    assert_eq!(e.display(Dialect::Postgres), "a = b");
}

#[test]
fn between_renders_with_bounds() {
    let e = col("x").between(Expr::num_lit(1), Expr::num_lit(10));
    assert_eq!(e.display(Dialect::Postgres), "x BETWEEN 1 AND 10");
}

#[test]
fn negated_conjunction() {
    let e = col("a").and(col("b")).not();
    assert_eq!(e.display(Dialect::Postgres), "NOT a AND b");
}

#[test]
fn the_expression_interface_agrees_with_the_inherent_one() {
    let e = col("a").eq(col("b"));
    assert_eq!(Expression::display(&e, Dialect::Postgres), "a = b");
    assert_eq!(Expression::eval_type(&e), ExprType::Bool);
}

#[test]
fn display_is_deterministic() {
    let one = col("a").and(col("b")).not();
    let two = col("a").and(col("b")).not();
    assert_eq!(one.display(Dialect::Postgres), two.display(Dialect::Postgres));
}

#[test]
fn literals_render_in_decimal() {
    assert_eq!(Expr::num_lit(0).display(Dialect::Postgres), "0");
    assert_eq!(Expr::num_lit(42).display(Dialect::Postgres), "42");
    assert_eq!(Expr::num_lit(-7).display(Dialect::Postgres), "-7");
    assert_eq!(
        Expr::num_lit(i64::MIN).display(Dialect::Postgres),
        "-9223372036854775808"
    );
    assert_eq!(Expr::bool_lit(true).display(Dialect::Postgres), "true");
    assert_eq!(Expr::bool_lit(false).display(Dialect::Postgres), "false");
}

#[test]
fn arithmetic_parenthesises_by_node_kind() {
    let e = col("a").add(col("b")).mul(Expr::num_lit(2));
    assert_eq!(e.display(Dialect::Postgres), "((a + b) * 2)");
}

#[test]
fn length_and_alias_render() {
    let e = col("name").len().alias("name_length");
    assert_eq!(e.display(Dialect::Postgres), "LENGTH(name) AS name_length");
}

#[test]
fn case_renders_branches_in_order() {
    let case = Case::new(vec![
        CaseBranch::new(Some(col("a")), Expr::num_lit(1)),
        CaseBranch::new(None, Expr::num_lit(2)),
    ]);
    assert_eq!(
        Expr::Case(case).display(Dialect::Postgres),
        "CASE WHEN a THEN 1 ELSE 2 END"
    );
}

#[test]
fn comparisons_render_their_operators() {
    assert_eq!(col("x").gt(Expr::num_lit(3)).display(Dialect::Postgres), "x > 3");
    assert_eq!(col("x").ge(Expr::num_lit(3)).display(Dialect::Postgres), "x >= 3");
    assert_eq!(col("x").lt(Expr::num_lit(3)).display(Dialect::Postgres), "x < 3");
    assert_eq!(col("x").leq(Expr::num_lit(3)).display(Dialect::Postgres), "x <= 3");
    assert_eq!(col("x").neq(Expr::num_lit(3)).display(Dialect::Postgres), "x != 3");
    assert_eq!(col("p").or(col("q")).display(Dialect::Postgres), "p OR q");
    assert_eq!(
        col("x").sub(col("y")).div(col("z")).rem(Expr::num_lit(3)).display(Dialect::Postgres),
        "(((x - y) / z) % 3)"
    );
}
