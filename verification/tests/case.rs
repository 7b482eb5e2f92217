//! `CASE` resolution and the conditions protocol around it.

use crabql::checker::Condition;
use crabql::expr::{col, Case, CaseBranch, Expr, ExprType};
use crabql::protocol::Client;

fn case_of(branches: Vec<CaseBranch>) -> Case {
    Case::new(branches)
}

#[test]
fn all_any() {
    let case = case_of(vec![
        CaseBranch::new(Some(col("a")), col("b")),
        CaseBranch::new(None, col("d")),
    ]);
    assert_eq!(case.validate(), Ok(ExprType::Any));
}

#[test]
fn downcast_any() {
    let case = case_of(vec![
        CaseBranch::new(Some(col("a")), col("b")),
        CaseBranch::new(Some(col("c")), Expr::num_lit(0)),
    ]);
    assert_eq!(case.validate(), Ok(ExprType::Num));
}

#[test]
fn error() {
    let case = case_of(vec![
        CaseBranch::new(Some(col("a")), Expr::bool_lit(true)),
        CaseBranch::new(Some(col("c")), Expr::num_lit(0)),
    ]);
    assert!(case.validate().is_err());
}

#[test]
fn conds() {
    let case = case_of(vec![
        CaseBranch::new(Some(col("a")), col("b")),
        CaseBranch::new(Some(col("c")), col("d")),
    ]);

    for msg in Expr::Case(case).messages(ExprType::Any) {
        println!("{msg:?}");
    }
}

#[test]
fn case_all_any() {
    let case = case_of(vec![
        CaseBranch::new(Some(col("a")), col("b")),
        CaseBranch::new(None, col("d")),
    ]);
    assert_eq!(case.validate(), Ok(ExprType::Any));
}

#[test]
fn case_downcast_any() {
    let case = case_of(vec![
        CaseBranch::new(Some(col("a")), col("b")),
        CaseBranch::new(Some(col("c")), Expr::num_lit(0)),
    ]);
    assert_eq!(case.validate(), Ok(ExprType::Num));
}

#[test]
fn case_error() {
    let case = case_of(vec![
        CaseBranch::new(Some(col("a")), Expr::bool_lit(true)),
        CaseBranch::new(Some(col("c")), Expr::num_lit(0)),
    ]);
    assert!(case.validate().is_err());
}

#[test]
fn case_conds() {
    let case = case_of(vec![
        CaseBranch::new(Some(col("a")), col("b")),
        CaseBranch::new(Some(col("c")), col("d")),
    ]);

    for cond in Expr::Case(case).conditions(ExprType::Any) {
        println!("{cond:?}");
    }
}

#[test]
fn empty_case_stays_ambiguous() {
    let case = case_of(vec![]);
    assert_eq!(case.validate(), Ok(ExprType::Any));
}

#[test]
fn mismatch_pair_is_exact() {
    let case = case_of(vec![
        CaseBranch::new(Some(col("a")), Expr::bool_lit(true)),
        CaseBranch::new(Some(col("c")), Expr::num_lit(0)),
    ]);
    assert_eq!(case.validate(), Err((ExprType::Bool, ExprType::Num)));
}

#[test]
fn mismatch_emits_one_condition_and_no_child_conditions() {
    let case = case_of(vec![
        CaseBranch::new(Some(col("a")), Expr::bool_lit(true)),
        CaseBranch::new(Some(col("c")), Expr::num_lit(0)),
    ]);
    let conds = Expr::Case(case).conditions(ExprType::Any);
    assert_eq!(conds.len(), 1);
    assert_eq!(
        conds[0],
        Condition::CaseReturnTypeMismatch((ExprType::Bool, ExprType::Num))
    );
}

#[test]
fn context_downcasts_an_ambiguous_case() {
    let case = case_of(vec![
        CaseBranch::new(Some(col("a")), col("b")),
        CaseBranch::new(None, col("d")),
    ]);
    let conds = Expr::Case(case).conditions(ExprType::Text);
    assert_eq!(conds.len(), 3);
    assert_eq!(
        conds[1],
        Condition::ColumnExistsAndType("b".to_string(), ExprType::Text)
    );
    assert_eq!(
        conds[2],
        Condition::ColumnExistsAndType("d".to_string(), ExprType::Text)
    );
}

#[test]
fn context_conflict_is_a_mismatch() {
    let case = case_of(vec![
        CaseBranch::new(Some(col("a")), Expr::num_lit(1)),
        CaseBranch::new(None, Expr::num_lit(2)),
    ]);
    let conds = Expr::Case(case).conditions(ExprType::Bool);
    assert_eq!(
        conds,
        vec![Condition::CaseReturnTypeMismatch((ExprType::Num, ExprType::Bool))]
    );
}
