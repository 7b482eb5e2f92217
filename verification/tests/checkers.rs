//! Derived and compiled checkers consuming message streams.

use crabql::checker::{CompiledChecker, Condition, DerivedChecker, Message, Signal};
use crabql::expr::{col, Case, CaseBranch, Expr, ExprType};
use crabql::protocol::{Server, ServerHandler};
use crabql::schema::CompiledSchema;

fn fact(name: &str, t: ExprType) -> Message {
    Message::Cond(Condition::ColumnExistsAndType(name.to_string(), t))
}

#[test]
fn derived_accepts_a_repeated_binding() {
    let mut checker = DerivedChecker::new();
    checker.accept(fact("id", ExprType::Num));
    checker.accept(fact("id", ExprType::Num));
    assert!(checker.state().is_ok());
}

#[test]
fn derived_rejects_a_conflicting_binding() {
    let mut checker = DerivedChecker::new();
    checker.accept(fact("id", ExprType::Num));
    checker.accept(fact("id", ExprType::Text));
    assert!(checker.state().is_err());
}

#[test]
fn derived_narrows_any_to_concrete() {
    let mut checker = DerivedChecker::new();
    checker.accept(fact("id", ExprType::Any));
    checker.accept(fact("id", ExprType::Num));
    checker.accept(fact("id", ExprType::Num));
    assert!(checker.state().is_ok());
    assert_eq!(
        checker.schema().find(&"id".to_string()),
        Some(ExprType::Num)
    );
}

#[test]
fn derived_records_a_case_mismatch() {
    let mut checker = DerivedChecker::new();
    checker.accept(Message::Cond(Condition::CaseReturnTypeMismatch((
        ExprType::Bool,
        ExprType::Num,
    ))));
    assert!(checker.state().is_err());
}

#[test]
fn unmatched_link_signals_are_defects() {
    let mut checker = DerivedChecker::new();
    checker.accept(Message::Sig(Signal::EndLink));
    assert!(checker.state().is_err());

    let mut other = DerivedChecker::new();
    other.accept(Message::Sig(Signal::StartLink));
    other.accept(Message::Sig(Signal::StartLink));
    assert!(other.state().is_err());
}

#[test]
fn type_mismatch_signal_is_a_defect() {
    let mut checker = DerivedChecker::new();
    checker.accept(Message::Sig(Signal::TypeMismatch((ExprType::Bool, ExprType::Num))));
    assert!(checker.state().is_err());
}

#[test]
fn linked_group_agreeing_on_one_type_passes() {
    let mut checker = DerivedChecker::new();
    checker.accept(fact("a", ExprType::Num));
    checker.accept(Message::Sig(Signal::StartLink));
    checker.accept(fact("a", ExprType::Any));
    checker.accept(fact("b", ExprType::Any));
    checker.accept(Message::Sig(Signal::EndLink));
    assert!(checker.state().is_ok());
    assert_eq!(checker.schema().find(&"b".to_string()), Some(ExprType::Num));
}

#[test]
fn linked_group_with_conflicting_resolutions_fails() {
    let mut checker = DerivedChecker::new();
    checker.accept(fact("a", ExprType::Bool));
    checker.accept(fact("b", ExprType::Num));
    checker.accept(Message::Sig(Signal::StartLink));
    checker.accept(fact("a", ExprType::Any));
    checker.accept(fact("b", ExprType::Any));
    checker.accept(Message::Sig(Signal::EndLink));
    assert!(checker.state().is_err());
}

#[test]
fn reset_clears_defects() {
    let mut checker = DerivedChecker::new();
    checker.accept(fact("id", ExprType::Num));
    checker.accept(fact("id", ExprType::Text));
    assert!(checker.state().is_err());
    checker.reset();
    assert!(checker.state().is_ok());
}

fn people_schema() -> CompiledSchema {
    let mut schema = CompiledSchema::new();
    schema.insert(&"id".to_string(), ExprType::Num);
    schema.insert(&"name".to_string(), ExprType::Text);
    schema
}

#[test]
fn compiled_accepts_matching_facts() {
    let mut checker = CompiledChecker::new(people_schema());
    checker.accept(fact("id", ExprType::Num));
    checker.accept(fact("name", ExprType::Text));
    checker.accept(fact("name", ExprType::Any));
    checker.accept(Message::Cond(Condition::ColumnExists("id".to_string())));
    assert!(checker.state().is_ok());
}

#[test]
fn compiled_rejects_a_missing_column() {
    let mut checker = CompiledChecker::new(people_schema());
    checker.accept(Message::Cond(Condition::ColumnExists("age".to_string())));
    assert!(checker.state().is_err());
}

#[test]
fn compiled_rejects_a_wrongly_typed_column() {
    let mut checker = CompiledChecker::new(people_schema());
    checker.accept(fact("id", ExprType::Text));
    assert!(checker.state().is_err());
}

#[test]
fn whole_tree_checks_against_a_schema() {
    let e = col("id").gt(Expr::num_lit(3)).and(col("name").len().gt(Expr::num_lit(10)));
    let mut checker = CompiledChecker::new(people_schema());
    e.send_all(ExprType::Bool, &mut checker);
    assert!(checker.state().is_ok());
}

#[test]
fn ambiguous_case_links_against_derived() {
    let case = Case::new(vec![
        CaseBranch::new(Some(col("p")), col("a")),
        CaseBranch::new(None, col("b")),
    ]);
    let mut checker = DerivedChecker::new();
    checker.accept(fact("a", ExprType::Num));
    Expr::Case(case).send_all(ExprType::Any, &mut checker);
    assert!(checker.state().is_ok());
    assert_eq!(checker.schema().find(&"b".to_string()), Some(ExprType::Num));
}
