//! Bracketing of ambiguous runs in the traversal protocol.

use crabql::checker::{Condition, Message, Signal};
use crabql::expr::{col, Case, CaseBranch, Expr, ExprType};
use crabql::protocol::{MessageLog, Server, ServerHandler};

fn is_link_signal(m: &Message) -> bool {
    matches!(m, Message::Sig(Signal::StartLink) | Message::Sig(Signal::EndLink))
}

#[test]
fn concrete_tree_emits_no_links() {
    let e = col("x").gt(Expr::num_lit(3)).and(col("done"));
    let mut log = MessageLog::new();
    e.send_all(ExprType::Bool, &mut log);
    for m in log.entries() {
        assert!(!is_link_signal(m));
    }
    assert_eq!(log.entries().len(), 2);
}

#[test]
fn bare_column_brackets_its_condition() {
    let e = col("who");
    let mut log = MessageLog::new();
    e.send_all(ExprType::Any, &mut log);
    assert_eq!(
        *log.entries(),
        vec![
            Message::Sig(Signal::StartLink),
            Message::Cond(Condition::ColumnExistsAndType("who".to_string(), ExprType::Any)),
            Message::Sig(Signal::EndLink),
        ]
    );
}

#[test]
fn coerced_column_does_not_bracket() {
    let e = col("who");
    let mut log = MessageLog::new();
    e.send_all(ExprType::Num, &mut log);
    assert_eq!(
        *log.entries(),
        vec![Message::Cond(Condition::ColumnExistsAndType("who".to_string(), ExprType::Num))]
    );
}

#[test]
fn ambiguous_case_brackets_once() {
    let case = Case::new(vec![
        CaseBranch::new(Some(col("a")), col("b")),
        CaseBranch::new(Some(col("c")), col("d")),
    ]);
    let mut log = MessageLog::new();
    Expr::Case(case).send_all(ExprType::Any, &mut log);

    let entries = log.entries();
    assert_eq!(entries.first(), Some(&Message::Sig(Signal::StartLink)));
    assert_eq!(entries.last(), Some(&Message::Sig(Signal::EndLink)));
    let pairs = entries.iter().filter(|m| is_link_signal(m)).count();
    assert_eq!(pairs, 2);
    assert_eq!(entries.len(), 6);
}

#[test]
fn generic_comparison_brackets_its_operands() {
    let e = Expr::Eq(Box::new(crabql::expr::Eq::new(col("a"), col("b"), ExprType::Any)));
    let mut log = MessageLog::new();
    e.send_all(ExprType::Bool, &mut log);
    assert_eq!(
        *log.entries(),
        vec![
            Message::Sig(Signal::StartLink),
            Message::Cond(Condition::ColumnExistsAndType("a".to_string(), ExprType::Any)),
            Message::Cond(Condition::ColumnExistsAndType("b".to_string(), ExprType::Any)),
            Message::Sig(Signal::EndLink),
        ]
    );
}

#[test]
fn post_order_sends_children_before_self() {
    let e = col("x").gt(Expr::num_lit(3));
    let mut log = MessageLog::new();
    e.send_all(ExprType::Bool, &mut log);
    assert_eq!(
        *log.entries(),
        vec![Message::Cond(Condition::ColumnExistsAndType("x".to_string(), ExprType::Num))]
    );
    log.reset();
    assert!(log.entries().is_empty());
    assert!(log.state().is_ok());
}
