//! The unification lattice on concrete values.

use crabql::expr::{col, Case, CaseBranch, Expr, ExprType};

const ALL: [ExprType; 5] = [
    ExprType::Any,
    ExprType::Bool,
    ExprType::Num,
    ExprType::Text,
    ExprType::Unique,
];

#[test]
fn any_is_the_identity() {
    for t in ALL {
        assert_eq!(ExprType::try_fold(ExprType::Any, t), Ok(t));
        assert_eq!(ExprType::try_fold(t, ExprType::Any), Ok(t));
    }
}

#[test]
fn unify_is_idempotent() {
    for t in ALL {
        assert_eq!(ExprType::try_fold(t, t), Ok(t));
    }
}

#[test]
fn distinct_concrete_types_clash() {
    assert_eq!(
        ExprType::try_fold(ExprType::Bool, ExprType::Num),
        Err((ExprType::Bool, ExprType::Num))
    );
    assert_eq!(
        ExprType::try_fold(ExprType::Text, ExprType::Bool),
        Err((ExprType::Text, ExprType::Bool))
    );
}

#[test]
fn unify_is_commutative_up_to_success() {
    for a in ALL {
        for b in ALL {
            let ab = ExprType::try_fold(a, b);
            let ba = ExprType::try_fold(b, a);
            assert_eq!(ab.is_ok(), ba.is_ok());
            if ab.is_ok() {
                assert_eq!(ab, ba);
            }
        }
    }
}

#[test]
fn unify_is_associative_up_to_success() {
    for a in ALL {
        for b in ALL {
            for c in ALL {
                let left = ExprType::try_fold(a, b).and_then(|x| ExprType::try_fold(x, c));
                let right = ExprType::try_fold(b, c).and_then(|y| ExprType::try_fold(a, y));
                assert_eq!(left.is_ok(), right.is_ok());
                if left.is_ok() {
                    assert_eq!(left, right);
                }
            }
        }
    }
}

#[test]
fn folding_is_order_independent() {
    let forwards = Case::new(vec![
        CaseBranch::new(Some(col("p")), col("x")),
        CaseBranch::new(Some(col("q")), Expr::num_lit(1)),
    ]);
    let backwards = Case::new(vec![
        CaseBranch::new(Some(col("q")), Expr::num_lit(1)),
        CaseBranch::new(Some(col("p")), col("x")),
    ]);
    assert_eq!(forwards.validate(), backwards.validate());
    assert_eq!(forwards.validate(), Ok(ExprType::Num));
}
