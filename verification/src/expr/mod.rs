//! Expression trees and their evaluation-type lattice.
//!
//! An expression is a finite, exclusively owned tree over the node catalog
//! in [`Expr`].  Every node reports an evaluation type ([`Expr::eval_type`]);
//! nodes whose type is not statically known (column references, `CASE`
//! expressions over ambiguous branches) report [`ExprType::Any`] and are
//! resolved against a schema through the message protocol in [`crate::checker`].

pub mod builder;
pub mod display;
pub mod laws;
pub mod msgs;
pub mod multi;

use vstd::prelude::*;
use crate::protocol::Checkable;

verus! {

/// The possible evaluation types of an expression.
///
/// `Any` is the identity (top) of the lattice: an `Any`-typed expression is
/// unconstrained and may stand wherever a concrete type is required.
#[derive(Debug, PartialEq, Eq, Structural, Copy, Clone)]
pub enum ExprType {
    /// Unconstrained: compatible with every other type in this enum.
    Any,
    /// Expressions that return boolean values.
    Bool,
    /// Expressions that return numeric values.
    Num,
    /// Expressions that return textual values.
    Text,
    /// Expressions whose result is not a database primitive.
    Unique,
}

/// Supported dialects, used when rendering an expression to a string.
#[derive(Debug, Copy, Clone)]
pub enum Dialect {
    Postgres,
}

impl ExprType {
    /// What [`ExprType::try_fold`] returns: `Any` unifies with everything,
    /// equal types unify with themselves, and two distinct concrete types
    /// fail with the offending pair.
    pub open spec fn spec_try_fold(t1: ExprType, t2: ExprType) -> Result<ExprType, (ExprType, ExprType)> {
        if t1 == ExprType::Any {
            Ok(t2)
        } else if t2 == ExprType::Any {
            Ok(t1)
        } else if t1 == t2 {
            Ok(t1)
        } else {
            Err((t1, t2))
        }
    }

    /// Unify two evaluation types; used to resolve the type of a `CASE`
    /// expression by folding the types of all of its branches.
    pub fn try_fold(expr_t1: ExprType, expr_t2: ExprType) -> (r: Result<ExprType, (ExprType, ExprType)>)
        ensures
            r == ExprType::spec_try_fold(expr_t1, expr_t2),
    {
        if matches!(expr_t1, ExprType::Any) {
            Ok(expr_t2)
        } else if matches!(expr_t2, ExprType::Any) {
            Ok(expr_t1)
        } else if expr_t1 == expr_t2 {
            Ok(expr_t1)
        } else {
            Err((expr_t1, expr_t2))
        }
    }
}

/// The base capability every checkable node offers beyond its messages:
/// an evaluation type and a textual rendering.
pub trait Expression: Checkable {
    /// The evaluation type the node reports.
    spec fn spec_eval(&self) -> ExprType;

    /// The text the node renders to.
    spec fn spec_text(&self, dialect: Dialect) -> Seq<char>;

    /// Report the node's evaluation type.
    fn eval_type(&self) -> (r: ExprType)
        ensures
            r == self.spec_eval(),
    ;

    /// Render the node in the given dialect.
    fn display(&self, dialect: Dialect) -> (r: String)
        ensures
            r@ == self.spec_text(dialect),
    ;
}

/// A column reference; its evaluation type is `Any` until a schema pins it.
pub struct Col {
    pub name: String,
}

/// One `WHEN pattern THEN result` (or bare `ELSE result`) arm of a `CASE`.
pub struct CaseBranch {
    pub pattern: Option<Expr>,
    pub result: Expr,
}

/// A `CASE` expression: an ordered list of branches whose result types must
/// unify with one another.
pub struct Case {
    pub branches: Vec<CaseBranch>,
}

/// An equality comparison.  `kind` records the operand kind both sides are
/// coerced to; `Any` marks a generic comparison of ambiguous operands.
pub struct Eq {
    pub lhs: Expr,
    pub rhs: Expr,
    pub kind: ExprType,
}

/// An inequality comparison, with the same operand-kind tag as [`Eq`].
pub struct Neq {
    pub lhs: Expr,
    pub rhs: Expr,
    pub kind: ExprType,
}

/// A strict greater-than comparison of numeric operands.
pub struct Gt {
    pub lhs: Expr,
    pub rhs: Expr,
}

/// A greater-or-equal comparison of numeric operands.
pub struct Geq {
    pub lhs: Expr,
    pub rhs: Expr,
}

/// A strict less-than comparison of numeric operands.
pub struct Lt {
    pub lhs: Expr,
    pub rhs: Expr,
}

/// A less-or-equal comparison of numeric operands.
pub struct Leq {
    pub lhs: Expr,
    pub rhs: Expr,
}

/// A range test; inner value and both bounds are coerced to `Num`.
pub struct Between {
    pub inner: Expr,
    pub lower: Expr,
    pub upper: Expr,
}

/// Boolean conjunction.
pub struct And {
    pub lhs: Expr,
    pub rhs: Expr,
}

/// Boolean disjunction.
pub struct Or {
    pub lhs: Expr,
    pub rhs: Expr,
}

/// Boolean negation.
pub struct Not {
    pub inner: Expr,
}

/// Numeric addition.
pub struct Add {
    pub lhs: Expr,
    pub rhs: Expr,
}

/// Numeric subtraction.
pub struct Sub {
    pub lhs: Expr,
    pub rhs: Expr,
}

/// Numeric multiplication.
pub struct Mul {
    pub lhs: Expr,
    pub rhs: Expr,
}

/// Numeric division.
pub struct Div {
    pub lhs: Expr,
    pub rhs: Expr,
}

/// Numeric remainder.
pub struct Rem {
    pub lhs: Expr,
    pub rhs: Expr,
}

/// The length of a textual expression, as a number.
pub struct Len {
    pub inner: Expr,
}

/// A pure rename wrapper: displays as `inner AS alias` and otherwise
/// behaves exactly as its inner expression.
pub struct Alias {
    pub inner: Expr,
    pub alias: String,
}

/// One node of an expression tree.
///
/// The catalog is a tagged sum over every node kind; composite nodes own
/// their children exclusively, so a tree is finite and acyclic by
/// construction.
pub enum Expr {
    BoolLit(bool),
    NumLit(i64),
    Col(Col),
    Case(Case),
    Eq(Box<Eq>),
    Neq(Box<Neq>),
    Gt(Box<Gt>),
    Geq(Box<Geq>),
    Lt(Box<Lt>),
    Leq(Box<Leq>),
    Between(Box<Between>),
    And(Box<And>),
    Or(Box<Or>),
    Not(Box<Not>),
    Add(Box<Add>),
    Sub(Box<Sub>),
    Mul(Box<Mul>),
    Div(Box<Div>),
    Rem(Box<Rem>),
    Len(Box<Len>),
    Alias(Box<Alias>),
}

impl Expr {
    /// The evaluation type a node reports independent of context: literals,
    /// comparisons, logic and arithmetic have a fixed type; a column stays
    /// `Any`; a `CASE` reports the fold of its branch types, or `Any` when
    /// the fold fails; an alias inherits its inner type.
    pub open spec fn spec_eval_type(self) -> ExprType
        decreases self, 2int, 0int,
    {
        match self {
            Expr::BoolLit(_) => ExprType::Bool,
            Expr::NumLit(_) => ExprType::Num,
            Expr::Col(_) => ExprType::Any,
            Expr::Case(c) => match c.spec_validate() {
                Ok(t) => t,
                Err(_) => ExprType::Any,
            },
            Expr::Eq(_) => ExprType::Bool,
            Expr::Neq(_) => ExprType::Bool,
            Expr::Gt(_) => ExprType::Bool,
            Expr::Geq(_) => ExprType::Bool,
            Expr::Lt(_) => ExprType::Bool,
            Expr::Leq(_) => ExprType::Bool,
            Expr::Between(_) => ExprType::Bool,
            Expr::And(_) => ExprType::Bool,
            Expr::Or(_) => ExprType::Bool,
            Expr::Not(_) => ExprType::Bool,
            Expr::Add(_) => ExprType::Num,
            Expr::Sub(_) => ExprType::Num,
            Expr::Mul(_) => ExprType::Num,
            Expr::Div(_) => ExprType::Num,
            Expr::Rem(_) => ExprType::Num,
            Expr::Len(_) => ExprType::Num,
            Expr::Alias(a) => a.inner.spec_eval_type(),
        }
    }

    /// Whether this node may stand in a context that requires `t`: its own
    /// evaluation type must unify with `t`.  This is the capability model:
    /// a node admitting `Bool` is boolean-capable, one admitting every type
    /// (a column, an ambiguous `CASE`) can stand anywhere.
    pub open spec fn admits(self, t: ExprType) -> bool {
        ExprType::spec_try_fold(self.spec_eval_type(), t) is Ok
    }

    /// Compute the evaluation type of this node.
    pub fn eval_type(&self) -> (r: ExprType)
        ensures
            r == self.spec_eval_type(),
        decreases self, 2int, 0int,
    {
        match self {
            Expr::BoolLit(_) => ExprType::Bool,
            Expr::NumLit(_) => ExprType::Num,
            Expr::Col(_) => ExprType::Any,
            Expr::Case(c) => match c.validate() {
                Ok(t) => t,
                Err(_) => ExprType::Any,
            },
            Expr::Eq(_) => ExprType::Bool,
            Expr::Neq(_) => ExprType::Bool,
            Expr::Gt(_) => ExprType::Bool,
            Expr::Geq(_) => ExprType::Bool,
            Expr::Lt(_) => ExprType::Bool,
            Expr::Leq(_) => ExprType::Bool,
            Expr::Between(_) => ExprType::Bool,
            Expr::And(_) => ExprType::Bool,
            Expr::Or(_) => ExprType::Bool,
            Expr::Not(_) => ExprType::Bool,
            Expr::Add(_) => ExprType::Num,
            Expr::Sub(_) => ExprType::Num,
            Expr::Mul(_) => ExprType::Num,
            Expr::Div(_) => ExprType::Num,
            Expr::Rem(_) => ExprType::Num,
            Expr::Len(_) => ExprType::Num,
            Expr::Alias(a) => a.inner.eval_type(),
        }
    }
}

impl CaseBranch {
    /// The evaluation type of a branch is that of its result expression.
    pub open spec fn spec_eval_type(self) -> ExprType {
        self.result.spec_eval_type()
    }
}

impl Case {
    /// Fold of the evaluation types of the first `n` branches, seeded with
    /// `Any`; an index past the end folds the whole list.
    pub open spec fn spec_fold_prefix(c: Case, n: int) -> Result<ExprType, (ExprType, ExprType)>
        decreases c, 0int, n,
        via Case::fold_prefix_decreases
    {
        if n <= 0 {
            Ok(ExprType::Any)
        } else if n > c.branches@.len() {
            Case::spec_fold_prefix(c, c.branches@.len() as int)
        } else {
            match Case::spec_fold_prefix(c, n - 1) {
                Ok(acc) => ExprType::spec_try_fold(acc, c.branches@[n - 1].result.spec_eval_type()),
                Err(e) => Err(e),
            }
        }
    }

    #[via_fn]
    proof fn fold_prefix_decreases(c: Case, n: int) {
        if 0 < n <= c.branches@.len() {
            assert(decreases_to!(c => c.branches));
            assert(decreases_to!(c.branches => c.branches@));
            assert(decreases_to!(c.branches@ => c.branches@[n - 1]));
            assert(decreases_to!(c.branches@[n - 1] => c.branches@[n - 1].result));
        }
    }

    /// What [`Case::validate`] returns: the fold of all branch types.
    pub open spec fn spec_validate(self) -> Result<ExprType, (ExprType, ExprType)>
        decreases self, 1int, 0int,
    {
        Case::spec_fold_prefix(self, self.branches@.len() as int)
    }

    /// Resolve the evaluation type of this `CASE` by folding the types of
    /// all of its branches through the lattice, seeded with `Any`.
    pub fn validate(&self) -> (r: Result<ExprType, (ExprType, ExprType)>)
        ensures
            r == self.spec_validate(),
        decreases self, 1int, 0int,
    {
        let mut acc = ExprType::Any;
        let n = self.branches.len();
        assert(Case::spec_fold_prefix(*self, 0int) == Ok::<ExprType, (ExprType, ExprType)>(ExprType::Any));
        for i in 0..n
            invariant
                n == self.branches@.len(),
                Case::spec_fold_prefix(*self, i as int) == Ok::<ExprType, (ExprType, ExprType)>(acc),
            decreases n - i,
        {
            proof {
                assert(decreases_to!(self => self.branches));
                assert(decreases_to!(self.branches => self.branches@));
                assert(decreases_to!(self.branches@ => self.branches@[i as int]));
                assert(decreases_to!(self.branches@[i as int] => self.branches@[i as int].result));
            }
            let bt = self.branches[i].result.eval_type();
            match ExprType::try_fold(acc, bt) {
                Ok(t) => {
                    acc = t;
                }
                Err(e) => {
                    assert(Case::spec_fold_prefix(*self, i as int + 1) == Err::<ExprType, (ExprType, ExprType)>(e));
                    proof {
                        Case::lemma_fold_prefix_err(*self, i + 1, self.branches@.len() as int);
                    }
                    return Err(e);
                }
            }
        }
        Ok(acc)
    }

    /// Once the fold fails at some prefix, it fails with the same pair for
    /// every longer prefix.
    proof fn lemma_fold_prefix_err(c: Case, n: int, m: int)
        requires
            0 <= n <= m <= c.branches@.len(),
            Case::spec_fold_prefix(c, n) is Err,
        ensures
            Case::spec_fold_prefix(c, m) == Case::spec_fold_prefix(c, n),
        decreases m - n,
    {
        if m > n {
            Case::lemma_fold_prefix_err(c, n, m - 1);
        }
    }
}

impl Col {
    /// Wrap a column name as an expression.
    pub fn new(name: &str) -> (r: Col)
        ensures
            r.name@ == name@,
    {
        Col { name: name.to_owned() }
    }
}

/// Build a column-reference expression from a name.
pub fn col(name: &str) -> (r: Expr)
    ensures
        r matches Expr::Col(c) && c.name@ == name@,
{
    Expr::Col(Col::new(name))
}

impl CaseBranch {
    /// Build a branch; `None` as the pattern stands for a bare `ELSE` arm.
    pub fn new(pattern: Option<Expr>, result: Expr) -> (r: CaseBranch)
        ensures
            r == (CaseBranch { pattern, result }),
    {
        CaseBranch { pattern, result }
    }
}

impl Case {
    /// Build a `CASE` from its ordered branch list.
    pub fn new(branches: Vec<CaseBranch>) -> (r: Case)
        ensures
            r == (Case { branches }),
    {
        Case { branches }
    }
}

} // verus!
