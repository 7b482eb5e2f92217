//! Constructors and combinators for building expression trees.
//!
//! Each node struct has a plain `new`; on top of those, [`Expr`] carries
//! named combinators (`and`, `or`, `not`, `eq`, `gt`, `between`, ...) whose
//! preconditions encode the capability model: an operand may only stand
//! where its evaluation type unifies with the operator's operand kind.

use vstd::prelude::*;
use super::{
    Add, Alias, And, Between, Div, Expr, ExprType, Geq, Gt, Len, Leq, Lt, Mul, Neq, Not, Or,
    Rem, Sub,
};

verus! {

impl super::Eq {
    /// An equality over operands coerced to `kind`.
    pub fn new(lhs: Expr, rhs: Expr, kind: ExprType) -> (r: super::Eq)
        ensures
            r == (super::Eq { lhs, rhs, kind }),
    {
        super::Eq { lhs, rhs, kind }
    }
}

impl Neq {
    /// An inequality over operands coerced to `kind`.
    pub fn new(lhs: Expr, rhs: Expr, kind: ExprType) -> (r: Neq)
        ensures
            r == (Neq { lhs, rhs, kind }),
    {
        Neq { lhs, rhs, kind }
    }
}

impl Gt {
    /// A strict greater-than comparison of numeric operands.
    pub fn new(lhs: Expr, rhs: Expr) -> (r: Gt)
        ensures
            r == (Gt { lhs, rhs }),
    {
        Gt { lhs, rhs }
    }
}

impl Geq {
    /// A greater-or-equal comparison of numeric operands.
    pub fn new(lhs: Expr, rhs: Expr) -> (r: Geq)
        ensures
            r == (Geq { lhs, rhs }),
    {
        Geq { lhs, rhs }
    }
}

impl Lt {
    /// A strict less-than comparison of numeric operands.
    pub fn new(lhs: Expr, rhs: Expr) -> (r: Lt)
        ensures
            r == (Lt { lhs, rhs }),
    {
        Lt { lhs, rhs }
    }
}

impl Leq {
    /// A less-or-equal comparison of numeric operands.
    pub fn new(lhs: Expr, rhs: Expr) -> (r: Leq)
        ensures
            r == (Leq { lhs, rhs }),
    {
        Leq { lhs, rhs }
    }
}

impl Between {
    /// A range test over numeric operands.
    pub fn new(inner: Expr, lower: Expr, upper: Expr) -> (r: Between)
        ensures
            r == (Between { inner, lower, upper }),
    {
        Between { inner, lower, upper }
    }
}

impl And {
    /// A conjunction of boolean operands.
    pub fn new(lhs: Expr, rhs: Expr) -> (r: And)
        ensures
            r == (And { lhs, rhs }),
    {
        And { lhs, rhs }
    }
}

impl Or {
    /// A disjunction of boolean operands.
    pub fn new(lhs: Expr, rhs: Expr) -> (r: Or)
        ensures
            r == (Or { lhs, rhs }),
    {
        Or { lhs, rhs }
    }
}

impl Not {
    /// A negation of a boolean operand.
    pub fn new(inner: Expr) -> (r: Not)
        ensures
            r == (Not { inner }),
    {
        Not { inner }
    }
}

impl Add {
    /// A sum of numeric operands.
    pub fn new(lhs: Expr, rhs: Expr) -> (r: Add)
        ensures
            r == (Add { lhs, rhs }),
    {
        Add { lhs, rhs }
    }
}

impl Sub {
    /// A difference of numeric operands.
    pub fn new(lhs: Expr, rhs: Expr) -> (r: Sub)
        ensures
            r == (Sub { lhs, rhs }),
    {
        Sub { lhs, rhs }
    }
}

impl Mul {
    /// A product of numeric operands.
    pub fn new(lhs: Expr, rhs: Expr) -> (r: Mul)
        ensures
            r == (Mul { lhs, rhs }),
    {
        Mul { lhs, rhs }
    }
}

impl Div {
    /// A quotient of numeric operands.
    pub fn new(lhs: Expr, rhs: Expr) -> (r: Div)
        ensures
            r == (Div { lhs, rhs }),
    {
        Div { lhs, rhs }
    }
}

impl Rem {
    /// A remainder of numeric operands.
    pub fn new(lhs: Expr, rhs: Expr) -> (r: Rem)
        ensures
            r == (Rem { lhs, rhs }),
    {
        Rem { lhs, rhs }
    }
}

impl Len {
    /// The length of a textual operand.
    pub fn new(inner: Expr) -> (r: Len)
        ensures
            r == (Len { inner }),
    {
        Len { inner }
    }
}

impl Alias {
    /// A rename wrapper around an expression.
    pub fn new(inner: Expr, alias: &str) -> (r: Alias)
        ensures
            r.inner == inner,
            r.alias@ == alias@,
    {
        Alias { inner, alias: alias.to_owned() }
    }
}

impl Expr {
    /// A boolean literal expression.
    pub fn bool_lit(value: bool) -> (r: Expr)
        ensures
            r == Expr::BoolLit(value),
    {
        Expr::BoolLit(value)
    }

    /// A numeric literal expression.
    pub fn num_lit(value: i64) -> (r: Expr)
        ensures
            r == Expr::NumLit(value),
    {
        Expr::NumLit(value)
    }

    /// `self AND rhs`; both operands must be boolean-capable.
    pub fn and(self, rhs: Expr) -> (r: Expr)
        requires
            self.admits(ExprType::Bool),
            rhs.admits(ExprType::Bool),
        ensures
            r matches Expr::And(b) && b.lhs == self && b.rhs == rhs,
    {
        Expr::And(Box::new(And::new(self, rhs)))
    }

    /// `self OR rhs`; both operands must be boolean-capable.
    pub fn or(self, rhs: Expr) -> (r: Expr)
        requires
            self.admits(ExprType::Bool),
            rhs.admits(ExprType::Bool),
        ensures
            r matches Expr::Or(b) && b.lhs == self && b.rhs == rhs,
    {
        Expr::Or(Box::new(Or::new(self, rhs)))
    }

    /// `NOT self`; the operand must be boolean-capable.
    pub fn not(self) -> (r: Expr)
        requires
            self.admits(ExprType::Bool),
        ensures
            r matches Expr::Not(b) && b.inner == self,
    {
        Expr::Not(Box::new(Not::new(self)))
    }

    /// `self = rhs`, tagged with the unified operand kind of the two
    /// sides; two ambiguous operands give a generic (`Any`) comparison.
    pub fn eq(self, rhs: Expr) -> (r: Expr)
        requires
            ExprType::spec_try_fold(self.spec_eval_type(), rhs.spec_eval_type()) is Ok,
        ensures
            r matches Expr::Eq(b) && b.lhs == self && b.rhs == rhs
                && Ok::<ExprType, (ExprType, ExprType)>(b.kind) == ExprType::spec_try_fold(self.spec_eval_type(), rhs.spec_eval_type()),
    {
        let kind = match ExprType::try_fold(self.eval_type(), rhs.eval_type()) {
            Ok(k) => k,
            Err(_) => ExprType::Any,
        };
        Expr::Eq(Box::new(super::Eq::new(self, rhs, kind)))
    }

    /// `self != rhs`, tagged like [`Expr::eq`].
    pub fn neq(self, rhs: Expr) -> (r: Expr)
        requires
            ExprType::spec_try_fold(self.spec_eval_type(), rhs.spec_eval_type()) is Ok,
        ensures
            r matches Expr::Neq(b) && b.lhs == self && b.rhs == rhs
                && Ok::<ExprType, (ExprType, ExprType)>(b.kind) == ExprType::spec_try_fold(self.spec_eval_type(), rhs.spec_eval_type()),
    {
        let kind = match ExprType::try_fold(self.eval_type(), rhs.eval_type()) {
            Ok(k) => k,
            Err(_) => ExprType::Any,
        };
        Expr::Neq(Box::new(Neq::new(self, rhs, kind)))
    }

    /// `self > rhs`; both operands must be numeric-capable.
    pub fn gt(self, rhs: Expr) -> (r: Expr)
        requires
            self.admits(ExprType::Num),
            rhs.admits(ExprType::Num),
        ensures
            r matches Expr::Gt(b) && b.lhs == self && b.rhs == rhs,
    {
        Expr::Gt(Box::new(Gt::new(self, rhs)))
    }

    /// `self >= rhs`; both operands must be numeric-capable.
    pub fn ge(self, rhs: Expr) -> (r: Expr)
        requires
            self.admits(ExprType::Num),
            rhs.admits(ExprType::Num),
        ensures
            r matches Expr::Geq(b) && b.lhs == self && b.rhs == rhs,
    {
        Expr::Geq(Box::new(Geq::new(self, rhs)))
    }

    /// `self < rhs`; both operands must be numeric-capable.
    pub fn lt(self, rhs: Expr) -> (r: Expr)
        requires
            self.admits(ExprType::Num),
            rhs.admits(ExprType::Num),
        ensures
            r matches Expr::Lt(b) && b.lhs == self && b.rhs == rhs,
    {
        Expr::Lt(Box::new(Lt::new(self, rhs)))
    }

    /// `self <= rhs`; both operands must be numeric-capable.
    pub fn leq(self, rhs: Expr) -> (r: Expr)
        requires
            self.admits(ExprType::Num),
            rhs.admits(ExprType::Num),
        ensures
            r matches Expr::Leq(b) && b.lhs == self && b.rhs == rhs,
    {
        Expr::Leq(Box::new(Leq::new(self, rhs)))
    }

    /// `self BETWEEN lower AND upper`; all three operands must be
    /// numeric-capable.
    pub fn between(self, lower: Expr, upper: Expr) -> (r: Expr)
        requires
            self.admits(ExprType::Num),
            lower.admits(ExprType::Num),
            upper.admits(ExprType::Num),
        ensures
            r matches Expr::Between(b) && b.inner == self && b.lower == lower && b.upper == upper,
    {
        Expr::Between(Box::new(Between::new(self, lower, upper)))
    }

    /// `self + rhs`; both operands must be numeric-capable.
    pub fn add(self, rhs: Expr) -> (r: Expr)
        requires
            self.admits(ExprType::Num),
            rhs.admits(ExprType::Num),
        ensures
            r matches Expr::Add(b) && b.lhs == self && b.rhs == rhs,
    {
        Expr::Add(Box::new(Add::new(self, rhs)))
    }

    /// `self - rhs`; both operands must be numeric-capable.
    pub fn sub(self, rhs: Expr) -> (r: Expr)
        requires
            self.admits(ExprType::Num),
            rhs.admits(ExprType::Num),
        ensures
            r matches Expr::Sub(b) && b.lhs == self && b.rhs == rhs,
    {
        Expr::Sub(Box::new(Sub::new(self, rhs)))
    }

    /// `self * rhs`; both operands must be numeric-capable.
    pub fn mul(self, rhs: Expr) -> (r: Expr)
        requires
            self.admits(ExprType::Num),
            rhs.admits(ExprType::Num),
        ensures
            r matches Expr::Mul(b) && b.lhs == self && b.rhs == rhs,
    {
        Expr::Mul(Box::new(Mul::new(self, rhs)))
    }

    /// `self / rhs`; both operands must be numeric-capable.
    pub fn div(self, rhs: Expr) -> (r: Expr)
        requires
            self.admits(ExprType::Num),
            rhs.admits(ExprType::Num),
        ensures
            r matches Expr::Div(b) && b.lhs == self && b.rhs == rhs,
    {
        Expr::Div(Box::new(Div::new(self, rhs)))
    }

    /// `self % rhs`; both operands must be numeric-capable.
    pub fn rem(self, rhs: Expr) -> (r: Expr)
        requires
            self.admits(ExprType::Num),
            rhs.admits(ExprType::Num),
        ensures
            r matches Expr::Rem(b) && b.lhs == self && b.rhs == rhs,
    {
        Expr::Rem(Box::new(Rem::new(self, rhs)))
    }

    /// `LENGTH(self)`; the operand must be textual-capable.
    pub fn len(self) -> (r: Expr)
        requires
            self.admits(ExprType::Text),
        ensures
            r matches Expr::Len(b) && b.inner == self,
    {
        Expr::Len(Box::new(Len::new(self)))
    }

    /// `self AS alias`.
    pub fn alias(self, alias: &str) -> (r: Expr)
        ensures
            r matches Expr::Alias(b) && b.inner == self && b.alias@ == alias@,
    {
        Expr::Alias(Box::new(Alias::new(self, alias)))
    }
}

} // verus!
