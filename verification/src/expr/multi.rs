//! List-joins: an ordered, non-empty collection of expressions that
//! renders as its members' texts joined by `", "`.
//!
//! A list-join has no evaluation type of its own; its members are each
//! coerced to `Any`.  It is never empty: every constructor starts from one
//! element, and elements are only ever appended.

use vstd::prelude::*;
use crate::checker::message::Condition;
use super::{Dialect, Expr, ExprType};

verus! {

/// An ordered, non-empty collection of expressions.
pub struct MultiExpr {
    exprs: Vec<Expr>,
}

impl MultiExpr {
    /// A join is well-formed when it holds at least one expression; every
    /// constructor establishes this and every method preserves it.
    pub open spec fn wf(self) -> bool {
        self@.len() >= 1
    }

    /// The members of the join, in order.
    pub closed spec fn view(self) -> Seq<Expr> {
        self.exprs@
    }

    /// Start a join from its first element.
    pub fn new(expr: Expr) -> (r: MultiExpr)
        ensures
            r@ == seq![expr],
            r.wf(),
    {
        let mut exprs = Vec::new();
        exprs.push(expr);
        let r = MultiExpr { exprs };
        proof {
            assert(r@ =~= seq![expr]);
        }
        r
    }

    /// Append one element to the join.
    pub fn push(&mut self, expr: Expr)
        ensures
            final(self)@ == old(self)@.push(expr),
            final(self).wf(),
    {
        self.exprs.push(expr);
    }

    /// How many expressions the join holds; always at least one.
    pub fn len(&self) -> (r: usize)
        requires
            self.wf(),
        ensures
            r == self@.len(),
            r >= 1,
    {
        self.exprs.len()
    }

    /// The texts of the first `n` members, joined by `", "`.
    pub open spec fn spec_display_prefix(m: MultiExpr, n: int, dialect: Dialect) -> Seq<char>
        decreases n,
    {
        if n <= 0 {
            Seq::empty()
        } else if n > m@.len() {
            MultiExpr::spec_display_prefix(m, m@.len() as int, dialect)
        } else if n == 1 {
            m@[0].spec_display(dialect)
        } else {
            MultiExpr::spec_display_prefix(m, n - 1, dialect) + ", "@ + m@[n - 1].spec_display(dialect)
        }
    }

    /// What [`MultiExpr::display`] returns: the members' texts joined by
    /// `", "`.
    pub open spec fn spec_display(self, dialect: Dialect) -> Seq<char> {
        MultiExpr::spec_display_prefix(self, self@.len() as int, dialect)
    }

    /// Render the join: the display strings of all members, in order,
    /// joined by `", "`.
    #[verifier::loop_isolation(false)]
    pub fn display(&self, dialect: Dialect) -> (r: String)
        requires
            self.wf(),
        ensures
            r@ == self.spec_display(dialect),
    {
        let mut s = self.exprs[0].display(dialect);
        let n = self.exprs.len();
        for i in 1..n
            invariant
                n == self.exprs@.len(),
                s@ == MultiExpr::spec_display_prefix(*self, i as int, dialect),
            decreases n - i,
        {
            s.append(", ");
            s.append(self.exprs[i].display(dialect).as_str());
            proof {
                assert(s@ =~= MultiExpr::spec_display_prefix(*self, i as int + 1, dialect));
            }
        }
        s
    }

    /// The conditions of the first `n` members, each under an `Any`
    /// context.
    pub open spec fn spec_conditions_prefix(m: MultiExpr, n: int) -> Seq<Condition>
        decreases n,
    {
        if n <= 0 {
            Seq::empty()
        } else if n > m@.len() {
            MultiExpr::spec_conditions_prefix(m, m@.len() as int)
        } else {
            MultiExpr::spec_conditions_prefix(m, n - 1) + m@[n - 1].spec_conditions(ExprType::Any)
        }
    }

    /// What [`MultiExpr::conditions`] returns.
    pub open spec fn spec_conditions(self) -> Seq<Condition> {
        MultiExpr::spec_conditions_prefix(self, self@.len() as int)
    }

    /// The conditions of every member, each coerced to `Any`: a list-join
    /// constrains none of its members.
    #[verifier::loop_isolation(false)]
    pub fn conditions(&self, coerce: ExprType) -> (r: Vec<Condition>)
        requires
            coerce == ExprType::Any,
        ensures
            r@ == self.spec_conditions(),
    {
        let mut out: Vec<Condition> = Vec::new();
        let n = self.exprs.len();
        for i in 0..n
            invariant
                n == self.exprs@.len(),
                out@ == MultiExpr::spec_conditions_prefix(*self, i as int),
            decreases n - i,
        {
            let mut next = self.exprs[i].conditions(ExprType::Any);
            out.append(&mut next);
            proof {
                assert(out@ =~= MultiExpr::spec_conditions_prefix(*self, i as int + 1));
            }
        }
        out
    }
}

} // verus!
