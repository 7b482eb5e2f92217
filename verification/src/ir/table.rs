//! Tables and columns as used while building a query.
//!
//! A table hands out owned column handles by name; there is no hidden
//! lifetime bookkeeping, a column simply carries its name.

use vstd::prelude::*;
use super::funcs::Mappings;
use super::{BaseExpr, BoolExpr, BoolOp, Comparison, Expr, ExprResult, Value};

verus! {

/// A table in a query under construction.
pub struct Table {
    name: String,
}

impl Table {
    /// The table's name.
    pub closed spec fn spec_name(&self) -> Seq<char> {
        self.name@
    }

    /// A handle on the named table.
    pub fn new(name: &str) -> (r: Table)
        ensures
            r.spec_name() == name@,
    {
        Table { name: name.to_owned() }
    }

    /// A handle on the named column of this table.
    pub fn col(&self, name: &str) -> (r: Column)
        ensures
            r.spec_name() == name@,
    {
        Column { name: name.to_owned() }
    }
}

/// A column of a table in a query under construction.
pub struct Column {
    pub name: String,
}

impl Column {
    /// The column's name.
    pub open spec fn spec_name(&self) -> Seq<char> {
        self.name@
    }

    /// A handle on the named column.
    pub fn new(name: &str) -> (r: Column)
        ensures
            r.spec_name() == name@,
    {
        Column { name: name.to_owned() }
    }
}

impl Mappings for Column {
    /// A column stands for a bare column-reference expression.
    open spec fn as_res(self) -> ExprResult {
        ExprResult { expr: Expr::Base(BaseExpr::Col(self.name)), error: None }
    }

    fn into_res(self) -> (r: ExprResult) {
        ExprResult { expr: Expr::Base(BaseExpr::Col(self.name)), error: None }
    }
}

impl Column {
    /// The comparison `self op value`, as an error-free boolean
    /// expression over a copy of this column.
    fn compare(&self, op: BoolOp, val: Value) -> (r: ExprResult)
        ensures
            r.error is None,
            r.expr matches Expr::Bool(b) && b.op == op
                && (*b.lhs matches Expr::Base(BaseExpr::Col(n)) && n@ == self.spec_name())
                && *b.rhs == Expr::Base(BaseExpr::Lit(val)),
    {
        ExprResult {
            expr: Expr::Bool(BoolExpr {
                lhs: Box::new(Expr::Base(BaseExpr::Col(self.name.clone()))),
                op,
                rhs: Box::new(Expr::Base(BaseExpr::Lit(val))),
            }),
            error: None,
        }
    }
}

impl Comparison for Column {
    type Expr = ExprResult;

    /// `self = val`.
    fn eq(&self, val: Value) -> (r: ExprResult) {
        self.compare(BoolOp::Eq, val)
    }

    /// `self != val`.
    fn ne(&self, val: Value) -> (r: ExprResult) {
        self.compare(BoolOp::Neq, val)
    }

    /// `self > val`.
    fn gt(&self, val: Value) -> (r: ExprResult) {
        self.compare(BoolOp::Gt, val)
    }

    /// `self >= val`.
    fn ge(&self, val: Value) -> (r: ExprResult) {
        self.compare(BoolOp::Ge, val)
    }

    /// `self < val`.
    fn lt(&self, val: Value) -> (r: ExprResult) {
        self.compare(BoolOp::Lt, val)
    }

    /// `self <= val`.
    fn le(&self, val: Value) -> (r: ExprResult) {
        self.compare(BoolOp::Le, val)
    }
}

} // verus!
