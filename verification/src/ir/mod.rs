//! A small intermediate representation for filter expressions.
//!
//! This layer deliberately admits ill-typed trees: combinators record the
//! first defect inside the result ([`ExprResult`]) instead of failing the
//! build, so a fluent chain never has to handle errors mid-construction.
//! A checker (or a seal step, see [`crate::reader`]) inspects the stored
//! error at the end of the chain.

pub mod funcs;
pub mod table;

use vstd::prelude::*;

verus! {

/// A literal value in an expression.
pub enum Value {
    Int(isize),
    UInt(usize),
    Str(String),
    Null,
}

impl From<String> for Value {
    /// A string literal.
    fn from(value: String) -> (r: Value) {
        Value::Str(value)
    }
}

impl vstd::std_specs::convert::FromSpecImpl<String> for Value {
    open spec fn obeys_from_spec() -> bool {
        true
    }

    open spec fn from_spec(value: String) -> Value {
        Value::Str(value)
    }
}

impl From<isize> for Value {
    /// A signed numeric literal.
    fn from(value: isize) -> (r: Value) {
        Value::Int(value)
    }
}

impl vstd::std_specs::convert::FromSpecImpl<isize> for Value {
    open spec fn obeys_from_spec() -> bool {
        true
    }

    open spec fn from_spec(value: isize) -> Value {
        Value::Int(value)
    }
}

impl From<usize> for Value {
    /// An unsigned numeric literal.
    fn from(value: usize) -> (r: Value) {
        Value::UInt(value)
    }
}

impl vstd::std_specs::convert::FromSpecImpl<usize> for Value {
    open spec fn obeys_from_spec() -> bool {
        true
    }

    open spec fn from_spec(value: usize) -> Value {
        Value::UInt(value)
    }
}

/// Comparisons from a value-holding handle (such as a column) against a
/// literal.
pub trait Comparison {
    /// The expression type the comparison builds.
    type Expr;

    fn eq(&self, val: Value) -> Self::Expr;

    fn ne(&self, val: Value) -> Self::Expr;

    fn gt(&self, val: Value) -> Self::Expr;

    fn ge(&self, val: Value) -> Self::Expr;

    fn lt(&self, val: Value) -> Self::Expr;

    fn le(&self, val: Value) -> Self::Expr;
}

/// The base building block of expressions: a column or a literal.
pub enum BaseExpr {
    Col(String),
    Lit(Value),
}

/// Boolean operations over expressions: the comparison forms build a
/// boolean expression, the connectives combine two.
pub enum BoolOp {
    Eq,
    Neq,
    Gt,
    Ge,
    Lt,
    Le,
    And,
    Or,
}

/// A boolean combination of two expressions.
pub struct BoolExpr {
    pub lhs: Box<Expr>,
    pub op: BoolOp,
    pub rhs: Box<Expr>,
}

/// Functions that can be applied to expressions.
pub enum Functions {
    Len,
    Count,
    And,
}

/// A function applied to argument expressions.
pub struct FuncExpr {
    pub func: Functions,
    pub args: Vec<Expr>,
}

/// A generic expression.  Ill-typed combinations are representable on
/// purpose: correctness is tracked by [`ExprResult`], not by this type.
pub enum Expr {
    /// A variable or literal: a column name, `3`, ...
    Base(BaseExpr),
    /// A boolean scenario: `col > 3`.
    Bool(BoolExpr),
    /// A function application: `LEN(col)`.
    Func(FuncExpr),
}

/// A defect found while building an expression.
pub struct ExprErr(pub String);

/// A possibly incorrect expression: once a defect is recorded, the
/// expression stops evolving and the defect is carried to the end of the
/// chain.
pub struct ExprResult {
    pub expr: Expr,
    pub error: Option<ExprErr>,
}

impl ExprResult {
    /// Whether no defect has been recorded.
    pub open spec fn spec_clean(self) -> bool {
        self.error is None
    }

    /// A literal value, error-free.
    pub fn from_value(value: Value) -> (r: ExprResult)
        ensures
            r.expr == Expr::Base(BaseExpr::Lit(value)),
            r.spec_clean(),
    {
        ExprResult { expr: Expr::Base(BaseExpr::Lit(value)), error: None }
    }

    /// Whether a defect has been recorded so far.
    pub fn has_error(&self) -> (r: bool)
        ensures
            r == !self.spec_clean(),
    {
        self.error.is_some()
    }
}

} // verus!
