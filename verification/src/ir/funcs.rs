//! Functions and connectives over IR expressions.
//!
//! Every combinator follows one discipline: an already-recorded defect is
//! carried through unchanged, a newly found defect is recorded next to
//! the untouched expression, and only well-shaped operands build a new
//! node.

use vstd::prelude::*;
use super::{BaseExpr, BoolExpr, BoolOp, Expr, ExprErr, ExprResult, FuncExpr, Functions, Value};

verus! {

/// `r` is `input` with a defect message `msg` recorded next to its
/// unchanged expression.
pub open spec fn spec_err_with(input: ExprResult, r: ExprResult, msg: Seq<char>) -> bool {
    &&& r.expr == input.expr
    &&& r.error matches Some(e) && e.0@ == msg
}

/// What applying `LEN` returns: defects pass through; a boolean operand
/// or a non-string literal is a new defect; anything else is wrapped in a
/// `LEN` node.
pub open spec fn spec_len_rel(input: ExprResult, r: ExprResult) -> bool {
    if input.error is Some {
        r == input
    } else if input.expr is Bool {
        spec_err_with(input, r, "Attempt to apply LEN() to a boolean expression"@)
    } else if input.expr matches Expr::Base(BaseExpr::Lit(v)) && !(v is Str) {
        spec_err_with(input, r, "Attempt to apply `LEN()` function to a literal value not of type String"@)
    } else {
        &&& r.error is None
        &&& r.expr matches Expr::Func(f) && f.func is Len && f.args@ == seq![input.expr]
    }
}

/// What applying `COUNT` returns: defects pass through; only a bare
/// column can be counted.
pub open spec fn spec_count_rel(input: ExprResult, r: ExprResult) -> bool {
    if input.error is Some {
        r == input
    } else if input.expr matches Expr::Base(BaseExpr::Col(_)) {
        &&& r.error is None
        &&& r.expr matches Expr::Func(f) && f.func is Count && f.args@ == seq![input.expr]
    } else {
        spec_err_with(input, r, "Attempt to count rows of a non column type"@)
    }
}

/// What a boolean connective returns: the left defect wins, then the
/// right one; two boolean operands combine under `op`, anything else is
/// a new defect on the left operand.
pub open spec fn spec_connective_rel(lhs: ExprResult, rhs: ExprResult, op: BoolOp, r: ExprResult) -> bool {
    if lhs.error is Some {
        r == lhs
    } else if rhs.error is Some {
        r == rhs
    } else if lhs.expr is Bool && rhs.expr is Bool {
        &&& r.error is None
        &&& r.expr matches Expr::Bool(b) && *b.lhs == lhs.expr && b.op == op && *b.rhs == rhs.expr
    } else {
        spec_err_with(lhs, r, "Attempt to `AND` non-boolean expressions"@)
    }
}

/// What a comparison returns: defects pass through, and the two operands
/// are combined under `op` with no further shape check.
pub open spec fn spec_compare_rel(lhs: ExprResult, rhs: ExprResult, op: BoolOp, r: ExprResult) -> bool {
    if lhs.error is Some {
        r == lhs
    } else if rhs.error is Some {
        r == rhs
    } else {
        &&& r.error is None
        &&& r.expr matches Expr::Bool(b) && *b.lhs == lhs.expr && b.op == op && *b.rhs == rhs.expr
    }
}

fn apply_len(input: ExprResult) -> (r: ExprResult)
    ensures
        spec_len_rel(input, r),
{
    if input.error.is_some() {
        return input;
    }
    match &input.expr {
        Expr::Bool(_) => {
            let error = Some(ExprErr("Attempt to apply LEN() to a boolean expression".to_owned()));
            ExprResult { error, ..input }
        }
        Expr::Base(BaseExpr::Lit(v)) if !matches!(v, Value::Str(_)) => {
            let error = Some(ExprErr(
                "Attempt to apply `LEN()` function to a literal value not of type String".to_owned(),
            ));
            ExprResult { error, ..input }
        }
        _ => {
            let mut args: Vec<Expr> = Vec::new();
            args.push(input.expr);
            let r = ExprResult {
                expr: Expr::Func(FuncExpr { func: Functions::Len, args }),
                error: None,
            };
            proof {
                assert(r.expr->Func_0.args@ =~= seq![input.expr]);
            }
            r
        }
    }
}

fn apply_count(input: ExprResult) -> (r: ExprResult)
    ensures
        spec_count_rel(input, r),
{
    if input.error.is_some() {
        return input;
    }
    match &input.expr {
        Expr::Base(BaseExpr::Col(_)) => {
            let mut args: Vec<Expr> = Vec::new();
            args.push(input.expr);
            let r = ExprResult {
                expr: Expr::Func(FuncExpr { func: Functions::Count, args }),
                error: None,
            };
            proof {
                assert(r.expr->Func_0.args@ =~= seq![input.expr]);
            }
            r
        }
        _ => {
            let error = Some(ExprErr("Attempt to count rows of a non column type".to_owned()));
            ExprResult { error, ..input }
        }
    }
}

fn apply_connective(lhs: ExprResult, rhs: ExprResult, op: BoolOp) -> (r: ExprResult)
    ensures
        spec_connective_rel(lhs, rhs, op, r),
{
    if lhs.error.is_some() {
        return lhs;
    }
    if rhs.error.is_some() {
        return rhs;
    }
    if matches!(&lhs.expr, Expr::Bool(_)) && matches!(&rhs.expr, Expr::Bool(_)) {
        ExprResult {
            expr: Expr::Bool(BoolExpr { lhs: Box::new(lhs.expr), op, rhs: Box::new(rhs.expr) }),
            error: None,
        }
    } else {
        let error = Some(ExprErr("Attempt to `AND` non-boolean expressions".to_owned()));
        ExprResult { error, ..lhs }
    }
}

fn apply_compare(lhs: ExprResult, rhs: ExprResult, op: BoolOp) -> (r: ExprResult)
    ensures
        spec_compare_rel(lhs, rhs, op, r),
{
    if lhs.error.is_some() {
        return lhs;
    }
    if rhs.error.is_some() {
        return rhs;
    }
    ExprResult {
        expr: Expr::Bool(BoolExpr { lhs: Box::new(lhs.expr), op, rhs: Box::new(rhs.expr) }),
        error: None,
    }
}

/// Builders available on everything that converts into an [`ExprResult`]:
/// columns, literals and expression results themselves.
pub trait Mappings: Sized {
    /// The expression result this value stands for.
    spec fn as_res(self) -> ExprResult;

    /// Convert into the expression result this value stands for.
    fn into_res(self) -> (r: ExprResult)
        ensures
            r == self.as_res(),
    ;

    /// The length of the expression: `LEN(self)`.
    fn len(self) -> (r: ExprResult)
        ensures
            spec_len_rel(self.as_res(), r),
    {
        apply_len(self.into_res())
    }

    /// The row count of a column: `COUNT(self)`.
    fn count(self) -> (r: ExprResult)
        ensures
            spec_count_rel(self.as_res(), r),
    {
        apply_count(self.into_res())
    }

    /// The conjunction `self AND rhs` of two boolean expressions.
    fn and(self, rhs: ExprResult) -> (r: ExprResult)
        ensures
            spec_connective_rel(self.as_res(), rhs, BoolOp::And, r),
    {
        apply_connective(self.into_res(), rhs, BoolOp::And)
    }

    /// The disjunction `self OR rhs` of two boolean expressions.
    fn or(self, rhs: ExprResult) -> (r: ExprResult)
        ensures
            spec_connective_rel(self.as_res(), rhs, BoolOp::Or, r),
    {
        apply_connective(self.into_res(), rhs, BoolOp::Or)
    }

    /// The comparison `self > rhs`.
    fn gt(self, rhs: ExprResult) -> (r: ExprResult)
        ensures
            spec_compare_rel(self.as_res(), rhs, BoolOp::Gt, r),
    {
        apply_compare(self.into_res(), rhs, BoolOp::Gt)
    }
}

impl Mappings for ExprResult {
    open spec fn as_res(self) -> ExprResult {
        self
    }

    fn into_res(self) -> (r: ExprResult) {
        self
    }
}

impl Mappings for usize {
    /// A `usize` stands for an unsigned literal expression.
    open spec fn as_res(self) -> ExprResult {
        ExprResult { expr: Expr::Base(BaseExpr::Lit(Value::UInt(self))), error: None }
    }

    fn into_res(self) -> (r: ExprResult) {
        ExprResult::from_value(Value::UInt(self))
    }
}

impl Mappings for isize {
    /// An `isize` stands for a signed literal expression.
    open spec fn as_res(self) -> ExprResult {
        ExprResult { expr: Expr::Base(BaseExpr::Lit(Value::Int(self))), error: None }
    }

    fn into_res(self) -> (r: ExprResult) {
        ExprResult::from_value(Value::Int(self))
    }
}

} // verus!
