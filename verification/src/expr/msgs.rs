//! The traversal protocol: what a tree reports to a checker.
//!
//! Two views exist over one tree.  [`Expr::conditions`] yields the plain
//! sequence of schema facts for ad-hoc inspection.  [`Expr::send_all`]
//! pushes the same facts into a [`Server`], depth-first and children before
//! self, additionally bracketing every ambiguity-bearing run between
//! [`Signal::StartLink`] and [`Signal::EndLink`] so the sink can resolve it
//! as one linked group.
//!
//! A node brackets exactly when its own resolution stays [`ExprType::Any`]:
//! a column in an `Any` context, an equality whose operand kind is `Any`,
//! a `CASE` whose branches and context all fold to `Any`.  Descendants of a
//! bracketed run never re-bracket (the `linked` flag below), so every
//! emitted stream has properly matched, unnested link pairs.

use vstd::prelude::*;
use crate::checker::message::{Condition, Message, Signal};
use crate::protocol::{Client, Checkable, Server};
use super::{Case, CaseBranch, Dialect, Expr, ExprType, Expression};

verus! {

/// Concatenation of sequences is associative.
proof fn lemma_add_assoc<A>(a: Seq<A>, b: Seq<A>, c: Seq<A>)
    ensures
        (a + b) + c == a + (b + c),
{
    assert((a + b) + c =~= a + (b + c));
}

/// The empty sequence is a right identity of concatenation.
proof fn lemma_add_empty<A>(a: Seq<A>)
    ensures
        a + Seq::<A>::empty() == a,
{
    assert(a + Seq::<A>::empty() =~= a);
}

/// Pushing one element is concatenation with a singleton.
proof fn lemma_push_is_concat<A>(a: Seq<A>, x: A)
    ensures
        a.push(x) == a + seq![x],
{
    assert(a.push(x) =~= a + seq![x]);
}

impl Case {
    /// The resolution of a `CASE` against an incoming context: the fold of
    /// its branch types, re-folded with the context.
    pub open spec fn spec_resolve(self, ctx: ExprType) -> Result<ExprType, (ExprType, ExprType)> {
        match self.spec_validate() {
            Ok(t) => ExprType::spec_try_fold(t, ctx),
            Err(e) => Err(e),
        }
    }

    /// Resolve this `CASE` against an incoming context.
    pub fn resolve(&self, ctx: ExprType) -> (r: Result<ExprType, (ExprType, ExprType)>)
        ensures
            r == self.spec_resolve(ctx),
    {
        match self.validate() {
            Ok(t) => ExprType::try_fold(t, ctx),
            Err(e) => Err(e),
        }
    }
}

impl Expr {
    /// The conditions this node and its descendants require of a schema,
    /// under the given coercion context.
    pub open spec fn spec_conditions(self, ctx: ExprType) -> Seq<Condition>
        decreases self, 2int, 0int,
    {
        match self {
            Expr::BoolLit(_) => Seq::empty(),
            Expr::NumLit(_) => Seq::empty(),
            Expr::Col(c) => seq![Condition::ColumnExistsAndType(c.name, ctx)],
            Expr::Case(c) => match c.spec_resolve(ctx) {
                Ok(r) => Case::spec_branch_conditions(c, c.branches@.len() as int, r),
                Err(e) => seq![Condition::CaseReturnTypeMismatch(e)],
            },
            Expr::Eq(b) => b.lhs.spec_conditions(b.kind) + b.rhs.spec_conditions(b.kind),
            Expr::Neq(b) => b.lhs.spec_conditions(b.kind) + b.rhs.spec_conditions(b.kind),
            Expr::Gt(b) => b.lhs.spec_conditions(ExprType::Num) + b.rhs.spec_conditions(ExprType::Num),
            Expr::Geq(b) => b.lhs.spec_conditions(ExprType::Num) + b.rhs.spec_conditions(ExprType::Num),
            Expr::Lt(b) => b.lhs.spec_conditions(ExprType::Num) + b.rhs.spec_conditions(ExprType::Num),
            Expr::Leq(b) => b.lhs.spec_conditions(ExprType::Num) + b.rhs.spec_conditions(ExprType::Num),
            Expr::Between(b) => b.inner.spec_conditions(ExprType::Num)
                + b.lower.spec_conditions(ExprType::Num)
                + b.upper.spec_conditions(ExprType::Num),
            Expr::And(b) => b.lhs.spec_conditions(ExprType::Bool) + b.rhs.spec_conditions(ExprType::Bool),
            Expr::Or(b) => b.lhs.spec_conditions(ExprType::Bool) + b.rhs.spec_conditions(ExprType::Bool),
            Expr::Not(b) => b.inner.spec_conditions(ExprType::Bool),
            Expr::Add(b) => b.lhs.spec_conditions(ExprType::Num) + b.rhs.spec_conditions(ExprType::Num),
            Expr::Sub(b) => b.lhs.spec_conditions(ExprType::Num) + b.rhs.spec_conditions(ExprType::Num),
            Expr::Mul(b) => b.lhs.spec_conditions(ExprType::Num) + b.rhs.spec_conditions(ExprType::Num),
            Expr::Div(b) => b.lhs.spec_conditions(ExprType::Num) + b.rhs.spec_conditions(ExprType::Num),
            Expr::Rem(b) => b.lhs.spec_conditions(ExprType::Num) + b.rhs.spec_conditions(ExprType::Num),
            Expr::Len(b) => b.inner.spec_conditions(ExprType::Text),
            Expr::Alias(b) => b.inner.spec_conditions(ctx),
        }
    }
}

impl CaseBranch {
    /// The conditions of one branch: the pattern is coerced to `Bool`, the
    /// result to the resolved context of the whole `CASE`.
    pub open spec fn spec_conditions(self, ctx: ExprType) -> Seq<Condition>
        decreases self, 2int, 0int,
    {
        match self.pattern {
            Some(p) => p.spec_conditions(ExprType::Bool) + self.result.spec_conditions(ctx),
            None => self.result.spec_conditions(ctx),
        }
    }
}

impl Case {
    /// The concatenated conditions of the first `n` branches.
    pub open spec fn spec_branch_conditions(c: Case, n: int, ctx: ExprType) -> Seq<Condition>
        decreases c, 1int, n,
        via Case::branch_conditions_decreases
    {
        if n <= 0 {
            Seq::empty()
        } else if n > c.branches@.len() {
            Case::spec_branch_conditions(c, c.branches@.len() as int, ctx)
        } else {
            Case::spec_branch_conditions(c, n - 1, ctx) + c.branches@[n - 1].spec_conditions(ctx)
        }
    }

    #[via_fn]
    proof fn branch_conditions_decreases(c: Case, n: int, ctx: ExprType) {
        if 0 < n <= c.branches@.len() {
            assert(decreases_to!(c => c.branches));
            assert(decreases_to!(c.branches => c.branches@));
            assert(decreases_to!(c.branches@ => c.branches@[n - 1]));
        }
    }

    #[verifier::loop_isolation(false)]
    fn push_branch_conditions(&self, ctx: ExprType, out: &mut Vec<Condition>)
        ensures
            final(out)@ == old(out)@ + Case::spec_branch_conditions(*self, self.branches@.len() as int, ctx),
        decreases self, 1int, 0int,
    {
        let n = self.branches.len();
        for i in 0..n
            invariant
                n == self.branches@.len(),
                out@ == old(out)@ + Case::spec_branch_conditions(*self, i as int, ctx),
            decreases n - i,
        {
            proof {
                assert(decreases_to!(self => self.branches));
                assert(decreases_to!(self.branches => self.branches@));
                assert(decreases_to!(self.branches@ => self.branches@[i as int]));
            }
            self.branches[i].push_conditions(ctx, out);
            proof {
                assert(out@ =~= old(out)@ + Case::spec_branch_conditions(*self, i as int + 1, ctx));
            }
        }
    }
}

impl Expr {
    /// List every condition this tree requires of a schema, without running
    /// a checker.
    pub fn conditions(&self, coerce: ExprType) -> (r: Vec<Condition>)
        ensures
            r@ == self.spec_conditions(coerce),
    {
        let mut out: Vec<Condition> = Vec::new();
        self.push_conditions(coerce, &mut out);
        out
    }

    #[verifier::rlimit(100)]
    fn push_conditions(&self, ctx: ExprType, out: &mut Vec<Condition>)
        ensures
            final(out)@ == old(out)@ + self.spec_conditions(ctx),
        decreases self, 2int, 0int,
    {
        match self {
            Expr::BoolLit(_) => {
                proof {
                    lemma_add_empty(old(out)@);
                }
            }
            Expr::NumLit(_) => {
                proof {
                    lemma_add_empty(old(out)@);
                }
            }
            Expr::Col(c) => {
                out.push(Condition::ColumnExistsAndType(c.name.clone(), ctx));
                proof {
                    lemma_push_is_concat(old(out)@, Condition::ColumnExistsAndType(c.name, ctx));
                }
            }
            Expr::Case(c) => {
                match c.resolve(ctx) {
                    Ok(r) => {
                        c.push_branch_conditions(r, out);
                    }
                    Err(e) => {
                        out.push(Condition::CaseReturnTypeMismatch(e));
                        proof {
                            lemma_push_is_concat(old(out)@, Condition::CaseReturnTypeMismatch(e));
                        }
                    }
                }
            }
            Expr::Eq(b) => {
                b.lhs.push_conditions(b.kind, out);
                b.rhs.push_conditions(b.kind, out);
                proof {
                    lemma_add_assoc(old(out)@, b.lhs.spec_conditions(b.kind), b.rhs.spec_conditions(b.kind));
                }
            }
            Expr::Neq(b) => {
                b.lhs.push_conditions(b.kind, out);
                b.rhs.push_conditions(b.kind, out);
                proof {
                    lemma_add_assoc(old(out)@, b.lhs.spec_conditions(b.kind), b.rhs.spec_conditions(b.kind));
                }
            }
            Expr::Gt(b) => {
                b.lhs.push_conditions(ExprType::Num, out);
                b.rhs.push_conditions(ExprType::Num, out);
                proof {
                    lemma_add_assoc(old(out)@, b.lhs.spec_conditions(ExprType::Num), b.rhs.spec_conditions(ExprType::Num));
                }
            }
            Expr::Geq(b) => {
                b.lhs.push_conditions(ExprType::Num, out);
                b.rhs.push_conditions(ExprType::Num, out);
                proof {
                    lemma_add_assoc(old(out)@, b.lhs.spec_conditions(ExprType::Num), b.rhs.spec_conditions(ExprType::Num));
                }
            }
            Expr::Lt(b) => {
                b.lhs.push_conditions(ExprType::Num, out);
                b.rhs.push_conditions(ExprType::Num, out);
                proof {
                    lemma_add_assoc(old(out)@, b.lhs.spec_conditions(ExprType::Num), b.rhs.spec_conditions(ExprType::Num));
                }
            }
            Expr::Leq(b) => {
                b.lhs.push_conditions(ExprType::Num, out);
                b.rhs.push_conditions(ExprType::Num, out);
                proof {
                    lemma_add_assoc(old(out)@, b.lhs.spec_conditions(ExprType::Num), b.rhs.spec_conditions(ExprType::Num));
                }
            }
            Expr::And(b) => {
                b.lhs.push_conditions(ExprType::Bool, out);
                b.rhs.push_conditions(ExprType::Bool, out);
                proof {
                    lemma_add_assoc(old(out)@, b.lhs.spec_conditions(ExprType::Bool), b.rhs.spec_conditions(ExprType::Bool));
                }
            }
            Expr::Or(b) => {
                b.lhs.push_conditions(ExprType::Bool, out);
                b.rhs.push_conditions(ExprType::Bool, out);
                proof {
                    lemma_add_assoc(old(out)@, b.lhs.spec_conditions(ExprType::Bool), b.rhs.spec_conditions(ExprType::Bool));
                }
            }
            Expr::Add(b) => {
                b.lhs.push_conditions(ExprType::Num, out);
                b.rhs.push_conditions(ExprType::Num, out);
                proof {
                    lemma_add_assoc(old(out)@, b.lhs.spec_conditions(ExprType::Num), b.rhs.spec_conditions(ExprType::Num));
                }
            }
            Expr::Sub(b) => {
                b.lhs.push_conditions(ExprType::Num, out);
                b.rhs.push_conditions(ExprType::Num, out);
                proof {
                    lemma_add_assoc(old(out)@, b.lhs.spec_conditions(ExprType::Num), b.rhs.spec_conditions(ExprType::Num));
                }
            }
            Expr::Mul(b) => {
                b.lhs.push_conditions(ExprType::Num, out);
                b.rhs.push_conditions(ExprType::Num, out);
                proof {
                    lemma_add_assoc(old(out)@, b.lhs.spec_conditions(ExprType::Num), b.rhs.spec_conditions(ExprType::Num));
                }
            }
            Expr::Div(b) => {
                b.lhs.push_conditions(ExprType::Num, out);
                b.rhs.push_conditions(ExprType::Num, out);
                proof {
                    lemma_add_assoc(old(out)@, b.lhs.spec_conditions(ExprType::Num), b.rhs.spec_conditions(ExprType::Num));
                }
            }
            Expr::Rem(b) => {
                b.lhs.push_conditions(ExprType::Num, out);
                b.rhs.push_conditions(ExprType::Num, out);
                proof {
                    lemma_add_assoc(old(out)@, b.lhs.spec_conditions(ExprType::Num), b.rhs.spec_conditions(ExprType::Num));
                }
            }
            Expr::Between(b) => {
                b.inner.push_conditions(ExprType::Num, out);
                b.lower.push_conditions(ExprType::Num, out);
                b.upper.push_conditions(ExprType::Num, out);
                proof {
                    lemma_add_assoc(old(out)@, b.inner.spec_conditions(ExprType::Num), b.lower.spec_conditions(ExprType::Num));
                    lemma_add_assoc(old(out)@, b.inner.spec_conditions(ExprType::Num) + b.lower.spec_conditions(ExprType::Num), b.upper.spec_conditions(ExprType::Num));
                }
            }
            Expr::Not(b) => {
                b.inner.push_conditions(ExprType::Bool, out);
            }
            Expr::Len(b) => {
                b.inner.push_conditions(ExprType::Text, out);
            }
            Expr::Alias(b) => {
                b.inner.push_conditions(ctx, out);
            }
        }
    }
}

impl CaseBranch {
    fn push_conditions(&self, ctx: ExprType, out: &mut Vec<Condition>)
        ensures
            final(out)@ == old(out)@ + self.spec_conditions(ctx),
        decreases self, 2int, 0int,
    {
        match &self.pattern {
            Some(p) => {
                p.push_conditions(ExprType::Bool, out);
            }
            None => {}
        }
        self.result.push_conditions(ctx, out);
        proof {
            assert(out@ =~= old(out)@ + self.spec_conditions(ctx));
        }
    }
}


impl Expr {
    /// The full message stream [`Expr::send_all`] pushes into a sink for
    /// this tree under the given context.  `linked` is true inside an
    /// enclosing `StartLink`/`EndLink` bracket, where descendants must not
    /// open a bracket of their own.
    pub open spec fn spec_messages(self, ctx: ExprType, linked: bool) -> Seq<Message>
        decreases self, 2int, 0int,
    {
        match self {
            Expr::BoolLit(_) => Seq::empty(),
            Expr::NumLit(_) => Seq::empty(),
            Expr::Col(c) => if !linked && ctx == ExprType::Any {
                seq![
                    Message::Sig(Signal::StartLink),
                    Message::Cond(Condition::ColumnExistsAndType(c.name, ctx)),
                    Message::Sig(Signal::EndLink),
                ]
            } else {
                seq![Message::Cond(Condition::ColumnExistsAndType(c.name, ctx))]
            },
            Expr::Case(c) => match c.spec_resolve(ctx) {
                Ok(r) => if r == ExprType::Any && !linked {
                    seq![Message::Sig(Signal::StartLink)]
                        + Case::spec_branch_messages(c, c.branches@.len() as int, ExprType::Any, true)
                        + seq![Message::Sig(Signal::EndLink)]
                } else {
                    Case::spec_branch_messages(c, c.branches@.len() as int, r, linked)
                },
                Err(e) => seq![Message::Cond(Condition::CaseReturnTypeMismatch(e))],
            },
            Expr::Eq(b) => if b.kind == ExprType::Any && !linked {
                seq![Message::Sig(Signal::StartLink)]
                    + b.lhs.spec_messages(ExprType::Any, true)
                    + b.rhs.spec_messages(ExprType::Any, true)
                    + seq![Message::Sig(Signal::EndLink)]
            } else {
                b.lhs.spec_messages(b.kind, linked) + b.rhs.spec_messages(b.kind, linked)
            },
            Expr::Neq(b) => if b.kind == ExprType::Any && !linked {
                seq![Message::Sig(Signal::StartLink)]
                    + b.lhs.spec_messages(ExprType::Any, true)
                    + b.rhs.spec_messages(ExprType::Any, true)
                    + seq![Message::Sig(Signal::EndLink)]
            } else {
                b.lhs.spec_messages(b.kind, linked) + b.rhs.spec_messages(b.kind, linked)
            },
            Expr::Gt(b) => b.lhs.spec_messages(ExprType::Num, linked) + b.rhs.spec_messages(ExprType::Num, linked),
            Expr::Geq(b) => b.lhs.spec_messages(ExprType::Num, linked) + b.rhs.spec_messages(ExprType::Num, linked),
            Expr::Lt(b) => b.lhs.spec_messages(ExprType::Num, linked) + b.rhs.spec_messages(ExprType::Num, linked),
            Expr::Leq(b) => b.lhs.spec_messages(ExprType::Num, linked) + b.rhs.spec_messages(ExprType::Num, linked),
            Expr::Between(b) => b.inner.spec_messages(ExprType::Num, linked)
                + b.lower.spec_messages(ExprType::Num, linked)
                + b.upper.spec_messages(ExprType::Num, linked),
            Expr::And(b) => b.lhs.spec_messages(ExprType::Bool, linked) + b.rhs.spec_messages(ExprType::Bool, linked),
            Expr::Or(b) => b.lhs.spec_messages(ExprType::Bool, linked) + b.rhs.spec_messages(ExprType::Bool, linked),
            Expr::Not(b) => b.inner.spec_messages(ExprType::Bool, linked),
            Expr::Add(b) => b.lhs.spec_messages(ExprType::Num, linked) + b.rhs.spec_messages(ExprType::Num, linked),
            Expr::Sub(b) => b.lhs.spec_messages(ExprType::Num, linked) + b.rhs.spec_messages(ExprType::Num, linked),
            Expr::Mul(b) => b.lhs.spec_messages(ExprType::Num, linked) + b.rhs.spec_messages(ExprType::Num, linked),
            Expr::Div(b) => b.lhs.spec_messages(ExprType::Num, linked) + b.rhs.spec_messages(ExprType::Num, linked),
            Expr::Rem(b) => b.lhs.spec_messages(ExprType::Num, linked) + b.rhs.spec_messages(ExprType::Num, linked),
            Expr::Len(b) => b.inner.spec_messages(ExprType::Text, linked),
            Expr::Alias(b) => b.inner.spec_messages(ctx, linked),
        }
    }
}

impl CaseBranch {
    /// The message stream of one branch: pattern under `Bool`, result under
    /// the resolved context of the whole `CASE`.
    pub open spec fn spec_messages(self, ctx: ExprType, linked: bool) -> Seq<Message>
        decreases self, 2int, 0int,
    {
        match self.pattern {
            Some(p) => p.spec_messages(ExprType::Bool, linked) + self.result.spec_messages(ctx, linked),
            None => self.result.spec_messages(ctx, linked),
        }
    }
}

impl Case {
    /// The concatenated message streams of the first `n` branches.
    pub open spec fn spec_branch_messages(c: Case, n: int, ctx: ExprType, linked: bool) -> Seq<Message>
        decreases c, 1int, n,
        via Case::branch_messages_decreases
    {
        if n <= 0 {
            Seq::empty()
        } else if n > c.branches@.len() {
            Case::spec_branch_messages(c, c.branches@.len() as int, ctx, linked)
        } else {
            Case::spec_branch_messages(c, n - 1, ctx, linked) + c.branches@[n - 1].spec_messages(ctx, linked)
        }
    }

    #[via_fn]
    proof fn branch_messages_decreases(c: Case, n: int, ctx: ExprType, linked: bool) {
        if 0 < n <= c.branches@.len() {
            assert(decreases_to!(c => c.branches));
            assert(decreases_to!(c.branches => c.branches@));
            assert(decreases_to!(c.branches@ => c.branches@[n - 1]));
        }
    }
}

/// Opening and closing a bracket around one appended stream groups as the
/// bracketed sequence.
proof fn lemma_bracket1(a: Seq<Message>, m: Seq<Message>)
    ensures
        (a.push(Message::Sig(Signal::StartLink)) + m).push(Message::Sig(Signal::EndLink))
            == a + (seq![Message::Sig(Signal::StartLink)] + m + seq![Message::Sig(Signal::EndLink)]),
{
    assert((a.push(Message::Sig(Signal::StartLink)) + m).push(Message::Sig(Signal::EndLink))
        =~= a + (seq![Message::Sig(Signal::StartLink)] + m + seq![Message::Sig(Signal::EndLink)]));
}

/// Opening and closing a bracket around two appended streams groups as the
/// bracketed sequence.
proof fn lemma_bracket2(a: Seq<Message>, m1: Seq<Message>, m2: Seq<Message>)
    ensures
        ((a.push(Message::Sig(Signal::StartLink)) + m1) + m2).push(Message::Sig(Signal::EndLink))
            == a + (seq![Message::Sig(Signal::StartLink)] + m1 + m2 + seq![Message::Sig(Signal::EndLink)]),
{
    assert(((a.push(Message::Sig(Signal::StartLink)) + m1) + m2).push(Message::Sig(Signal::EndLink))
        =~= a + (seq![Message::Sig(Signal::StartLink)] + m1 + m2 + seq![Message::Sig(Signal::EndLink)]));
}

impl Expr {
    /// Push every message of this tree into the sink: depth-first, children
    /// before self, with ambiguity-bearing runs bracketed by a matched
    /// `StartLink`/`EndLink` pair.
    pub fn send_all<S: Server>(&self, ctx: ExprType, server: &mut S)
        requires
            old(server).wf(),
        ensures
            final(server).wf(),
            final(server).accepted() == old(server).accepted() + self.spec_messages(ctx, false),
    {
        self.send_linked(ctx, false, server);
    }

    #[verifier::rlimit(100)]
    fn send_linked<S: Server>(&self, ctx: ExprType, linked: bool, server: &mut S)
        requires
            old(server).wf(),
        ensures
            final(server).wf(),
            final(server).accepted() == old(server).accepted() + self.spec_messages(ctx, linked),
        decreases self, 2int, 0int,
    {
        match self {
            Expr::BoolLit(_) => {
                proof {
                    lemma_add_empty(old(server).accepted());
                }
            }
            Expr::NumLit(_) => {
                proof {
                    lemma_add_empty(old(server).accepted());
                }
            }
            Expr::Col(c) => {
                let m = Message::Cond(Condition::ColumnExistsAndType(c.name.clone(), ctx));
                if !linked && matches!(ctx, ExprType::Any) {
                    server.accept(Message::Sig(Signal::StartLink));
                    server.accept(m);
                    server.accept(Message::Sig(Signal::EndLink));
                    proof {
                        assert(final(server).accepted() =~= old(server).accepted() + self.spec_messages(ctx, linked));
                    }
                } else {
                    server.accept(m);
                    proof {
                        lemma_push_is_concat(old(server).accepted(), Message::Cond(Condition::ColumnExistsAndType(c.name, ctx)));
                    }
                }
            }
            Expr::Case(c) => {
                match c.resolve(ctx) {
                    Ok(r) => {
                        if matches!(r, ExprType::Any) && !linked {
                            server.accept(Message::Sig(Signal::StartLink));
                            c.send_branches(ExprType::Any, true, server);
                            server.accept(Message::Sig(Signal::EndLink));
                            proof {
                                lemma_bracket1(
                                    old(server).accepted(),
                                    Case::spec_branch_messages(*c, c.branches@.len() as int, ExprType::Any, true),
                                );
                            }
                        } else {
                            c.send_branches(r, linked, server);
                        }
                    }
                    Err(e) => {
                        server.accept(Message::Cond(Condition::CaseReturnTypeMismatch(e)));
                        proof {
                            lemma_push_is_concat(old(server).accepted(), Message::Cond(Condition::CaseReturnTypeMismatch(e)));
                        }
                    }
                }
            }
            Expr::Eq(b) => {
                if matches!(b.kind, ExprType::Any) && !linked {
                    server.accept(Message::Sig(Signal::StartLink));
                    b.lhs.send_linked(ExprType::Any, true, server);
                    b.rhs.send_linked(ExprType::Any, true, server);
                    server.accept(Message::Sig(Signal::EndLink));
                    proof {
                        lemma_bracket2(
                            old(server).accepted(),
                            b.lhs.spec_messages(ExprType::Any, true),
                            b.rhs.spec_messages(ExprType::Any, true),
                        );
                    }
                } else {
                    b.lhs.send_linked(b.kind, linked, server);
                    b.rhs.send_linked(b.kind, linked, server);
                    proof {
                        lemma_add_assoc(old(server).accepted(), b.lhs.spec_messages(b.kind, linked), b.rhs.spec_messages(b.kind, linked));
                    }
                }
            }
            Expr::Neq(b) => {
                if matches!(b.kind, ExprType::Any) && !linked {
                    server.accept(Message::Sig(Signal::StartLink));
                    b.lhs.send_linked(ExprType::Any, true, server);
                    b.rhs.send_linked(ExprType::Any, true, server);
                    server.accept(Message::Sig(Signal::EndLink));
                    proof {
                        lemma_bracket2(
                            old(server).accepted(),
                            b.lhs.spec_messages(ExprType::Any, true),
                            b.rhs.spec_messages(ExprType::Any, true),
                        );
                    }
                } else {
                    b.lhs.send_linked(b.kind, linked, server);
                    b.rhs.send_linked(b.kind, linked, server);
                    proof {
                        lemma_add_assoc(old(server).accepted(), b.lhs.spec_messages(b.kind, linked), b.rhs.spec_messages(b.kind, linked));
                    }
                }
            }
            Expr::Gt(b) => {
                b.lhs.send_linked(ExprType::Num, linked, server);
                b.rhs.send_linked(ExprType::Num, linked, server);
                proof {
                    lemma_add_assoc(old(server).accepted(), b.lhs.spec_messages(ExprType::Num, linked), b.rhs.spec_messages(ExprType::Num, linked));
                }
            }
            Expr::Geq(b) => {
                b.lhs.send_linked(ExprType::Num, linked, server);
                b.rhs.send_linked(ExprType::Num, linked, server);
                proof {
                    lemma_add_assoc(old(server).accepted(), b.lhs.spec_messages(ExprType::Num, linked), b.rhs.spec_messages(ExprType::Num, linked));
                }
            }
            Expr::Lt(b) => {
                b.lhs.send_linked(ExprType::Num, linked, server);
                b.rhs.send_linked(ExprType::Num, linked, server);
                proof {
                    lemma_add_assoc(old(server).accepted(), b.lhs.spec_messages(ExprType::Num, linked), b.rhs.spec_messages(ExprType::Num, linked));
                }
            }
            Expr::Leq(b) => {
                b.lhs.send_linked(ExprType::Num, linked, server);
                b.rhs.send_linked(ExprType::Num, linked, server);
                proof {
                    lemma_add_assoc(old(server).accepted(), b.lhs.spec_messages(ExprType::Num, linked), b.rhs.spec_messages(ExprType::Num, linked));
                }
            }
            Expr::Between(b) => {
                b.inner.send_linked(ExprType::Num, linked, server);
                b.lower.send_linked(ExprType::Num, linked, server);
                b.upper.send_linked(ExprType::Num, linked, server);
                proof {
                    lemma_add_assoc(old(server).accepted(), b.inner.spec_messages(ExprType::Num, linked), b.lower.spec_messages(ExprType::Num, linked));
                    lemma_add_assoc(old(server).accepted(), b.inner.spec_messages(ExprType::Num, linked) + b.lower.spec_messages(ExprType::Num, linked), b.upper.spec_messages(ExprType::Num, linked));
                }
            }
            Expr::And(b) => {
                b.lhs.send_linked(ExprType::Bool, linked, server);
                b.rhs.send_linked(ExprType::Bool, linked, server);
                proof {
                    lemma_add_assoc(old(server).accepted(), b.lhs.spec_messages(ExprType::Bool, linked), b.rhs.spec_messages(ExprType::Bool, linked));
                }
            }
            Expr::Or(b) => {
                b.lhs.send_linked(ExprType::Bool, linked, server);
                b.rhs.send_linked(ExprType::Bool, linked, server);
                proof {
                    lemma_add_assoc(old(server).accepted(), b.lhs.spec_messages(ExprType::Bool, linked), b.rhs.spec_messages(ExprType::Bool, linked));
                }
            }
            Expr::Not(b) => {
                b.inner.send_linked(ExprType::Bool, linked, server);
            }
            Expr::Add(b) => {
                b.lhs.send_linked(ExprType::Num, linked, server);
                b.rhs.send_linked(ExprType::Num, linked, server);
                proof {
                    lemma_add_assoc(old(server).accepted(), b.lhs.spec_messages(ExprType::Num, linked), b.rhs.spec_messages(ExprType::Num, linked));
                }
            }
            Expr::Sub(b) => {
                b.lhs.send_linked(ExprType::Num, linked, server);
                b.rhs.send_linked(ExprType::Num, linked, server);
                proof {
                    lemma_add_assoc(old(server).accepted(), b.lhs.spec_messages(ExprType::Num, linked), b.rhs.spec_messages(ExprType::Num, linked));
                }
            }
            Expr::Mul(b) => {
                b.lhs.send_linked(ExprType::Num, linked, server);
                b.rhs.send_linked(ExprType::Num, linked, server);
                proof {
                    lemma_add_assoc(old(server).accepted(), b.lhs.spec_messages(ExprType::Num, linked), b.rhs.spec_messages(ExprType::Num, linked));
                }
            }
            Expr::Div(b) => {
                b.lhs.send_linked(ExprType::Num, linked, server);
                b.rhs.send_linked(ExprType::Num, linked, server);
                proof {
                    lemma_add_assoc(old(server).accepted(), b.lhs.spec_messages(ExprType::Num, linked), b.rhs.spec_messages(ExprType::Num, linked));
                }
            }
            Expr::Rem(b) => {
                b.lhs.send_linked(ExprType::Num, linked, server);
                b.rhs.send_linked(ExprType::Num, linked, server);
                proof {
                    lemma_add_assoc(old(server).accepted(), b.lhs.spec_messages(ExprType::Num, linked), b.rhs.spec_messages(ExprType::Num, linked));
                }
            }
            Expr::Len(b) => {
                b.inner.send_linked(ExprType::Text, linked, server);
            }
            Expr::Alias(b) => {
                b.inner.send_linked(ctx, linked, server);
            }
        }
    }
}

impl Case {
    #[verifier::loop_isolation(false)]
    fn send_branches<S: Server>(&self, ctx: ExprType, linked: bool, server: &mut S)
        requires
            old(server).wf(),
        ensures
            final(server).wf(),
            final(server).accepted() == old(server).accepted()
                + Case::spec_branch_messages(*self, self.branches@.len() as int, ctx, linked),
        decreases self, 1int, 0int,
    {
        let n = self.branches.len();
        for i in 0..n
            invariant
                n == self.branches@.len(),
                server.wf(),
                server.accepted() == old(server).accepted() + Case::spec_branch_messages(*self, i as int, ctx, linked),
            decreases n - i,
        {
            proof {
                assert(decreases_to!(self => self.branches));
                assert(decreases_to!(self.branches => self.branches@));
                assert(decreases_to!(self.branches@ => self.branches@[i as int]));
            }
            self.branches[i].send_linked(ctx, linked, server);
            proof {
                lemma_add_assoc(
                    old(server).accepted(),
                    Case::spec_branch_messages(*self, i as int, ctx, linked),
                    self.branches@[i as int].spec_messages(ctx, linked),
                );
            }
        }
    }
}

impl CaseBranch {
    fn send_linked<S: Server>(&self, ctx: ExprType, linked: bool, server: &mut S)
        requires
            old(server).wf(),
        ensures
            final(server).wf(),
            final(server).accepted() == old(server).accepted() + self.spec_messages(ctx, linked),
        decreases self, 2int, 0int,
    {
        match &self.pattern {
            Some(p) => {
                p.send_linked(ExprType::Bool, linked, server);
                self.result.send_linked(ctx, linked, server);
                proof {
                    lemma_add_assoc(
                        old(server).accepted(),
                        p.spec_messages(ExprType::Bool, linked),
                        self.result.spec_messages(ctx, linked),
                    );
                }
            }
            None => {
                self.result.send_linked(ctx, linked, server);
            }
        }
    }
}

impl Client for Expr {
    /// A node's own facts: a column claims its existence and type; a `CASE`
    /// whose resolution fails claims the mismatch; every other node has
    /// none.
    open spec fn own_messages(&self, ctx: ExprType) -> Seq<Message> {
        match *self {
            Expr::Col(c) => seq![Message::Cond(Condition::ColumnExistsAndType(c.name, ctx))],
            Expr::Case(c) => match c.spec_resolve(ctx) {
                Ok(_) => Seq::empty(),
                Err(e) => seq![Message::Cond(Condition::CaseReturnTypeMismatch(e))],
            },
            _ => Seq::empty(),
        }
    }

    fn messages(&self, ctx: ExprType) -> (r: Vec<Message>) {
        let mut out: Vec<Message> = Vec::new();
        match self {
            Expr::Col(c) => {
                out.push(Message::Cond(Condition::ColumnExistsAndType(c.name.clone(), ctx)));
            }
            Expr::Case(c) => {
                match c.resolve(ctx) {
                    Ok(_) => {}
                    Err(e) => {
                        out.push(Message::Cond(Condition::CaseReturnTypeMismatch(e)));
                    }
                }
            }
            _ => {}
        }
        out
    }
}

impl Checkable for Expr {

}

impl Expression for Expr {
    open spec fn spec_eval(&self) -> ExprType {
        self.spec_eval_type()
    }

    open spec fn spec_text(&self, dialect: Dialect) -> Seq<char> {
        self.spec_display(dialect)
    }

    fn eval_type(&self) -> (r: ExprType) {
        Expr::eval_type(self)
    }

    fn display(&self, dialect: Dialect) -> (r: String) {
        Expr::display(self, dialect)
    }
}

} // verus!
