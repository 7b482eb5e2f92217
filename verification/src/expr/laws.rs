//! Proved laws of the type lattice and the traversal protocol.
//!
//! These public proof functions state the algebra the rest of the crate
//! relies on: unification is commutative and associative with `Any` as its
//! identity, folding a branch list is order-independent, a failed `CASE`
//! emits exactly its mismatch and nothing else, and bracketed traversals
//! emit exactly one matched `StartLink`/`EndLink` pair.

use vstd::prelude::*;
use crate::checker::message::{Condition, Message, Signal};
use super::{Case, CaseBranch, Expr, ExprType};

verus! {

/// `Any` is the identity of unification: folding `Any` with any `x`, on
/// either side, yields `x` itself.
pub proof fn lemma_any_is_identity(x: ExprType)
    ensures
        ExprType::spec_try_fold(ExprType::Any, x) == Ok::<ExprType, (ExprType, ExprType)>(x),
        ExprType::spec_try_fold(x, ExprType::Any) == Ok::<ExprType, (ExprType, ExprType)>(x),
{
}

/// Unification is commutative with respect to success and to the resulting
/// type (the pair inside an `Err` keeps argument order).
pub proof fn lemma_try_fold_commutative(a: ExprType, b: ExprType)
    ensures
        ExprType::spec_try_fold(a, b) is Ok <==> ExprType::spec_try_fold(b, a) is Ok,
        ExprType::spec_try_fold(a, b) is Ok ==> ExprType::spec_try_fold(a, b)
            == ExprType::spec_try_fold(b, a),
{
}

/// Unification is associative with respect to success and to the resulting
/// type: folding `a` with `b` and then `c` succeeds exactly when folding
/// `b` with `c` and then `a` does, with the same result.
pub proof fn lemma_try_fold_associative(a: ExprType, b: ExprType, c: ExprType)
    ensures
        (match ExprType::spec_try_fold(a, b) {
            Ok(x) => ExprType::spec_try_fold(x, c),
            Err(e) => Err(e),
        }) is Ok <==> (match ExprType::spec_try_fold(b, c) {
            Ok(y) => ExprType::spec_try_fold(a, y),
            Err(e) => Err(e),
        }) is Ok,
        (match ExprType::spec_try_fold(a, b) {
            Ok(x) => ExprType::spec_try_fold(x, c),
            Err(e) => Err(e),
        }) is Ok ==> (match ExprType::spec_try_fold(a, b) {
            Ok(x) => ExprType::spec_try_fold(x, c),
            Err(e) => Err(e),
        }) == (match ExprType::spec_try_fold(b, c) {
            Ok(y) => ExprType::spec_try_fold(a, y),
            Err(e) => Err(e),
        }),
{
}

/// The fold of a whole sequence of types, seeded with `Any`.
pub open spec fn spec_fold_types(ts: Seq<ExprType>) -> Result<ExprType, (ExprType, ExprType)>
    decreases ts.len(),
{
    if ts.len() == 0 {
        Ok(ExprType::Any)
    } else {
        match spec_fold_types(ts.drop_last()) {
            Ok(acc) => ExprType::spec_try_fold(acc, ts.last()),
            Err(e) => Err(e),
        }
    }
}

/// A sequence of types is compatible when its concrete members all agree.
pub open spec fn spec_compatible(ts: Seq<ExprType>) -> bool {
    forall|x: ExprType, y: ExprType|
        ts.contains(x) && ts.contains(y) && x != ExprType::Any && y != ExprType::Any ==> x == y
}

/// What the fold computes, stated without reference to order: it succeeds
/// exactly on compatible sequences; it yields `Any` exactly when every
/// member is `Any`, and the shared concrete member otherwise.
pub proof fn lemma_fold_types_characterisation(ts: Seq<ExprType>)
    ensures
        spec_fold_types(ts) is Ok <==> spec_compatible(ts),
        spec_fold_types(ts) == Ok::<ExprType, (ExprType, ExprType)>(ExprType::Any)
            <==> forall|i: int| 0 <= i < ts.len() ==> ts[i] == ExprType::Any,
        forall|t: ExprType| t != ExprType::Any ==>
            (spec_fold_types(ts) == Ok::<ExprType, (ExprType, ExprType)>(t)
                <==> spec_compatible(ts) && ts.contains(t)),
    decreases ts.len(),
{
    if ts.len() == 0 {
        assert(forall|x: ExprType| !ts.contains(x));
    } else {
        let dl = ts.drop_last();
        let l = ts.last();
        lemma_fold_types_characterisation(dl);
        assert forall|x: ExprType| dl.contains(x) implies ts.contains(x) by {
            let i = choose|i: int| 0 <= i < dl.len() && dl[i] == x;
            assert(ts[i] == x);
        }
        assert(ts.contains(l));
        assert forall|x: ExprType| ts.contains(x) implies x == l || dl.contains(x) by {
            let i = choose|i: int| 0 <= i < ts.len() && ts[i] == x;
            if i < ts.len() - 1 {
                assert(dl[i] == x);
            }
        }
        if spec_compatible(ts) {
            assert forall|x: ExprType, y: ExprType|
                dl.contains(x) && dl.contains(y) && x != ExprType::Any && y != ExprType::Any
                implies x == y by {
                assert(ts.contains(x));
                assert(ts.contains(y));
            }
            assert(spec_compatible(dl));
        }
        match spec_fold_types(dl) {
            Ok(acc) => {
                assert(spec_compatible(dl));
                if acc != ExprType::Any {
                    assert(dl.contains(acc));
                }
                match ExprType::spec_try_fold(acc, l) {
                    Ok(r) => {
                        assert(spec_fold_types(ts) == Ok::<ExprType, (ExprType, ExprType)>(r));
                        assert forall|x: ExprType, y: ExprType|
                            ts.contains(x) && ts.contains(y) && x != ExprType::Any && y != ExprType::Any
                            implies x == y by {
                            if acc == ExprType::Any {
                                if x != l {
                                    assert(dl.contains(x));
                                    assert(spec_fold_types(dl) == Ok::<ExprType, (ExprType, ExprType)>(ExprType::Any));
                                }
                                if y != l {
                                    assert(dl.contains(y));
                                }
                            } else {
                                if x != l {
                                    assert(dl.contains(x));
                                }
                                if y != l {
                                    assert(dl.contains(y));
                                }
                            }
                        }
                        assert(spec_compatible(ts));
                        if r == ExprType::Any {
                            assert(acc == ExprType::Any && l == ExprType::Any);
                            assert forall|i: int| 0 <= i < ts.len() implies ts[i] == ExprType::Any by {
                                if i < ts.len() - 1 {
                                    assert(dl[i] == ts[i]);
                                }
                            }
                        } else {
                            assert(ts.contains(r));
                            assert(ts[ts.len() - 1] != ExprType::Any || dl.contains(r));
                        }
                        assert forall|t: ExprType| t != ExprType::Any && spec_compatible(ts) && ts.contains(t)
                            implies spec_fold_types(ts) == Ok::<ExprType, (ExprType, ExprType)>(t) by {
                            if r == ExprType::Any {
                                assert(forall|i: int| 0 <= i < ts.len() ==> ts[i] == ExprType::Any);
                                let i = choose|i: int| 0 <= i < ts.len() && ts[i] == t;
                                assert(false);
                            } else {
                                assert(ts.contains(r));
                            }
                        }
                    }
                    Err(e) => {
                        assert(acc != ExprType::Any && l != ExprType::Any && acc != l);
                        assert(ts.contains(acc));
                        assert(!spec_compatible(ts));
                    }
                }
            }
            Err(e) => {
                assert(!spec_compatible(dl));
                let (x, y) = choose|x: ExprType, y: ExprType|
                    dl.contains(x) && dl.contains(y) && x != ExprType::Any && y != ExprType::Any && x != y;
                assert(ts.contains(x));
                assert(ts.contains(y));
                assert(!spec_compatible(ts));
            }
        }
    }
}

/// Folding a list of types is order-independent: two sequences with the
/// same members (as a multiset) agree on success and on the resulting
/// type.
pub proof fn lemma_fold_types_order_independent(s1: Seq<ExprType>, s2: Seq<ExprType>)
    requires
        s1.to_multiset() == s2.to_multiset(),
    ensures
        spec_fold_types(s1) is Ok <==> spec_fold_types(s2) is Ok,
        spec_fold_types(s1) is Ok ==> spec_fold_types(s1) == spec_fold_types(s2),
{
    broadcast use vstd::seq_lib::group_to_multiset_ensures;

    lemma_fold_types_characterisation(s1);
    lemma_fold_types_characterisation(s2);
    assert forall|x: ExprType| s1.contains(x) implies s2.contains(x) by {
        assert(s1.to_multiset().count(x) > 0);
    }
    assert forall|x: ExprType| s2.contains(x) implies s1.contains(x) by {
        assert(s2.to_multiset().count(x) > 0);
    }
    if spec_compatible(s1) {
        assert forall|x: ExprType, y: ExprType|
            s2.contains(x) && s2.contains(y) && x != ExprType::Any && y != ExprType::Any
            implies x == y by {
            assert(s1.contains(x));
            assert(s1.contains(y));
        }
        assert(spec_compatible(s2));
    }
    if spec_compatible(s2) {
        assert forall|x: ExprType, y: ExprType|
            s1.contains(x) && s1.contains(y) && x != ExprType::Any && y != ExprType::Any
            implies x == y by {
            assert(s2.contains(x));
            assert(s2.contains(y));
        }
        assert(spec_compatible(s1));
    }
    match spec_fold_types(s1) {
        Ok(t) => {
            if t == ExprType::Any {
                assert forall|i: int| 0 <= i < s2.len() implies s2[i] == ExprType::Any by {
                    assert(s2.contains(s2[i]));
                    assert(s1.contains(s2[i]));
                    let j = choose|j: int| 0 <= j < s1.len() && s1[j] == s2[i];
                }
                assert(spec_fold_types(s2) == Ok::<ExprType, (ExprType, ExprType)>(ExprType::Any));
            } else {
                assert(s1.contains(t));
                assert(s2.contains(t));
                assert(spec_fold_types(s2) == Ok::<ExprType, (ExprType, ExprType)>(t));
            }
        }
        Err(_) => {}
    }
}

/// The evaluation types of a `CASE`'s branches, in order.
pub open spec fn spec_branch_types(c: Case) -> Seq<ExprType> {
    c.branches@.map_values(|b: CaseBranch| b.spec_eval_type())
}

/// A `CASE` resolves by folding exactly the evaluation types of its
/// branches, seeded with `Any`.
pub proof fn lemma_validate_is_fold(c: Case)
    ensures
        c.spec_validate() == spec_fold_types(spec_branch_types(c)),
{
    lemma_fold_prefix_is_fold(c, c.branches@.len() as int);
    assert(spec_branch_types(c).take(c.branches@.len() as int) =~= spec_branch_types(c));
}

proof fn lemma_fold_prefix_is_fold(c: Case, n: int)
    requires
        0 <= n <= c.branches@.len(),
    ensures
        Case::spec_fold_prefix(c, n) == spec_fold_types(spec_branch_types(c).take(n)),
    decreases n,
{
    if n > 0 {
        lemma_fold_prefix_is_fold(c, n - 1);
        assert(spec_branch_types(c).take(n).drop_last() =~= spec_branch_types(c).take(n - 1));
        assert(spec_branch_types(c).take(n).last() == c.branches@[n - 1].spec_eval_type());
    }
}

/// A `CASE` whose branches are all ambiguous stays ambiguous: it
/// validates to `Any`.
pub proof fn lemma_case_all_any(c: Case)
    requires
        forall|i: int| 0 <= i < c.branches@.len()
            ==> #[trigger] c.branches@[i].spec_eval_type() == ExprType::Any,
    ensures
        c.spec_validate() == Ok::<ExprType, (ExprType, ExprType)>(ExprType::Any),
{
    lemma_validate_is_fold(c);
    lemma_fold_types_characterisation(spec_branch_types(c));
}

/// A `CASE` with one concrete branch type among ambiguous ones downcasts
/// to that concrete type.
pub proof fn lemma_case_downcast(c: Case, t: ExprType)
    requires
        t != ExprType::Any,
        forall|i: int| 0 <= i < c.branches@.len()
            ==> #[trigger] c.branches@[i].spec_eval_type() == ExprType::Any
                || c.branches@[i].spec_eval_type() == t,
        exists|i: int| 0 <= i < c.branches@.len()
            && #[trigger] c.branches@[i].spec_eval_type() == t,
    ensures
        c.spec_validate() == Ok::<ExprType, (ExprType, ExprType)>(t),
{
    lemma_validate_is_fold(c);
    lemma_fold_types_characterisation(spec_branch_types(c));
    let ts = spec_branch_types(c);
    let i = choose|i: int| 0 <= i < c.branches@.len()
        && #[trigger] c.branches@[i].spec_eval_type() == t;
    assert(ts[i] == t);
    assert(ts.contains(t));
    assert forall|x: ExprType, y: ExprType|
        ts.contains(x) && ts.contains(y) && x != ExprType::Any && y != ExprType::Any
        implies x == y by {
        let xi = choose|xi: int| 0 <= xi < ts.len() && ts[xi] == x;
        let yi = choose|yi: int| 0 <= yi < ts.len() && ts[yi] == y;
        assert(c.branches@[xi].spec_eval_type() == x);
        assert(c.branches@[yi].spec_eval_type() == y);
    }
}

/// A `CASE` whose branch types hold two distinct concrete types fails to
/// validate.
pub proof fn lemma_case_mismatch(c: Case, i: int, j: int)
    requires
        0 <= i < c.branches@.len(),
        0 <= j < c.branches@.len(),
        c.branches@[i].spec_eval_type() != ExprType::Any,
        c.branches@[j].spec_eval_type() != ExprType::Any,
        c.branches@[i].spec_eval_type() != c.branches@[j].spec_eval_type(),
    ensures
        c.spec_validate() is Err,
{
    lemma_validate_is_fold(c);
    lemma_fold_types_characterisation(spec_branch_types(c));
    let ts = spec_branch_types(c);
    assert(ts[i] == c.branches@[i].spec_eval_type());
    assert(ts[j] == c.branches@[j].spec_eval_type());
    assert(ts.contains(ts[i]));
    assert(ts.contains(ts[j]));
}

/// A `CASE` that fails to validate emits exactly one
/// `CaseReturnTypeMismatch` carrying the offending pair, and no child
/// conditions, whatever the context.
pub proof fn lemma_case_mismatch_emits_one_condition(c: Case, ctx: ExprType, e: (ExprType, ExprType))
    requires
        c.spec_validate() == Err::<ExprType, (ExprType, ExprType)>(e),
    ensures
        Expr::Case(c).spec_conditions(ctx) == seq![Condition::CaseReturnTypeMismatch(e)],
        Expr::Case(c).spec_messages(ctx, false)
            == seq![Message::Cond(Condition::CaseReturnTypeMismatch(e))],
{
}

/// Whether a message is a condition rather than a signal.
pub open spec fn spec_is_cond(m: Message) -> bool {
    m is Cond
}

/// Whether a stream holds conditions only — in particular, no link
/// signals.
pub open spec fn spec_all_conds(s: Seq<Message>) -> bool {
    forall|i: int| 0 <= i < s.len() ==> spec_is_cond(#[trigger] s[i])
}

proof fn lemma_all_conds_concat(a: Seq<Message>, b: Seq<Message>)
    requires
        spec_all_conds(a),
        spec_all_conds(b),
    ensures
        spec_all_conds(a + b),
{
    assert forall|i: int| 0 <= i < (a + b).len() implies spec_is_cond((a + b)[i]) by {
        if i < a.len() {
            assert((a + b)[i] == a[i]);
        } else {
            assert((a + b)[i] == b[i - a.len()]);
        }
    }
}

/// Whether every node in a tree resolves concretely under `ctx`: no
/// column in an `Any` context, no generic comparison, no ambiguous
/// `CASE`.  Such a tree is what the protocol calls concretely typed.
pub open spec fn spec_link_free(e: Expr, ctx: ExprType) -> bool
    decreases e, 2int, 0int,
{
    match e {
        Expr::BoolLit(_) => true,
        Expr::NumLit(_) => true,
        Expr::Col(_) => ctx != ExprType::Any,
        Expr::Case(c) => match c.spec_resolve(ctx) {
            Ok(r) => r != ExprType::Any
                && spec_branches_link_free(c, c.branches@.len() as int, r),
            Err(_) => true,
        },
        Expr::Eq(b) => b.kind != ExprType::Any
            && spec_link_free(b.lhs, b.kind) && spec_link_free(b.rhs, b.kind),
        Expr::Neq(b) => b.kind != ExprType::Any
            && spec_link_free(b.lhs, b.kind) && spec_link_free(b.rhs, b.kind),
        Expr::Gt(b) => spec_link_free(b.lhs, ExprType::Num) && spec_link_free(b.rhs, ExprType::Num),
        Expr::Geq(b) => spec_link_free(b.lhs, ExprType::Num) && spec_link_free(b.rhs, ExprType::Num),
        Expr::Lt(b) => spec_link_free(b.lhs, ExprType::Num) && spec_link_free(b.rhs, ExprType::Num),
        Expr::Leq(b) => spec_link_free(b.lhs, ExprType::Num) && spec_link_free(b.rhs, ExprType::Num),
        Expr::Between(b) => spec_link_free(b.inner, ExprType::Num)
            && spec_link_free(b.lower, ExprType::Num) && spec_link_free(b.upper, ExprType::Num),
        Expr::And(b) => spec_link_free(b.lhs, ExprType::Bool) && spec_link_free(b.rhs, ExprType::Bool),
        Expr::Or(b) => spec_link_free(b.lhs, ExprType::Bool) && spec_link_free(b.rhs, ExprType::Bool),
        Expr::Not(b) => spec_link_free(b.inner, ExprType::Bool),
        Expr::Add(b) => spec_link_free(b.lhs, ExprType::Num) && spec_link_free(b.rhs, ExprType::Num),
        Expr::Sub(b) => spec_link_free(b.lhs, ExprType::Num) && spec_link_free(b.rhs, ExprType::Num),
        Expr::Mul(b) => spec_link_free(b.lhs, ExprType::Num) && spec_link_free(b.rhs, ExprType::Num),
        Expr::Div(b) => spec_link_free(b.lhs, ExprType::Num) && spec_link_free(b.rhs, ExprType::Num),
        Expr::Rem(b) => spec_link_free(b.lhs, ExprType::Num) && spec_link_free(b.rhs, ExprType::Num),
        Expr::Len(b) => spec_link_free(b.inner, ExprType::Text),
        Expr::Alias(b) => spec_link_free(b.inner, ctx),
    }
}

/// Whether one branch resolves concretely under `ctx`.
pub open spec fn spec_branch_link_free(b: CaseBranch, ctx: ExprType) -> bool
    decreases b, 2int, 0int,
{
    match b.pattern {
        Some(p) => spec_link_free(p, ExprType::Bool) && spec_link_free(b.result, ctx),
        None => spec_link_free(b.result, ctx),
    }
}

/// Whether the first `n` branches all resolve concretely under `ctx`.
pub open spec fn spec_branches_link_free(c: Case, n: int, ctx: ExprType) -> bool
    decreases c, 1int, n,
    via branches_link_free_decreases
{
    if n <= 0 {
        true
    } else if n > c.branches@.len() {
        spec_branches_link_free(c, c.branches@.len() as int, ctx)
    } else {
        spec_branches_link_free(c, n - 1, ctx) && spec_branch_link_free(c.branches@[n - 1], ctx)
    }
}

#[via_fn]
proof fn branches_link_free_decreases(c: Case, n: int, ctx: ExprType) {
    if 0 < n <= c.branches@.len() {
        assert(decreases_to!(c => c.branches));
        assert(decreases_to!(c.branches => c.branches@));
        assert(decreases_to!(c.branches@ => c.branches@[n - 1]));
    }
}

/// Inside a bracket, and on any concretely typed tree, the traversal
/// emits conditions only: a linked run never nests a bracket, and a
/// concretely typed node never emits `StartLink` or `EndLink` at all.
pub proof fn lemma_messages_all_conds(e: Expr, ctx: ExprType, linked: bool)
    requires
        linked || spec_link_free(e, ctx),
    ensures
        spec_all_conds(e.spec_messages(ctx, linked)),
    decreases e, 2int, 0int,
{
    match e {
        Expr::BoolLit(_) => {}
        Expr::NumLit(_) => {}
        Expr::Col(_) => {}
        Expr::Case(c) => {
            match c.spec_resolve(ctx) {
                Ok(r) => {
                    if linked {
                        lemma_branches_all_conds(c, c.branches@.len() as int, r, linked);
                    } else {
                        lemma_branches_all_conds(c, c.branches@.len() as int, r, linked);
                    }
                }
                Err(_) => {}
            }
        }
        Expr::Eq(b) => {
            lemma_messages_all_conds(b.lhs, b.kind, linked);
            lemma_messages_all_conds(b.rhs, b.kind, linked);
            lemma_all_conds_concat(b.lhs.spec_messages(b.kind, linked), b.rhs.spec_messages(b.kind, linked));
        }
        Expr::Neq(b) => {
            lemma_messages_all_conds(b.lhs, b.kind, linked);
            lemma_messages_all_conds(b.rhs, b.kind, linked);
            lemma_all_conds_concat(b.lhs.spec_messages(b.kind, linked), b.rhs.spec_messages(b.kind, linked));
        }
        Expr::Gt(b) => {
            lemma_messages_all_conds(b.lhs, ExprType::Num, linked);
            lemma_messages_all_conds(b.rhs, ExprType::Num, linked);
            lemma_all_conds_concat(b.lhs.spec_messages(ExprType::Num, linked), b.rhs.spec_messages(ExprType::Num, linked));
        }
        Expr::Geq(b) => {
            lemma_messages_all_conds(b.lhs, ExprType::Num, linked);
            lemma_messages_all_conds(b.rhs, ExprType::Num, linked);
            lemma_all_conds_concat(b.lhs.spec_messages(ExprType::Num, linked), b.rhs.spec_messages(ExprType::Num, linked));
        }
        Expr::Lt(b) => {
            lemma_messages_all_conds(b.lhs, ExprType::Num, linked);
            lemma_messages_all_conds(b.rhs, ExprType::Num, linked);
            lemma_all_conds_concat(b.lhs.spec_messages(ExprType::Num, linked), b.rhs.spec_messages(ExprType::Num, linked));
        }
        Expr::Leq(b) => {
            lemma_messages_all_conds(b.lhs, ExprType::Num, linked);
            lemma_messages_all_conds(b.rhs, ExprType::Num, linked);
            lemma_all_conds_concat(b.lhs.spec_messages(ExprType::Num, linked), b.rhs.spec_messages(ExprType::Num, linked));
        }
        Expr::Between(b) => {
            lemma_messages_all_conds(b.inner, ExprType::Num, linked);
            lemma_messages_all_conds(b.lower, ExprType::Num, linked);
            lemma_messages_all_conds(b.upper, ExprType::Num, linked);
            lemma_all_conds_concat(b.inner.spec_messages(ExprType::Num, linked), b.lower.spec_messages(ExprType::Num, linked));
            lemma_all_conds_concat(
                b.inner.spec_messages(ExprType::Num, linked) + b.lower.spec_messages(ExprType::Num, linked),
                b.upper.spec_messages(ExprType::Num, linked),
            );
        }
        Expr::And(b) => {
            lemma_messages_all_conds(b.lhs, ExprType::Bool, linked);
            lemma_messages_all_conds(b.rhs, ExprType::Bool, linked);
            lemma_all_conds_concat(b.lhs.spec_messages(ExprType::Bool, linked), b.rhs.spec_messages(ExprType::Bool, linked));
        }
        Expr::Or(b) => {
            lemma_messages_all_conds(b.lhs, ExprType::Bool, linked);
            lemma_messages_all_conds(b.rhs, ExprType::Bool, linked);
            lemma_all_conds_concat(b.lhs.spec_messages(ExprType::Bool, linked), b.rhs.spec_messages(ExprType::Bool, linked));
        }
        Expr::Not(b) => {
            lemma_messages_all_conds(b.inner, ExprType::Bool, linked);
        }
        Expr::Add(b) => {
            lemma_messages_all_conds(b.lhs, ExprType::Num, linked);
            lemma_messages_all_conds(b.rhs, ExprType::Num, linked);
            lemma_all_conds_concat(b.lhs.spec_messages(ExprType::Num, linked), b.rhs.spec_messages(ExprType::Num, linked));
        }
        Expr::Sub(b) => {
            lemma_messages_all_conds(b.lhs, ExprType::Num, linked);
            lemma_messages_all_conds(b.rhs, ExprType::Num, linked);
            lemma_all_conds_concat(b.lhs.spec_messages(ExprType::Num, linked), b.rhs.spec_messages(ExprType::Num, linked));
        }
        Expr::Mul(b) => {
            lemma_messages_all_conds(b.lhs, ExprType::Num, linked);
            lemma_messages_all_conds(b.rhs, ExprType::Num, linked);
            lemma_all_conds_concat(b.lhs.spec_messages(ExprType::Num, linked), b.rhs.spec_messages(ExprType::Num, linked));
        }
        Expr::Div(b) => {
            lemma_messages_all_conds(b.lhs, ExprType::Num, linked);
            lemma_messages_all_conds(b.rhs, ExprType::Num, linked);
            lemma_all_conds_concat(b.lhs.spec_messages(ExprType::Num, linked), b.rhs.spec_messages(ExprType::Num, linked));
        }
        Expr::Rem(b) => {
            lemma_messages_all_conds(b.lhs, ExprType::Num, linked);
            lemma_messages_all_conds(b.rhs, ExprType::Num, linked);
            lemma_all_conds_concat(b.lhs.spec_messages(ExprType::Num, linked), b.rhs.spec_messages(ExprType::Num, linked));
        }
        Expr::Len(b) => {
            lemma_messages_all_conds(b.inner, ExprType::Text, linked);
        }
        Expr::Alias(b) => {
            lemma_messages_all_conds(b.inner, ctx, linked);
        }
    }
}

proof fn lemma_branch_all_conds(b: CaseBranch, ctx: ExprType, linked: bool)
    requires
        linked || spec_branch_link_free(b, ctx),
    ensures
        spec_all_conds(b.spec_messages(ctx, linked)),
    decreases b, 2int, 0int,
{
    match b.pattern {
        Some(p) => {
            lemma_messages_all_conds(p, ExprType::Bool, linked);
            lemma_messages_all_conds(b.result, ctx, linked);
            lemma_all_conds_concat(p.spec_messages(ExprType::Bool, linked), b.result.spec_messages(ctx, linked));
        }
        None => {
            lemma_messages_all_conds(b.result, ctx, linked);
        }
    }
}

proof fn lemma_branches_all_conds(c: Case, n: int, ctx: ExprType, linked: bool)
    requires
        linked || spec_branches_link_free(c, n, ctx),
    ensures
        spec_all_conds(Case::spec_branch_messages(c, n, ctx, linked)),
    decreases c, 1int, n,
{
    if n <= 0 {
    } else if n > c.branches@.len() {
        lemma_branches_all_conds(c, c.branches@.len() as int, ctx, linked);
    } else {
        lemma_branches_all_conds(c, n - 1, ctx, linked);
        assert(decreases_to!(c => c.branches));
        assert(decreases_to!(c.branches => c.branches@));
        assert(decreases_to!(c.branches@ => c.branches@[n - 1]));
        lemma_branch_all_conds(c.branches@[n - 1], ctx, linked);
        lemma_all_conds_concat(
            Case::spec_branch_messages(c, n - 1, ctx, linked),
            c.branches@[n - 1].spec_messages(ctx, linked),
        );
    }
}

/// A concretely typed tree never emits `StartLink` or `EndLink`: its
/// whole stream is conditions.
pub proof fn lemma_concrete_tree_emits_no_links(e: Expr, ctx: ExprType)
    requires
        spec_link_free(e, ctx),
    ensures
        spec_all_conds(e.spec_messages(ctx, false)),
{
    lemma_messages_all_conds(e, ctx, false);
}

/// A bare column reference traversed in an `Any` context emits exactly
/// one matched `StartLink`/`EndLink` pair bracketing its one condition.
pub proof fn lemma_bare_column_brackets(c: super::Col)
    ensures
        Expr::Col(c).spec_messages(ExprType::Any, false) == seq![
            Message::Sig(Signal::StartLink),
            Message::Cond(Condition::ColumnExistsAndType(c.name, ExprType::Any)),
            Message::Sig(Signal::EndLink),
        ],
{
}

/// A fully ambiguous `CASE` traversed in an `Any` context emits exactly
/// one matched `StartLink`/`EndLink` pair bracketing all of its
/// descendants' messages, which are conditions only.
pub proof fn lemma_ambiguous_case_brackets(c: Case)
    requires
        forall|i: int| 0 <= i < c.branches@.len()
            ==> #[trigger] c.branches@[i].spec_eval_type() == ExprType::Any,
    ensures
        ({
            let msgs = Expr::Case(c).spec_messages(ExprType::Any, false);
            let inner = Case::spec_branch_messages(c, c.branches@.len() as int, ExprType::Any, true);
            &&& msgs == seq![Message::Sig(Signal::StartLink)] + inner + seq![Message::Sig(Signal::EndLink)]
            &&& msgs.len() == inner.len() + 2
            &&& msgs[0] == Message::Sig(Signal::StartLink)
            &&& msgs[msgs.len() - 1] == Message::Sig(Signal::EndLink)
            &&& forall|i: int| 1 <= i < msgs.len() - 1 ==> spec_is_cond(#[trigger] msgs[i])
        }),
{
    lemma_case_all_any(c);
    let inner = Case::spec_branch_messages(c, c.branches@.len() as int, ExprType::Any, true);
    lemma_branches_all_conds(c, c.branches@.len() as int, ExprType::Any, true);
    let msgs = Expr::Case(c).spec_messages(ExprType::Any, false);
    assert(msgs == seq![Message::Sig(Signal::StartLink)] + inner + seq![Message::Sig(Signal::EndLink)]);
    assert forall|i: int| 1 <= i < msgs.len() - 1 implies spec_is_cond(msgs[i]) by {
        assert(msgs[i] == inner[i - 1]);
    }
    assert(msgs[msgs.len() - 1] == Message::Sig(Signal::EndLink));
}


/// Mapping a concatenation maps each part.
proof fn lemma_map_cond_concat(a: Seq<Condition>, b: Seq<Condition>)
    ensures
        (a + b).map_values(|c: Condition| Message::Cond(c))
            == a.map_values(|c: Condition| Message::Cond(c))
                + b.map_values(|c: Condition| Message::Cond(c)),
{
    assert((a + b).map_values(|c: Condition| Message::Cond(c))
        =~= a.map_values(|c: Condition| Message::Cond(c))
            + b.map_values(|c: Condition| Message::Cond(c)));
}

/// The two views of one tree agree: inside a linked run, the message
/// stream is exactly the condition list, each condition wrapped as a
/// message and nothing else added.
pub proof fn lemma_linked_messages_are_conditions(e: Expr, ctx: ExprType)
    ensures
        e.spec_messages(ctx, true)
            == e.spec_conditions(ctx).map_values(|c: Condition| Message::Cond(c)),
    decreases e, 2int, 0int,
{
    let wrap = |c: Condition| Message::Cond(c);
    match e {
        Expr::BoolLit(_) => {
            assert(e.spec_messages(ctx, true) =~= e.spec_conditions(ctx).map_values(wrap));
        }
        Expr::NumLit(_) => {
            assert(e.spec_messages(ctx, true) =~= e.spec_conditions(ctx).map_values(wrap));
        }
        Expr::Col(_) => {
            assert(e.spec_messages(ctx, true) =~= e.spec_conditions(ctx).map_values(wrap));
        }
        Expr::Case(c) => {
            match c.spec_resolve(ctx) {
                Ok(r) => {
                    lemma_linked_branches_are_conditions(c, c.branches@.len() as int, r);
                }
                Err(_) => {
                    assert(e.spec_messages(ctx, true) =~= e.spec_conditions(ctx).map_values(wrap));
                }
            }
        }
        Expr::Eq(b) => {
            lemma_linked_messages_are_conditions(b.lhs, b.kind);
            lemma_linked_messages_are_conditions(b.rhs, b.kind);
            lemma_map_cond_concat(b.lhs.spec_conditions(b.kind), b.rhs.spec_conditions(b.kind));
        }
        Expr::Neq(b) => {
            lemma_linked_messages_are_conditions(b.lhs, b.kind);
            lemma_linked_messages_are_conditions(b.rhs, b.kind);
            lemma_map_cond_concat(b.lhs.spec_conditions(b.kind), b.rhs.spec_conditions(b.kind));
        }
        Expr::Gt(b) => {
            lemma_linked_messages_are_conditions(b.lhs, ExprType::Num);
            lemma_linked_messages_are_conditions(b.rhs, ExprType::Num);
            lemma_map_cond_concat(b.lhs.spec_conditions(ExprType::Num), b.rhs.spec_conditions(ExprType::Num));
        }
        Expr::Geq(b) => {
            lemma_linked_messages_are_conditions(b.lhs, ExprType::Num);
            lemma_linked_messages_are_conditions(b.rhs, ExprType::Num);
            lemma_map_cond_concat(b.lhs.spec_conditions(ExprType::Num), b.rhs.spec_conditions(ExprType::Num));
        }
        Expr::Lt(b) => {
            lemma_linked_messages_are_conditions(b.lhs, ExprType::Num);
            lemma_linked_messages_are_conditions(b.rhs, ExprType::Num);
            lemma_map_cond_concat(b.lhs.spec_conditions(ExprType::Num), b.rhs.spec_conditions(ExprType::Num));
        }
        Expr::Leq(b) => {
            lemma_linked_messages_are_conditions(b.lhs, ExprType::Num);
            lemma_linked_messages_are_conditions(b.rhs, ExprType::Num);
            lemma_map_cond_concat(b.lhs.spec_conditions(ExprType::Num), b.rhs.spec_conditions(ExprType::Num));
        }
        Expr::Between(b) => {
            lemma_linked_messages_are_conditions(b.inner, ExprType::Num);
            lemma_linked_messages_are_conditions(b.lower, ExprType::Num);
            lemma_linked_messages_are_conditions(b.upper, ExprType::Num);
            lemma_map_cond_concat(b.inner.spec_conditions(ExprType::Num), b.lower.spec_conditions(ExprType::Num));
            lemma_map_cond_concat(
                b.inner.spec_conditions(ExprType::Num) + b.lower.spec_conditions(ExprType::Num),
                b.upper.spec_conditions(ExprType::Num),
            );
        }
        Expr::And(b) => {
            lemma_linked_messages_are_conditions(b.lhs, ExprType::Bool);
            lemma_linked_messages_are_conditions(b.rhs, ExprType::Bool);
            lemma_map_cond_concat(b.lhs.spec_conditions(ExprType::Bool), b.rhs.spec_conditions(ExprType::Bool));
        }
        Expr::Or(b) => {
            lemma_linked_messages_are_conditions(b.lhs, ExprType::Bool);
            lemma_linked_messages_are_conditions(b.rhs, ExprType::Bool);
            lemma_map_cond_concat(b.lhs.spec_conditions(ExprType::Bool), b.rhs.spec_conditions(ExprType::Bool));
        }
        Expr::Not(b) => {
            lemma_linked_messages_are_conditions(b.inner, ExprType::Bool);
        }
        Expr::Add(b) => {
            lemma_linked_messages_are_conditions(b.lhs, ExprType::Num);
            lemma_linked_messages_are_conditions(b.rhs, ExprType::Num);
            lemma_map_cond_concat(b.lhs.spec_conditions(ExprType::Num), b.rhs.spec_conditions(ExprType::Num));
        }
        Expr::Sub(b) => {
            lemma_linked_messages_are_conditions(b.lhs, ExprType::Num);
            lemma_linked_messages_are_conditions(b.rhs, ExprType::Num);
            lemma_map_cond_concat(b.lhs.spec_conditions(ExprType::Num), b.rhs.spec_conditions(ExprType::Num));
        }
        Expr::Mul(b) => {
            lemma_linked_messages_are_conditions(b.lhs, ExprType::Num);
            lemma_linked_messages_are_conditions(b.rhs, ExprType::Num);
            lemma_map_cond_concat(b.lhs.spec_conditions(ExprType::Num), b.rhs.spec_conditions(ExprType::Num));
        }
        Expr::Div(b) => {
            lemma_linked_messages_are_conditions(b.lhs, ExprType::Num);
            lemma_linked_messages_are_conditions(b.rhs, ExprType::Num);
            lemma_map_cond_concat(b.lhs.spec_conditions(ExprType::Num), b.rhs.spec_conditions(ExprType::Num));
        }
        Expr::Rem(b) => {
            lemma_linked_messages_are_conditions(b.lhs, ExprType::Num);
            lemma_linked_messages_are_conditions(b.rhs, ExprType::Num);
            lemma_map_cond_concat(b.lhs.spec_conditions(ExprType::Num), b.rhs.spec_conditions(ExprType::Num));
        }
        Expr::Len(b) => {
            lemma_linked_messages_are_conditions(b.inner, ExprType::Text);
        }
        Expr::Alias(b) => {
            lemma_linked_messages_are_conditions(b.inner, ctx);
        }
    }
}

proof fn lemma_linked_branch_is_conditions(b: CaseBranch, ctx: ExprType)
    ensures
        b.spec_messages(ctx, true)
            == b.spec_conditions(ctx).map_values(|c: Condition| Message::Cond(c)),
    decreases b, 2int, 0int,
{
    match b.pattern {
        Some(p) => {
            lemma_linked_messages_are_conditions(p, ExprType::Bool);
            lemma_linked_messages_are_conditions(b.result, ctx);
            lemma_map_cond_concat(p.spec_conditions(ExprType::Bool), b.result.spec_conditions(ctx));
        }
        None => {
            lemma_linked_messages_are_conditions(b.result, ctx);
        }
    }
}

proof fn lemma_linked_branches_are_conditions(c: Case, n: int, ctx: ExprType)
    ensures
        Case::spec_branch_messages(c, n, ctx, true)
            == Case::spec_branch_conditions(c, n, ctx).map_values(|x: Condition| Message::Cond(x)),
    decreases c, 1int, n,
{
    let wrap = |x: Condition| Message::Cond(x);
    if n <= 0 {
        assert(Case::spec_branch_messages(c, n, ctx, true)
            =~= Case::spec_branch_conditions(c, n, ctx).map_values(wrap));
    } else if n > c.branches@.len() {
        lemma_linked_branches_are_conditions(c, c.branches@.len() as int, ctx);
    } else {
        lemma_linked_branches_are_conditions(c, n - 1, ctx);
        assert(decreases_to!(c => c.branches));
        assert(decreases_to!(c.branches => c.branches@));
        assert(decreases_to!(c.branches@ => c.branches@[n - 1]));
        lemma_linked_branch_is_conditions(c.branches@[n - 1], ctx);
        lemma_map_cond_concat(
            Case::spec_branch_conditions(c, n - 1, ctx),
            c.branches@[n - 1].spec_conditions(ctx),
        );
    }
}

} // verus!
