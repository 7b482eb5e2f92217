//! Checkers: stateful consumers of the validation message stream.
//!
//! Two checkers share the [`crate::protocol`] contract.  A
//! [`DerivedChecker`] starts from an empty column table and grows it from
//! the `ColumnExistsAndType` facts it observes; a fact about an
//! already-seen column must unify with the recorded binding, else it is a
//! defect.  A [`CompiledChecker`] validates every fact read-only against a
//! fixed, externally supplied [`CompiledSchema`].
//!
//! Both run the same link state machine: `StartLink` opens a group,
//! conditions inside the group are buffered, and `EndLink` resolves the
//! whole group as one unit.  The group rule chosen here: the `Any`-typed
//! facts of the group, each resolved through the column table known at
//! close time, must unify to one type `g`; disagreement is one defect.
//! Every buffered `Any`-typed fact is then applied as if it had asked for
//! `g`, and concretely typed facts are applied unchanged.  Defects are
//! recorded, never thrown: the checker keeps accepting and reports
//! through `state`.

pub mod message;

pub use message::{Condition, Message, Signal};

use vstd::prelude::*;
use crate::expr::ExprType;
use crate::protocol::{Checker, Server, ServerHandler};
use crate::schema::{binds_view, lemma_derived_view, spec_lookup, spec_update, Binds, CompiledSchema, DerivedSchema};

verus! {

/// The buffered conditions of an open linked group, oldest first; `None`
/// when no group is open.
pub type Pending = Option<Seq<Condition>>;

/// The type a buffered fact contributes to its group: only an
/// `Any`-typed fact takes part, resolved through the column table when
/// the column is already known; everything else contributes the neutral
/// `Any`.
pub open spec fn spec_group_type(binds: Binds, c: Condition) -> ExprType {
    match c {
        Condition::ColumnExistsAndType(n, t) => if t == ExprType::Any {
            match spec_lookup(binds, n@) {
                Some(b) => b,
                None => ExprType::Any,
            }
        } else {
            ExprType::Any
        },
        _ => ExprType::Any,
    }
}

/// The fold of the group types of the first `n` buffered facts.
pub open spec fn spec_group_fold(binds: Binds, p: Seq<Condition>, n: int) -> Result<ExprType, (ExprType, ExprType)>
    decreases n,
{
    if n <= 0 {
        Ok(ExprType::Any)
    } else if n > p.len() {
        spec_group_fold(binds, p, p.len() as int)
    } else {
        match spec_group_fold(binds, p, n - 1) {
            Ok(acc) => ExprType::spec_try_fold(acc, spec_group_type(binds, p[n - 1])),
            Err(e) => Err(e),
        }
    }
}

/// A buffered fact as it is applied after its group resolved to `g`: an
/// `Any`-typed fact is upgraded to ask for `g`.
pub open spec fn spec_substitute(c: Condition, g: ExprType) -> Condition {
    match c {
        Condition::ColumnExistsAndType(n, t) => if t == ExprType::Any {
            Condition::ColumnExistsAndType(n, g)
        } else {
            Condition::ColumnExistsAndType(n, t)
        },
        _ => c,
    }
}

// --- The derived checker's transition relation ---

/// One fact applied to the derived checker's growing table: unseen
/// columns are bound, seen columns must unify, a `CASE` mismatch is a
/// defect.  Returns the new table and defect list.
pub open spec fn d_apply(binds: Binds, defects: Seq<Message>, c: Condition) -> (Binds, Seq<Message>) {
    match c {
        Condition::ColumnExists(n) => match spec_lookup(binds, n@) {
            Some(_) => (binds, defects),
            None => (binds.push((n@, ExprType::Any)), defects),
        },
        Condition::ColumnExistsAndType(n, t) => match spec_lookup(binds, n@) {
            None => (binds.push((n@, t)), defects),
            Some(b) => match ExprType::spec_try_fold(b, t) {
                Ok(u) => (spec_update(binds, n@, u), defects),
                Err(_) => (binds, defects.push(Message::Cond(c))),
            },
        },
        Condition::CaseReturnTypeMismatch(_) => (binds, defects.push(Message::Cond(c))),
    }
}

/// The first `n` buffered facts of a closed group applied in order, each
/// upgraded to the group type `g`.
pub open spec fn d_apply_group(binds: Binds, defects: Seq<Message>, p: Seq<Condition>, n: int, g: ExprType) -> (Binds, Seq<Message>)
    decreases n,
{
    if n <= 0 {
        (binds, defects)
    } else if n > p.len() {
        d_apply_group(binds, defects, p, p.len() as int, g)
    } else {
        let prev = d_apply_group(binds, defects, p, n - 1, g);
        d_apply(prev.0, prev.1, spec_substitute(p[n - 1], g))
    }
}

/// A whole group closed against the derived table: resolve the group
/// type, record one `TypeMismatch` defect when the group disagrees, then
/// apply every buffered fact.
pub open spec fn d_close(binds: Binds, defects: Seq<Message>, p: Seq<Condition>) -> (Binds, Seq<Message>) {
    match spec_group_fold(binds, p, p.len() as int) {
        Ok(g) => d_apply_group(binds, defects, p, p.len() as int, g),
        Err(e) => d_apply_group(binds, defects.push(Message::Sig(Signal::TypeMismatch(e))), p, p.len() as int, ExprType::Any),
    }
}

/// The derived checker's full state: column table, open group, defects.
pub type DState = (Binds, Pending, Seq<Message>);

/// The derived checker's state before any message.
pub open spec fn d_init() -> DState {
    (Seq::empty(), None, Seq::empty())
}

/// The derived checker's transition: buffer conditions while a group is
/// open, apply them directly otherwise; signals drive the group machine,
/// and an unmatched signal is a defect.
pub open spec fn d_step(s: DState, m: Message) -> DState {
    match m {
        Message::Cond(c) => match s.1 {
            Some(p) => (s.0, Some(p.push(c)), s.2),
            None => {
                let r = d_apply(s.0, s.2, c);
                (r.0, None, r.1)
            }
        },
        Message::Sig(Signal::StartLink) => match s.1 {
            None => (s.0, Some(Seq::empty()), s.2),
            Some(p) => (s.0, Some(p), s.2.push(m)),
        },
        Message::Sig(Signal::EndLink) => match s.1 {
            Some(p) => {
                let r = d_close(s.0, s.2, p);
                (r.0, None, r.1)
            }
            None => (s.0, None, s.2.push(m)),
        },
        Message::Sig(Signal::TypeMismatch(_)) => (s.0, s.1, s.2.push(m)),
    }
}

/// The derived checker's state after a whole message sequence.
pub open spec fn d_run(msgs: Seq<Message>) -> DState
    decreases msgs.len(),
{
    if msgs.len() == 0 {
        d_init()
    } else {
        d_step(d_run(msgs.drop_last()), msgs.last())
    }
}

// --- The compiled checker's transition relation ---

/// One fact checked read-only against a fixed schema: a missing column,
/// an incompatible type, and a `CASE` mismatch are defects.
pub open spec fn c_apply(schema: Binds, defects: Seq<Message>, c: Condition) -> Seq<Message> {
    match c {
        Condition::ColumnExists(n) => match spec_lookup(schema, n@) {
            Some(_) => defects,
            None => defects.push(Message::Cond(c)),
        },
        Condition::ColumnExistsAndType(n, t) => match spec_lookup(schema, n@) {
            None => defects.push(Message::Cond(c)),
            Some(b) => match ExprType::spec_try_fold(b, t) {
                Ok(_) => defects,
                Err(_) => defects.push(Message::Cond(c)),
            },
        },
        Condition::CaseReturnTypeMismatch(_) => defects.push(Message::Cond(c)),
    }
}

/// The first `n` buffered facts of a closed group checked in order
/// against the schema, each upgraded to the group type `g`.
pub open spec fn c_apply_group(schema: Binds, defects: Seq<Message>, p: Seq<Condition>, n: int, g: ExprType) -> Seq<Message>
    decreases n,
{
    if n <= 0 {
        defects
    } else if n > p.len() {
        c_apply_group(schema, defects, p, p.len() as int, g)
    } else {
        c_apply(schema, c_apply_group(schema, defects, p, n - 1, g), spec_substitute(p[n - 1], g))
    }
}

/// A whole group closed against the fixed schema.
pub open spec fn c_close(schema: Binds, defects: Seq<Message>, p: Seq<Condition>) -> Seq<Message> {
    match spec_group_fold(schema, p, p.len() as int) {
        Ok(g) => c_apply_group(schema, defects, p, p.len() as int, g),
        Err(e) => c_apply_group(schema, defects.push(Message::Sig(Signal::TypeMismatch(e))), p, p.len() as int, ExprType::Any),
    }
}

/// The compiled checker's mutable state: open group and defects (the
/// schema itself is never written).
pub type CState = (Pending, Seq<Message>);

/// The compiled checker's state before any message.
pub open spec fn c_init() -> CState {
    (None, Seq::empty())
}

/// The compiled checker's transition, with the same link machine as the
/// derived one.
pub open spec fn c_step(schema: Binds, s: CState, m: Message) -> CState {
    match m {
        Message::Cond(c) => match s.0 {
            Some(p) => (Some(p.push(c)), s.1),
            None => (None, c_apply(schema, s.1, c)),
        },
        Message::Sig(Signal::StartLink) => match s.0 {
            None => (Some(Seq::empty()), s.1),
            Some(p) => (Some(p), s.1.push(m)),
        },
        Message::Sig(Signal::EndLink) => match s.0 {
            Some(p) => (None, c_close(schema, s.1, p)),
            None => (None, s.1.push(m)),
        },
        Message::Sig(Signal::TypeMismatch(_)) => (s.0, s.1.push(m)),
    }
}

/// The compiled checker's state after a whole message sequence.
pub open spec fn c_run(schema: Binds, msgs: Seq<Message>) -> CState
    decreases msgs.len(),
{
    if msgs.len() == 0 {
        c_init()
    } else {
        c_step(schema, c_run(schema, msgs.drop_last()), msgs.last())
    }
}

// --- Exec helpers shared by both checkers ---

/// The group type of one buffered fact, resolved through `binds`.
fn group_type(binds: &Vec<(String, ExprType)>, c: &Condition) -> (r: ExprType)
    ensures
        r == spec_group_type(binds_view(binds@), *c),
{
    match c {
        Condition::ColumnExistsAndType(n, t) => {
            if matches!(t, ExprType::Any) {
                match DerivedSchema::find_in(binds, n) {
                    Some(b) => b,
                    None => ExprType::Any,
                }
            } else {
                ExprType::Any
            }
        }
        _ => ExprType::Any,
    }
}

/// Resolve the group type of a whole buffered group.
#[verifier::loop_isolation(false)]
fn group_fold(binds: &Vec<(String, ExprType)>, p: &Vec<Condition>) -> (r: Result<ExprType, (ExprType, ExprType)>)
    ensures
        r == spec_group_fold(binds_view(binds@), p@, p@.len() as int),
{
    let mut acc = ExprType::Any;
    let n = p.len();
    for i in 0..n
        invariant
            n == p@.len(),
            spec_group_fold(binds_view(binds@), p@, i as int) == Ok::<ExprType, (ExprType, ExprType)>(acc),
    {
        match ExprType::try_fold(acc, group_type(binds, &p[i])) {
            Ok(t) => {
                acc = t;
            }
            Err(e) => {
                assert(spec_group_fold(binds_view(binds@), p@, i as int + 1)
                    == Err::<ExprType, (ExprType, ExprType)>(e));
                proof {
                    lemma_group_fold_err(binds_view(binds@), p@, i as int + 1, p@.len() as int);
                }
                return Err(e);
            }
        }
    }
    Ok(acc)
}

/// Once a group fold fails at some prefix, it fails the same way for
/// every longer prefix.
proof fn lemma_group_fold_err(binds: Binds, p: Seq<Condition>, n: int, m: int)
    requires
        0 <= n <= m <= p.len(),
        spec_group_fold(binds, p, n) is Err,
    ensures
        spec_group_fold(binds, p, m) == spec_group_fold(binds, p, n),
    decreases m - n,
{
    if m > n {
        lemma_group_fold_err(binds, p, n, m - 1);
    }
}

/// A buffered fact upgraded to the group type, as an exec value.
fn substitute(c: Condition, g: ExprType) -> (r: Condition)
    ensures
        r == spec_substitute(c, g),
{
    match c {
        Condition::ColumnExistsAndType(n, t) => {
            if matches!(t, ExprType::Any) {
                Condition::ColumnExistsAndType(n, g)
            } else {
                Condition::ColumnExistsAndType(n, t)
            }
        }
        c2 => c2,
    }
}

/// Apply one fact to a derived table and defect list.
fn derived_apply(binds: &mut Vec<(String, ExprType)>, defects: &mut Vec<Message>, c: Condition)
    ensures
        (binds_view(final(binds)@), final(defects)@)
            == d_apply(binds_view(old(binds)@), old(defects)@, c),
{
    match c {
        Condition::ColumnExists(n) => {
            match DerivedSchema::find_in(binds, &n) {
                Some(_) => {}
                None => {
                    binds.push((n, ExprType::Any));
                    proof {
                        assert(binds_view(binds@)
                            =~= binds_view(old(binds)@).push((c->ColumnExists_0@, ExprType::Any)));
                    }
                }
            }
        }
        Condition::ColumnExistsAndType(n, t) => {
            match DerivedSchema::find_in(binds, &n) {
                None => {
                    binds.push((n, t));
                    proof {
                        assert(binds_view(binds@)
                            =~= binds_view(old(binds)@).push((c->ColumnExistsAndType_0@, t)));
                    }
                }
                Some(b) => {
                    match ExprType::try_fold(b, t) {
                        Ok(u) => {
                            DerivedSchema::update_in(binds, &n, u);
                        }
                        Err(_) => {
                            defects.push(Message::Cond(Condition::ColumnExistsAndType(n, t)));
                        }
                    }
                }
            }
        }
        Condition::CaseReturnTypeMismatch(e) => {
            defects.push(Message::Cond(Condition::CaseReturnTypeMismatch(e)));
        }
    }
}

/// Apply a whole closed group to a derived table and defect list.
#[verifier::loop_isolation(false)]
fn derived_close(binds: &mut Vec<(String, ExprType)>, defects: &mut Vec<Message>, p: Vec<Condition>)
    ensures
        (binds_view(final(binds)@), final(defects)@)
            == d_close(binds_view(old(binds)@), old(defects)@, p@),
{
    let g = match group_fold(binds, &p) {
        Ok(g) => g,
        Err(e) => {
            defects.push(Message::Sig(Signal::TypeMismatch(e)));
            ExprType::Any
        }
    };
    let n = p.len();
    let ghost p0 = p@;
    let ghost binds0 = binds_view(binds@);
    let ghost defects0 = defects@;
    for i in 0..n
        invariant
            n == p0.len(),
            p@ == p0,
            (binds_view(binds@), defects@) == d_apply_group(binds0, defects0, p0, i as int, g),
    {
        let c = substitute(p[i].clone_cond(), g);
        derived_apply(binds, defects, c);
    }
}

impl Condition {
    /// An explicit copy of a condition, used when a buffered group is
    /// replayed.
    pub fn clone_cond(&self) -> (r: Condition)
        ensures
            r == *self,
    {
        match self {
            Condition::ColumnExists(n) => Condition::ColumnExists(n.clone()),
            Condition::ColumnExistsAndType(n, t) => Condition::ColumnExistsAndType(n.clone(), *t),
            Condition::CaseReturnTypeMismatch(e) => Condition::CaseReturnTypeMismatch(*e),
        }
    }
}

/// Check one fact read-only against a compiled schema.
fn compiled_apply(schema: &CompiledSchema, defects: &mut Vec<Message>, c: Condition)
    ensures
        final(defects)@ == c_apply(schema@, old(defects)@, c),
{
    match c {
        Condition::ColumnExists(n) => {
            match schema.find(&n) {
                Some(_) => {}
                None => {
                    defects.push(Message::Cond(Condition::ColumnExists(n)));
                }
            }
        }
        Condition::ColumnExistsAndType(n, t) => {
            match schema.find(&n) {
                None => {
                    defects.push(Message::Cond(Condition::ColumnExistsAndType(n, t)));
                }
                Some(b) => {
                    match ExprType::try_fold(b, t) {
                        Ok(_) => {}
                        Err(_) => {
                            defects.push(Message::Cond(Condition::ColumnExistsAndType(n, t)));
                        }
                    }
                }
            }
        }
        Condition::CaseReturnTypeMismatch(e) => {
            defects.push(Message::Cond(Condition::CaseReturnTypeMismatch(e)));
        }
    }
}

/// Check a whole closed group read-only against a compiled schema.
#[verifier::loop_isolation(false)]
fn compiled_close(schema: &CompiledSchema, defects: &mut Vec<Message>, p: Vec<Condition>)
    ensures
        final(defects)@ == c_close(schema@, old(defects)@, p@),
{
    let g = match group_fold(schema.raw(), &p) {
        Ok(g) => g,
        Err(e) => {
            defects.push(Message::Sig(Signal::TypeMismatch(e)));
            ExprType::Any
        }
    };
    let n = p.len();
    let ghost p0 = p@;
    let ghost defects0 = defects@;
    for i in 0..n
        invariant
            n == p0.len(),
            p@ == p0,
            defects@ == c_apply_group(schema@, defects0, p0, i as int, g),
    {
        let c = substitute(p[i].clone_cond(), g);
        compiled_apply(schema, defects, c);
    }
}

// --- The checkers themselves ---

/// A checker that infers its column table from the facts it observes.
pub struct DerivedChecker {
    schema: DerivedSchema,
    pending: Option<Vec<Condition>>,
    defects: Vec<Message>,
    history: Ghost<Seq<Message>>,
}

impl DerivedChecker {
    spec fn model(self) -> DState {
        (
            self.schema@,
            match self.pending {
                Some(p) => Some(p@),
                None => None,
            },
            self.defects@,
        )
    }

    /// A fresh checker with an empty inferred table.
    pub fn new() -> (r: DerivedChecker)
        ensures
            r.wf(),
            r.accepted() == Seq::<Message>::empty(),
    {
        DerivedChecker {
            schema: DerivedSchema::new(),
            pending: None,
            defects: Vec::new(),
            history: Ghost(Seq::empty()),
        }
    }

    /// The column table inferred so far.
    pub fn schema(&self) -> (r: &DerivedSchema)
        requires
            self.wf(),
        ensures
            r@ == d_run(self.accepted()).0,
    {
        &self.schema
    }
}

impl Server for DerivedChecker {
    /// The exec state mirrors the run of the transition relation over the
    /// accepted messages.
    closed spec fn wf(&self) -> bool {
        self.model() == d_run(self.history@)
    }

    closed spec fn accepted(&self) -> Seq<Message> {
        self.history@
    }

    fn accept(&mut self, msg: Message) {
        let ghost h0 = self.history@;
        proof {
            self.history@ = h0.push(msg);
            assert(d_run(h0.push(msg)) == d_step(d_run(h0), msg)) by {
                assert(h0.push(msg).drop_last() =~= h0);
            }
        }
        match msg {
            Message::Cond(c) => {
                match &mut self.pending {
                    Some(p) => {
                        p.push(c);
                    }
                    None => {
                        proof { lemma_derived_view(old(self).schema); }
                        derived_apply(&mut self.schema.binds, &mut self.defects, c);
                        proof { lemma_derived_view(self.schema); }
                    }
                }
            }
            Message::Sig(Signal::StartLink) => {
                if self.pending.is_none() {
                    self.pending = Some(Vec::new());
                    proof {
                        assert(self.model().1 == Some(Seq::<Condition>::empty()));
                    }
                } else {
                    self.defects.push(Message::Sig(Signal::StartLink));
                }
            }
            Message::Sig(Signal::EndLink) => {
                match self.pending.take() {
                    Some(p) => {
                        proof { lemma_derived_view(old(self).schema); }
                        derived_close(&mut self.schema.binds, &mut self.defects, p);
                        proof { lemma_derived_view(self.schema); }
                    }
                    None => {
                        self.defects.push(Message::Sig(Signal::EndLink));
                    }
                }
            }
            Message::Sig(Signal::TypeMismatch(e)) => {
                self.defects.push(Message::Sig(Signal::TypeMismatch(e)));
            }
        }
    }
}

impl ServerHandler for DerivedChecker {
    /// The messages accepted so far describe a valid tree when they
    /// produced no defect.
    open spec fn valid(&self) -> bool {
        d_run(self.accepted()).2.len() == 0
    }

    fn state(&self) -> (r: Result<(), ()>) {
        if self.defects.is_empty() {
            Ok(())
        } else {
            Err(())
        }
    }

    fn reset(&mut self) {
        self.schema = DerivedSchema::new();
        self.pending = None;
        self.defects = Vec::new();
        proof {
            self.history@ = Seq::empty();
        }
    }
}

impl Checker for DerivedChecker {

}

/// A checker that validates facts against a fixed schema, read-only.
pub struct CompiledChecker {
    schema: CompiledSchema,
    pending: Option<Vec<Condition>>,
    defects: Vec<Message>,
    history: Ghost<Seq<Message>>,
}

impl CompiledChecker {
    spec fn model(self) -> CState {
        (
            match self.pending {
                Some(p) => Some(p@),
                None => None,
            },
            self.defects@,
        )
    }

    /// The fixed schema this checker validates against.
    pub closed spec fn spec_schema(&self) -> Binds {
        self.schema@
    }

    /// A fresh checker over the given schema.
    pub fn new(schema: CompiledSchema) -> (r: CompiledChecker)
        ensures
            r.wf(),
            r.accepted() == Seq::<Message>::empty(),
            r.spec_schema() == schema@,
    {
        CompiledChecker {
            schema,
            pending: None,
            defects: Vec::new(),
            history: Ghost(Seq::empty()),
        }
    }
}

impl Server for CompiledChecker {
    /// The exec state mirrors the run of the transition relation over the
    /// accepted messages, against the fixed schema.
    closed spec fn wf(&self) -> bool {
        self.model() == c_run(self.schema@, self.history@)
    }

    closed spec fn accepted(&self) -> Seq<Message> {
        self.history@
    }

    fn accept(&mut self, msg: Message) {
        let ghost h0 = self.history@;
        proof {
            self.history@ = h0.push(msg);
            assert(c_run(self.schema@, h0.push(msg)) == c_step(self.schema@, c_run(self.schema@, h0), msg)) by {
                assert(h0.push(msg).drop_last() =~= h0);
            }
        }
        match msg {
            Message::Cond(c) => {
                match &mut self.pending {
                    Some(p) => {
                        p.push(c);
                    }
                    None => {
                        compiled_apply(&self.schema, &mut self.defects, c);
                    }
                }
            }
            Message::Sig(Signal::StartLink) => {
                if self.pending.is_none() {
                    self.pending = Some(Vec::new());
                    proof {
                        assert(self.model().0 == Some(Seq::<Condition>::empty()));
                    }
                } else {
                    self.defects.push(Message::Sig(Signal::StartLink));
                }
            }
            Message::Sig(Signal::EndLink) => {
                match self.pending.take() {
                    Some(p) => {
                        compiled_close(&self.schema, &mut self.defects, p);
                    }
                    None => {
                        self.defects.push(Message::Sig(Signal::EndLink));
                    }
                }
            }
            Message::Sig(Signal::TypeMismatch(e)) => {
                self.defects.push(Message::Sig(Signal::TypeMismatch(e)));
            }
        }
    }
}

impl ServerHandler for CompiledChecker {
    /// The messages accepted so far describe a valid tree when they
    /// produced no defect against the schema.
    open spec fn valid(&self) -> bool {
        c_run(self.spec_schema(), self.accepted()).1.len() == 0
    }

    fn state(&self) -> (r: Result<(), ()>) {
        if self.defects.is_empty() {
            Ok(())
        } else {
            Err(())
        }
    }

    fn reset(&mut self) {
        self.pending = None;
        self.defects = Vec::new();
        proof {
            self.history@ = Seq::empty();
        }
    }
}

impl Checker for CompiledChecker {

}

} // verus!
