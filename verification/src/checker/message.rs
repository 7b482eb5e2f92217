//! The vocabulary exchanged between an expression tree and a checker.

use vstd::prelude::*;
use crate::expr::ExprType;

verus! {

/// A fact that must hold externally (of a schema) for a tree to be valid.
#[derive(Debug, PartialEq, Eq)]
pub enum Condition {
    /// The named column must exist in the schema.
    ColumnExists(String),
    /// The named column must exist and admit the given type; `Any` asks
    /// only for existence, with the concrete type left to a linked group.
    ColumnExistsAndType(String, ExprType),
    /// The branches of a `CASE` resolved to the two given incompatible
    /// types; such a tree is invalid whatever the schema says.
    CaseReturnTypeMismatch((ExprType, ExprType)),
}

/// A control or diagnostic unit, distinct from a schema fact.
#[derive(Debug, PartialEq, Eq)]
pub enum Signal {
    /// Opens a linked group: the conditions up to the matching `EndLink`
    /// must be resolved as one unit.
    StartLink,
    /// Closes a linked group.
    EndLink,
    /// Mismatch of expression types, as `(expected, found)`.
    TypeMismatch((ExprType, ExprType)),
}

/// The unit exchanged between nodes and a checker: a condition or a signal.
/// No other data crosses that boundary.
#[derive(Debug, PartialEq, Eq)]
pub enum Message {
    Cond(Condition),
    Sig(Signal),
}

impl From<Condition> for Message {
    /// Wrap a condition as a message.
    fn from(cond: Condition) -> (r: Message) {
        Message::Cond(cond)
    }
}

impl vstd::std_specs::convert::FromSpecImpl<Condition> for Message {
    open spec fn obeys_from_spec() -> bool {
        true
    }

    open spec fn from_spec(cond: Condition) -> Message {
        Message::Cond(cond)
    }
}

impl From<Signal> for Message {
    /// Wrap a signal as a message.
    fn from(sig: Signal) -> (r: Message) {
        Message::Sig(sig)
    }
}

impl vstd::std_specs::convert::FromSpecImpl<Signal> for Message {
    open spec fn obeys_from_spec() -> bool {
        true
    }

    open spec fn from_spec(sig: Signal) -> Message {
        Message::Sig(sig)
    }
}

} // verus!
