//! The general interface between expression trees and checkers.
//!
//! The relation is client/server: a tree node (client) pushes
//! [`Message`]s into a sink (server), which accumulates or validates them.
//! A server's whole observable behaviour is a function of the sequence of
//! messages it has accepted, so the contracts here speak only of that
//! sequence.

use vstd::prelude::*;
use crate::checker::message::Message;
use crate::expr::ExprType;

verus! {

/// A sink for [`Message`]s.
pub trait Server {
    /// The server's internal consistency; established by its constructors
    /// and preserved by every operation.
    spec fn wf(&self) -> bool;

    /// The sequence of messages accepted so far.
    spec fn accepted(&self) -> Seq<Message>;

    /// Receive and process one message.
    fn accept(&mut self, msg: Message)
        requires
            old(self).wf(),
        ensures
            final(self).wf(),
            final(self).accepted() == old(self).accepted().push(msg),
    ;
}

/// The handling side of a server: report validity and start over.
pub trait ServerHandler: Server {
    /// Whether the messages accepted so far describe a valid tree.
    spec fn valid(&self) -> bool;

    /// Report the server's state: `Ok` exactly when no defect was found.
    fn state(&self) -> (r: Result<(), ()>)
        requires
            self.wf(),
        ensures
            r is Ok <==> self.valid(),
    ;

    /// Clear the server's state for reuse.
    fn reset(&mut self)
        ensures
            final(self).wf(),
            final(self).accepted() == Seq::<Message>::empty(),
    ;
}

/// A source of validation messages: a node that can report its own,
/// non-recursive facts for a given coercion context.
pub trait Client {
    /// The node's own facts, excluding those of its children.
    spec fn own_messages(&self, ctx: ExprType) -> Seq<Message>;

    /// Report the node's own facts for the given context.
    fn messages(&self, ctx: ExprType) -> (r: Vec<Message>)
        ensures
            r@ == self.own_messages(ctx),
    ;
}

/// A type that can be pushed through validation.
pub trait Checkable: Client {

}

/// A type that can check [`Checkable`] trees: a message sink that also
/// reports validity.
pub trait Checker: ServerHandler {

}

/// A server that records every message unchanged, for inspecting what a
/// traversal emits.
pub struct MessageLog {
    entries: Vec<Message>,
}

impl MessageLog {
    /// An empty log.
    pub fn new() -> (r: MessageLog)
        ensures
            r.wf(),
            r.accepted() == Seq::<Message>::empty(),
    {
        MessageLog { entries: Vec::new() }
    }

    /// The recorded messages, oldest first.
    pub fn entries(&self) -> (r: &Vec<Message>)
        ensures
            r@ == self.accepted(),
    {
        &self.entries
    }
}

impl Server for MessageLog {
    /// A log is always consistent.
    open spec fn wf(&self) -> bool {
        true
    }

    closed spec fn accepted(&self) -> Seq<Message> {
        self.entries@
    }

    fn accept(&mut self, msg: Message) {
        self.entries.push(msg);
    }
}

impl ServerHandler for MessageLog {
    /// A log never judges: it is valid as long as it records.
    open spec fn valid(&self) -> bool {
        true
    }

    fn state(&self) -> (r: Result<(), ()>) {
        Ok(())
    }

    fn reset(&mut self) {
        self.entries.clear();
    }
}

} // verus!
