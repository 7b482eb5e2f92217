//! A small query-expression library: callers build an in-memory tree of
//! comparisons, boolean logic, arithmetic, `CASE`/`WHEN` forms and column
//! references, validate the tree against a schema through a message
//! protocol, and render it to SQL text.
//!
//! The heart of the crate is the lattice of evaluation types
//! ([`expr::ExprType`]) together with the unification algorithm that
//! resolves ambiguous (`Any`-typed) nodes, the traversal protocol that
//! walks a tree and emits validation facts in linked groups, and the
//! checkers that consume those facts against a column schema.

pub mod checker;
pub mod expr;
pub mod ir;
pub mod protocol;
pub mod reader;
pub mod schema;
pub mod writer;
