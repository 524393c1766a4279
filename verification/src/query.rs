//! Errors produced by the query parser, ahead of execution.
//!
//! The executor never produces these: an AST that reaches it has already
//! passed syntactic validation. They are part of the shared error model so
//! that the protocol layer can report parser failures alongside execution
//! failures.

use vstd::prelude::*;

verus! {

/// The kinds of failure the query parser can report.
#[derive(Debug)]
pub enum QueryErrorType {
    SyntaxError,
}

/// A parser-level error: its kind and a human-readable message.
#[derive(Debug)]
pub struct QueryError(pub QueryErrorType, pub String);

} // verus!
