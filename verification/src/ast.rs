//! The abstract syntax tree consumed by the executor.
//!
//! A query arrives as one [`ASTNode`], produced by an external parser and
//! already syntactically valid. The executor performs only *semantic* shape
//! validation: the right keyword/verb/argument combination.

use vstd::prelude::*;

verus! {

/// A structured scalar or document value carried by a query or returned by
/// storage.
#[derive(Debug, PartialEq)]
pub enum Value {
    Null,
    Bool(bool),
    Int(i64),
    Str(String),
    Array(Vec<Value>),
    Document(Vec<(String, Value)>),
}

/// The query's primary operation selector.
#[derive(Debug, Clone, Copy, PartialEq, Eq)]
pub enum Keywords {
    Insert,
    Update,
    Delete,
    Get,
    List,
}

/// A secondary selector distinguishing administrative target kinds inside a
/// monadic expression.
#[derive(Debug, Clone, Copy, PartialEq, Eq)]
pub enum Verbs {
    User,
    Database,
}

/// One node of a parsed query.
#[derive(Debug)]
pub enum ASTNode {
    /// "put `value` into `target`": insert or update of a keyed value.
    IntoExpression { keyword: Keywords, value: Box<ASTNode>, target: Box<ASTNode> },
    /// "`keyword` `verb` [args]": administrative operations on users or
    /// databases.
    MonadicExpression { keyword: Keywords, verb: Verbs, args: Option<Vec<ASTNode>> },
    /// "`keyword` `target`": get, delete or list of a keyed value.
    SingleExpression { keyword: Keywords, target: Option<Box<ASTNode>> },
    /// A bare name: a key, a username, or a database name.
    Identifier(String),
    /// A structured scalar/document value.
    Literal(Value),
    /// `field = value`, used only inside administrative argument lists.
    AssignmentExpression { field_name: String, value: Box<ASTNode> },
}

} // verus!
