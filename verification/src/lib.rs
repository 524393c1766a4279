//! Query execution core of a small key/value database server.
//!
//! The library takes an already-parsed query (an abstract syntax tree) and a
//! session context, validates the tree's shape against the grammar of a small
//! administrative/data query language, and decides which storage or
//! user-management operation to run. It turns every outcome — success,
//! malformed query, or storage-layer failure — into a uniform response that a
//! protocol layer can serialize.
//!
//! The storage engine itself is an external collaborator: the executor plans a
//! [`engine::Command`], the surrounding program performs it, and
//! [`engine::respond`] maps what the storage reported back into the uniform
//! response shape.

pub mod ast;
pub mod engine;
pub mod laws;
pub mod permission;
pub mod query;
pub mod response;
