//! The uniform result shape handed back to the protocol layer, and the
//! transaction-level failures that arrive from the storage interface.

use vstd::prelude::*;

use crate::ast::Value;

verus! {

/// Wire-level outcome codes returned to the protocol layer.
#[derive(Debug, Clone, Copy, PartialEq, Eq)]
pub enum Status {
    Success,
    InvalidQuery,
    NotFound,
    AlreadyExists,
}

/// Header of a successful response.
#[derive(Debug, Clone, PartialEq)]
pub struct ResHeader {
    pub is_error: bool,
    pub messages: Option<Vec<String>>,
    pub status: Status,
}

/// A successful execution result: an optional body and a header.
#[derive(Debug, PartialEq)]
pub struct Response {
    pub body: Option<Value>,
    pub header: ResHeader,
}

/// A failed execution result, safe to report verbatim to the caller.
#[derive(Debug, Clone, PartialEq)]
pub struct Error {
    pub message: String,
    pub query_message: Option<String>,
    pub status: Status,
}

/// The storage engine's internal error codes, mapped to wire statuses by the
/// executor's fixed translation table.
#[derive(Debug, Clone, Copy, PartialEq, Eq)]
pub enum ErrorCode {
    KeyExists,
    KeyNotExists,
    NotFound,
}

/// A failed storage-interface call: either an internal failure carrying a
/// storage error code, or an external failure that already resolved to a
/// status and message.
#[derive(Debug, Clone, PartialEq)]
pub enum TransactionError {
    InternalError(ErrorCode),
    ExternalError(Status, String),
}

} // verus!
