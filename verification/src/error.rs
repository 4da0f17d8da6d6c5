//! Error taxonomy of the session core.
//!
//! Gate rejections (`EmptyQuery`, `WriteOrUnsafeQuery`) are raised before any
//! backend call; connection and execution failures carry the cause reported
//! by the backend driver, never the password.

use vstd::prelude::*;

verus! {

/// Everything that can go wrong in the connection/session layer.
#[derive(Debug)]
pub enum QgoError {
    /// The connect handshake did not finish before the caller's bound.
    ConnectTimeout,
    /// The backend rejected the connection attempt before the bound elapsed.
    ConnectionFailed(String),
    /// The query text was empty after trimming.
    EmptyQuery,
    /// The trimmed query does not start with an allowed read-only keyword.
    WriteOrUnsafeQuery,
    /// The backend reported a failure while running an accepted query.
    ExecutionFailed(String),
    /// No stored profile matches the requested name or id.
    ProfileNotFound(String),
}

impl QgoError {
    /// A short human-readable label for the error kind.
    pub fn kind_label(&self) -> (r: &'static str)
        ensures
            r@ == match self {
                QgoError::ConnectTimeout => "connection timed out"@,
                QgoError::ConnectionFailed(_) => "connection failed"@,
                QgoError::EmptyQuery => "query cannot be empty"@,
                QgoError::WriteOrUnsafeQuery => "only read-only queries are allowed"@,
                QgoError::ExecutionFailed(_) => "query execution failed"@,
                QgoError::ProfileNotFound(_) => "connection not found"@,
            },
    {
        match self {
            QgoError::ConnectTimeout => "connection timed out",
            QgoError::ConnectionFailed(_) => "connection failed",
            QgoError::EmptyQuery => "query cannot be empty",
            QgoError::WriteOrUnsafeQuery => "only read-only queries are allowed",
            QgoError::ExecutionFailed(_) => "query execution failed",
            QgoError::ProfileNotFound(_) => "connection not found",
        }
    }
}

} // verus!
