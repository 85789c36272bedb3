//! The closed error taxonomy shared by every component.
//!
//! Every fallible operation of the crate returns exactly one of these
//! kinds; no raw native status code or foreign error value escapes.

use vstd::prelude::*;
use vstd::string::*;

verus! {

/// Errors returned by ChronDB operations.
#[derive(Debug)]
pub enum ChronDBError {
    /// Failed to set up or download the native library
    SetupFailed(String),
    /// Failed to create an isolate
    IsolateCreationFailed,
    /// Failed to open the database
    OpenFailed(String),
    /// Failed to close the database
    CloseFailed,
    /// Document not found
    NotFound,
    /// Operation failed with an error message
    OperationFailed(String),
    /// JSON serialization or deserialization error
    JsonError(String),
}

impl ChronDBError {
    /// The human-readable description of the error: a fixed phrase per
    /// kind, followed by the carried detail where there is one.
    pub fn message(&self) -> (r: String)
        ensures
            r@ == self.message_spec(),
    {
        match self {
            ChronDBError::SetupFailed(msg) => {
                let s: String = "library setup failed: ".to_owned();
                s.concat(msg.as_str())
            },
            ChronDBError::IsolateCreationFailed => "failed to create GraalVM isolate".to_owned(),
            ChronDBError::OpenFailed(msg) => {
                let s: String = "failed to open database: ".to_owned();
                s.concat(msg.as_str())
            },
            ChronDBError::CloseFailed => "failed to close database".to_owned(),
            ChronDBError::NotFound => "document not found".to_owned(),
            ChronDBError::OperationFailed(msg) => {
                let s: String = "operation failed: ".to_owned();
                s.concat(msg.as_str())
            },
            ChronDBError::JsonError(msg) => {
                let s: String = "JSON error: ".to_owned();
                s.concat(msg.as_str())
            },
        }
    }

    /// What `message` returns, at the specification level.
    pub open spec fn message_spec(&self) -> Seq<char> {
        match self {
            ChronDBError::SetupFailed(msg) => "library setup failed: "@ + msg@,
            ChronDBError::IsolateCreationFailed => "failed to create GraalVM isolate"@,
            ChronDBError::OpenFailed(msg) => "failed to open database: "@ + msg@,
            ChronDBError::CloseFailed => "failed to close database"@,
            ChronDBError::NotFound => "document not found"@,
            ChronDBError::OperationFailed(msg) => "operation failed: "@ + msg@,
            ChronDBError::JsonError(msg) => "JSON error: "@ + msg@,
        }
    }
}

} // verus!
