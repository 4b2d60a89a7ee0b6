//! Boundary model of the storage collaborator: the error type it
//! supplies, with the distinguished transient-retry tag from which all
//! retryability decisions are derived.

use vstd::prelude::*;
use vstd::string::*;

verus! {

/// An error reported by the storage layer. `Retry` is the distinguished
/// transient condition: the operation failed for a reason that is safe
/// to re-attempt. Every other tag is permanent.
#[derive(Debug, PartialEq, Eq)]
pub enum StorageError {
    /// A transient failure; re-attempting the operation may succeed.
    Retry(String),
    /// The connection to the storage backend was lost.
    ConnectionLost(String),
    /// The storage backend returned data in an unexpected shape.
    UnexpectedData(String),
    /// The storage backend is in an inconsistent state.
    Dirty(String),
}

impl StorageError {
    /// Whether this cause carries the transient-retry tag.
    pub open spec fn spec_is_retry(&self) -> bool {
        self matches StorageError::Retry(_)
    }

    /// The message this cause renders as.
    pub open spec fn spec_render(&self) -> Seq<char> {
        match self {
            StorageError::Retry(msg) => "retryable storage failure: "@ + msg@,
            StorageError::ConnectionLost(msg) => "storage connection lost: "@ + msg@,
            StorageError::UnexpectedData(msg) => "unexpected data in storage: "@ + msg@,
            StorageError::Dirty(msg) => "dirty storage state: "@ + msg@,
        }
    }

    /// Renders the cause for diagnostics.
    pub fn render(&self) -> (r: String)
        ensures
            r@ == self.spec_render(),
    {
        let (prefix, msg) = match self {
            StorageError::Retry(msg) => ("retryable storage failure: ", msg),
            StorageError::ConnectionLost(msg) => ("storage connection lost: ", msg),
            StorageError::UnexpectedData(msg) => ("unexpected data in storage: ", msg),
            StorageError::Dirty(msg) => ("dirty storage state: ", msg),
        };
        let mut r = String::from_str(prefix);
        r.append(msg.as_str());
        r
    }
}

} // verus!
