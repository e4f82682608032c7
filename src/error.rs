//! The ways a command can fail.
use vstd::prelude::*;

verus! {

/// Why a command stopped. Every kind ends the command; none is retried.
#[derive(Clone, Debug, PartialEq)]
pub enum ExplorerError {
    /// A malformed address, signature or slot; no remote call was made.
    InvalidIdentifier(String),
    /// The endpoint answered with an error or could not be reached.
    RemoteQueryFailed(String),
    /// The preference file could not be written.
    PersistenceFailed(String),
}

impl ExplorerError {
    /// The message printed after `ERROR:`.
    pub fn message(&self) -> (r: String)
        ensures
            r@ == match self {
                ExplorerError::InvalidIdentifier(m) => m@,
                ExplorerError::RemoteQueryFailed(m) => m@,
                ExplorerError::PersistenceFailed(m) => m@,
            },
    {
        match self {
            ExplorerError::InvalidIdentifier(m) => m.clone(),
            ExplorerError::RemoteQueryFailed(m) => m.clone(),
            ExplorerError::PersistenceFailed(m) => m.clone(),
        }
    }
}

} // verus!
