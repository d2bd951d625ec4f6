//! Errors of the service.

use crate::actions::Actions;
use tokio::sync::broadcast::error::SendError;
use vstd::prelude::*;

verus! {

/// The ways in which the service can fail a request.
#[derive(Debug)]
pub enum KVError {
    /// The store cannot serve the request.
    Unavailable { reason: String },
    /// The change feed did not take a record.
    WALChannelError { source: SendError<Actions> },
}

impl KVError {
    /// The message shown for the error. It is the same for every kind: a
    /// caller outside learns only that the store is unavailable.
    pub fn to_string(&self) -> (message: String)
        ensures
            message@ == "data store unavailable"@,
    {
        String::from_str("data store unavailable")
    }
}

} // verus!
