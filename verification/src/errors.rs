//! The error of a request that carries no valid session.

use vstd::prelude::*;

verus! {

/// A request was made without the right to make it.
#[derive(Clone, Copy, Debug, PartialEq, Eq, Structural)]
pub struct AuthError;

impl AuthError {
    /// The sentence shown to the client.
    pub fn message(&self) -> (text: String)
        ensures
            text@ == "Unauthorized attempt"@,
    {
        "Unauthorized attempt".to_owned()
    }

    /// The old-style description, kept for callers that still ask for it.
    pub fn description(&self) -> (text: &'static str)
        ensures
            text@ == "description() is deprecated; use Display"@,
    {
        "description() is deprecated; use Display"
    }
}

} // verus!
