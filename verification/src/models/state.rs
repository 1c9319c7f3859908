//! What the application state can fail with when it is built.
use vstd::prelude::*;

verus! {

/// The application state (its HTTP client) could not be created.
#[derive(Debug, Clone, Copy, PartialEq, Eq)]
pub struct CreateAppStateError;

impl CreateAppStateError {
    /// The text this error displays as.
    pub fn to_string(&self) -> (s: String)
        ensures
            s@ == "CreateAppStateError"@,
    {
        String::from_str("CreateAppStateError")
    }
}

} // verus!
