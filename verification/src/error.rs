//! The errors of the identifier core.

use vstd::prelude::*;
use vstd::string::StringExecFns;

verus! {

/// What can go wrong while producing an identifier.
#[derive(Debug, PartialEq, Eq)]
pub enum UuidError {
    /// The secure random source could not be opened or did not yield 16 bytes.
    /// Carries the cause.
    EntropyError(String),
    /// The data does not have the shape of an identifier. No operation of this
    /// library raises it; it is there for callers that validate before calling.
    InvalidFormat(String),
}

impl UuidError {
    /// The message: a prefix that names the kind, then the cause.
    pub open spec fn message(&self) -> Seq<char> {
        match self {
            UuidError::EntropyError(cause) => "Entropy error: "@ + cause@,
            UuidError::InvalidFormat(cause) => "Invalid format: "@ + cause@,
        }
    }

    /// Renders the error for display.
    pub fn to_string(&self) -> (text: String)
        ensures
            text@ == self.message(),
    {
        let mut text = String::new();
        match self {
            UuidError::EntropyError(cause) => {
                text.append("Entropy error: ");
                text.append(cause.as_str());
            },
            UuidError::InvalidFormat(cause) => {
                text.append("Invalid format: ");
                text.append(cause.as_str());
            },
        }
        text
    }
}

impl Clone for UuidError {
    fn clone(&self) -> (copy: UuidError)
        ensures
            copy == *self,
    {
        match self {
            UuidError::EntropyError(cause) => UuidError::EntropyError(cause.clone()),
            UuidError::InvalidFormat(cause) => UuidError::InvalidFormat(cause.clone()),
        }
    }
}

} // verus!
