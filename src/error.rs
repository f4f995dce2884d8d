use vstd::prelude::*;

verus! {

/// Why a handler invocation failed.
#[derive(Clone, Debug, PartialEq, Eq)]
pub enum HandlerError {
    /// The caller's input was missing or malformed.
    BadRequest(String),
    /// The result could not be produced or encoded.
    InternalError(String),
}

impl HandlerError {
    /// The human-readable message carried by the error.
    pub fn message(&self) -> (r: &String)
        ensures
            r == match self {
                HandlerError::BadRequest(m) => m,
                HandlerError::InternalError(m) => m,
            },
    {
        match self {
            HandlerError::BadRequest(m) => m,
            HandlerError::InternalError(m) => m,
        }
    }
}

} // verus!
