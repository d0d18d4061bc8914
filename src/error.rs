//! The failure kinds shared by the library and its backends.
use vstd::prelude::*;

verus! {

/// Why an operation of the queue failed.
#[derive(Debug, Clone, PartialEq, Eq)]
pub enum Error {
    /// The transport or the store failed.
    IO(String),
    /// A payload could not be decoded.
    JsonError(String),
    /// The backend does not offer the operation.
    NotSupported(String),
    /// A backend-specific failure, opaque to the core.
    OtherError(String),
    /// Anything else, tagged with a message.
    UnknownError(String),
}

/// The message that an error carries.
pub open spec fn error_text(e: Error) -> Seq<char> {
    match e {
        Error::IO(t) => t@,
        Error::JsonError(t) => t@,
        Error::NotSupported(t) => t@,
        Error::OtherError(t) => t@,
        Error::UnknownError(t) => t@,
    }
}

impl Error {
    /// A copy of the error.
    pub fn clone_error(&self) -> (r: Error)
        ensures
            r == *self,
    {
        match self {
            Error::IO(t) => Error::IO(t.clone()),
            Error::JsonError(t) => Error::JsonError(t.clone()),
            Error::NotSupported(t) => Error::NotSupported(t.clone()),
            Error::OtherError(t) => Error::OtherError(t.clone()),
            Error::UnknownError(t) => Error::UnknownError(t.clone()),
        }
    }

    /// The message that the error carries, without its kind.
    pub fn message(&self) -> (r: String)
        ensures
            r@ == error_text(*self),
    {
        match self {
            Error::IO(t) => t.clone(),
            Error::JsonError(t) => t.clone(),
            Error::NotSupported(t) => t.clone(),
            Error::OtherError(t) => t.clone(),
            Error::UnknownError(t) => t.clone(),
        }
    }
}

} // verus!
