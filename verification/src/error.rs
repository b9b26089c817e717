//! The error taxonomy of the service and its mapping to wire-level
//! status codes, messages and storage failures.

use vstd::prelude::*;

verus! {

/// The kinds of failure a handler can report to a client.
#[derive(Clone, Copy, Debug, PartialEq, Eq, Structural)]
pub enum Error {
    InternalError,
    BadClientData,
    Timeout,
    NotFound,
}

/// What the storage layer reports back to a handler, reduced to the two
/// outcomes the handlers distinguish: the requested row was absent, or
/// the statement failed for any other reason.
#[derive(Clone, Copy, Debug, PartialEq, Eq, Structural)]
pub enum StorageError {
    RowNotFound,
    Other,
}

impl Error {
    /// The HTTP status code this error is reported with.
    pub open spec fn spec_status_code(self) -> u16 {
        match self {
            Error::InternalError => 500,
            Error::BadClientData => 400,
            Error::Timeout => 504,
            Error::NotFound => 404,
        }
    }

    /// The fixed short message sent in the response body: no detail of
    /// the underlying failure is ever exposed.
    pub open spec fn spec_message(self) -> Seq<char> {
        match self {
            Error::InternalError => "internal error"@,
            Error::BadClientData => "bad request"@,
            Error::Timeout => "timeout"@,
            Error::NotFound => "not found"@,
        }
    }

    pub fn status_code(&self) -> (c: u16)
        ensures
            c == self.spec_status_code(),
    {
        match *self {
            Error::InternalError => 500,
            Error::BadClientData => 400,
            Error::Timeout => 504,
            Error::NotFound => 404,
        }
    }

    pub fn message(&self) -> (m: String)
        ensures
            m@ == self.spec_message(),
    {
        match *self {
            Error::InternalError => "internal error".to_owned(),
            Error::BadClientData => "bad request".to_owned(),
            Error::Timeout => "timeout".to_owned(),
            Error::NotFound => "not found".to_owned(),
        }
    }

    /// How a storage failure surfaces to the client: an absent row is
    /// not-found, every other failure is a generic internal error.
    pub fn from_storage(e: StorageError) -> (r: Error)
        ensures
            r == (match e {
                StorageError::RowNotFound => Error::NotFound,
                StorageError::Other => Error::InternalError,
            }),
    {
        match e {
            StorageError::RowNotFound => Error::NotFound,
            StorageError::Other => Error::InternalError,
        }
    }
}

} // verus!
