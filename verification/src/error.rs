//! The request-level error type: how any failure surfaces to an HTTP
//! caller.

use vstd::prelude::*;

verus! {

#[verifier::external_type_specification]
#[verifier::external_body]
pub struct ExIoError(std::io::Error);

/// Relies on `std::io::Error::kind`: whether this error reports a
/// missing file or resource.
#[verifier::external_body]
fn io_error_is_not_found(e: &std::io::Error) -> (r: bool) {
    matches!(e.kind(), std::io::ErrorKind::NotFound)
}

/// Relies on std's `format!` with `{:?}`: renders any debuggable value
/// for a diagnostic message.
#[verifier::external_body]
fn debug_string<E: core::fmt::Debug>(e: &E) -> (r: String) {
    format!("{:?}", e)
}

/// A request-level failure and the diagnostic it carries.
#[derive(Debug, Clone, PartialEq)]
pub enum Error {
    /// The requested resource does not exist.
    NotFound,
    /// The request itself is at fault; carries a diagnostic.
    BadRequest(String),
    /// The server is at fault; carries a diagnostic.
    Internal(String),
}

impl Error {
    /// Wraps any debuggable failure as a client fault.
    pub fn bad_request<E: core::fmt::Debug>(e: E) -> (r: Error)
        ensures
            r is BadRequest,
    {
        Error::BadRequest(debug_string(&e))
    }

    /// Wraps any debuggable failure as a server fault.
    pub fn internal<E: core::fmt::Debug>(e: E) -> (r: Error)
        ensures
            r is Internal,
    {
        Error::Internal(debug_string(&e))
    }

    /// The classification decision itself, over plain values: a
    /// missing file or resource is `NotFound`, anything else a server
    /// fault carrying the diagnostic.
    pub fn from_io_kind(not_found: bool, diagnostic: String) -> (r: Error)
        ensures
            if not_found {
                r == Error::NotFound
            } else {
                r == Error::Internal(diagnostic)
            },
    {
        if not_found {
            Error::NotFound
        } else {
            Error::Internal(diagnostic)
        }
    }

    /// Classifies an I/O failure: a missing file is `NotFound`,
    /// anything else is a server fault. The error's kind is read by a
    /// trusted call; the mapping from it is [`Error::from_io_kind`].
    pub fn from_io(e: std::io::Error) -> (r: Error)
        ensures
            r is NotFound || r is Internal,
    {
        let not_found = io_error_is_not_found(&e);
        let diagnostic = debug_string(&e);
        Error::from_io_kind(not_found, diagnostic)
    }

    /// The HTTP status code this error answers with.
    pub fn status_code(&self) -> (code: u16)
        ensures
            self is NotFound ==> code == 404,
            self is BadRequest ==> code == 400,
            self is Internal ==> code == 500,
    {
        match self {
            Error::NotFound => 404,
            Error::BadRequest(_) => 400,
            Error::Internal(_) => 500,
        }
    }
}

} // verus!
