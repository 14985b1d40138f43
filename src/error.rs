use vstd::prelude::*;

verus! {

/// Every failure that a workflow or a request can end in.
#[derive(Debug)]
pub enum Error {
    /// The identity store could not be reached or refused a statement.
    MySQLError(String),
    /// The HTTP transport failed before a status line was read.
    HTTPError(String),
    /// A body could not be read as the JSON that was expected.
    JSONError(String),
    /// A mapping for the key exists already.
    AlreadyExists,
    /// A local identifier has no mapping.
    NotFound,
    /// The upstream API answered with a status outside 2xx.
    UpstreamError(u16, String),
    /// Any other failure, with a fixed description.
    SomeError(&'static str),
}

pub type GMResult<T> = Result<T, Error>;

/// The status an error answers an inbound request with, before the
/// framework checks that it is a status it knows.
pub open spec fn status_of(e: Error) -> u16 {
    match e {
        Error::AlreadyExists => 409,
        Error::NotFound => 404,
        Error::UpstreamError(code, _) => code,
        _ => 500,
    }
}

impl Error {
    pub fn upstream(code: u16, reason: String) -> (r: Error)
        ensures
            r == Error::UpstreamError(code, reason),
    {
        Error::UpstreamError(code, reason)
    }

    pub fn new(reason: &'static str) -> (r: Error)
        ensures
            r == Error::SomeError(reason),
    {
        Error::SomeError(reason)
    }

    /// Conflict for a duplicate, not-found for a missing identifier, the
    /// upstream status for an upstream failure, and a server error otherwise.
    pub fn status_code(&self) -> (r: u16)
        ensures
            r == status_of(*self),
    {
        match self {
            Error::AlreadyExists => 409,
            Error::NotFound => 404,
            Error::UpstreamError(code, _) => *code,
            _ => 500,
        }
    }

    /// The body sent with the status: the upstream message for an upstream
    /// failure, nothing otherwise.
    pub fn message(&self) -> (r: Option<String>)
        ensures
            match *self {
                Error::UpstreamError(_, m) => r matches Some(b) && b@ == m@,
                _ => r is None,
            },
    {
        match self {
            Error::UpstreamError(_, m) => Some(m.clone()),
            _ => None,
        }
    }
}

/// Whether an HTTP status is a success.
pub open spec fn is_success(status: u16) -> bool {
    200 <= status <= 299
}

/// Turns an upstream answer into the body on a 2xx status and into an
/// upstream failure, carrying the status and the body, on any other.
pub fn check_status(status: u16, body: String) -> (r: GMResult<String>)
    ensures
        is_success(status) ==> r == Ok::<String, Error>(body),
        !is_success(status) ==> r == Err::<String, Error>(Error::UpstreamError(status, body)),
{
    if 200 <= status && status <= 299 {
        Ok(body)
    } else {
        Err(Error::UpstreamError(status, body))
    }
}

} // verus!
