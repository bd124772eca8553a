//! The error taxonomy of the client.

use vstd::prelude::*;

verus! {

/// Every operation fails in exactly one of three ways.
///
/// - `Transport`: the network call itself could not complete; the payload is
///   a human-readable description of the failure.
/// - `Response`: the remote service answered, but with a status code other
///   than the one the operation expects. The fields are the HTTP status
///   code, a type tag derived from the response, and a message drawn from
///   the response body.
/// - `Decode`: the status code matched, but the response body did not parse
///   into the expected shape; the payload describes the parse failure.
///
/// Errors are always surfaced to the caller immediately: there is no retry,
/// no partial success and no silent default.
#[derive(Debug, Clone, PartialEq)]
pub enum PineconeError {
    Transport(String),
    Response(u16, String, String),
    Decode(String),
}

impl PineconeError {
    /// The HTTP status code, where the remote service produced one.
    pub fn status(&self) -> (r: Option<u16>)
        ensures
            r == (match *self {
                PineconeError::Response(code, _, _) => Some(code),
                _ => None::<u16>,
            }),
    {
        match self {
            PineconeError::Response(code, _, _) => Some(*code),
            _ => None,
        }
    }
}

} // verus!
