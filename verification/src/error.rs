//! The failure kinds a search can surface.

use vstd::prelude::*;

verus! {

/// What went wrong with a search. Every failure is one of three kinds, so a
/// caller can branch on it: the options could not be encoded as a query
/// string, the transport could not complete the request, or the response body
/// could not be decoded into the response model.
#[derive(Debug, Clone)]
pub enum Error {
    /// The search options could not be represented as a query string.
    /// The encoder in this crate is total, so it never produces this kind;
    /// it remains part of the error contract for callers.
    EncodingError,
    /// The network request could not be completed, or came back with a
    /// non-success status; carries the transport's own description.
    TransportError(String),
    /// The response body was not well-formed JSON, or did not match the
    /// expected shape (a required field missing or of the wrong type).
    DecodingError,
}

impl Error {
    /// True for the transport failure kind.
    pub fn is_transport(&self) -> (r: bool)
        ensures
            r == (self is TransportError),
    {
        match self {
            Error::TransportError(_) => true,
            _ => false,
        }
    }

    /// True for the decoding failure kind.
    pub fn is_decoding(&self) -> (r: bool)
        ensures
            r == (self is DecodingError),
    {
        match self {
            Error::DecodingError => true,
            _ => false,
        }
    }
}

} // verus!
