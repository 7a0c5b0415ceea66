//! The failures a conversation call can surface.

use vstd::prelude::*;

verus! {

/// An error surfaced to the caller. Nothing is silently swallowed: every
/// failure of a call is one of these.
#[derive(Debug, Clone, PartialEq, Eq)]
pub enum Error {
    /// The cookie endpoint offered no usable `set-cookie` header.
    NoCookieFound,
    /// The transport failed; carries the transport's own message.
    TransportError(String),
    /// The response body was not valid text.
    DecodeError,
    /// The response body was empty.
    EmptyResponse,
    /// The attempt got a sentinel answer instead of a real one.
    BadResponse(String),
    /// The retry with a fresh cookie also got a sentinel answer.
    BadResponseAfterRetrying(String),
}

/// The mathematical shape of an [`Error`], with text as character sequences.
pub enum ErrorSpec {
    NoCookieFound,
    TransportError(Seq<char>),
    DecodeError,
    EmptyResponse,
    BadResponse(Seq<char>),
    BadResponseAfterRetrying(Seq<char>),
}

impl View for Error {
    type V = ErrorSpec;

    open spec fn view(&self) -> ErrorSpec {
        match self {
            Error::NoCookieFound => ErrorSpec::NoCookieFound,
            Error::TransportError(s) => ErrorSpec::TransportError(s@),
            Error::DecodeError => ErrorSpec::DecodeError,
            Error::EmptyResponse => ErrorSpec::EmptyResponse,
            Error::BadResponse(s) => ErrorSpec::BadResponse(s@),
            Error::BadResponseAfterRetrying(s) => ErrorSpec::BadResponseAfterRetrying(s@),
        }
    }
}

} // verus!
