//! The single error type of the connection.
//!
//! Every failure the blocking request/response lifecycle can surface is a
//! variant here: sequencing mistakes (`NoRequest`, `NoResponse`), rejected
//! request construction (`UnsupportedMethod`, `InvalidHeaderName`,
//! `InvalidHeaderValue`, `Http`), and the transport-level failures that the
//! surrounding application maps into the taxonomy (`Io`, `Hyper`, `Client`,
//! `RuntimeCreation`).

use crate::method::Method;
use vstd::prelude::*;

verus! {

/// The unified error of the connection.
#[derive(Debug, PartialEq, Eq)]
pub enum HyperError {
    /// An underlying I/O failure, reported by the transport layer.
    Io(String),
    /// A request could not be constructed; carries the malformed URI.
    Http(String),
    /// A protocol-level failure, reported by the transport layer.
    Hyper(String),
    /// A client or connector failure, reported by the transport layer.
    Client(String),
    /// The asynchronous runtime backing the transport could not be created.
    RuntimeCreation(String),
    /// A request was initiated with a method outside the supported set;
    /// carries the rejected method.
    UnsupportedMethod(Method),
    /// A response was required but none has been received.
    NoResponse,
    /// A request operation was attempted with no request initiated.
    NoRequest,
    /// A header name broke the wire-format rules; carries the name.
    InvalidHeaderName(String),
    /// A header value broke the wire-format rules; carries the value.
    InvalidHeaderValue(String),
}

} // verus!
