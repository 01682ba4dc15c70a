//! The errors that the crate reports.

use vstd::prelude::*;

verus! {

/// A session configuration that cannot be put in force.
#[derive(Debug, PartialEq, Eq)]
pub enum ConfigurationError {
    /// A header name that is no valid HTTP header name; holds the name.
    HeaderName(String),
    /// A header value that is no valid HTTP header value; holds the name of the header.
    HeaderValue(String),
    /// A proxy address that cannot be read as a URL; holds the address.
    Proxy(String),
}

/// A failure of a single request or of the preparation of a batch.
#[derive(Debug, PartialEq, Eq)]
pub enum SessionError {
    /// The method string names no supported HTTP method.
    InvalidMethod,
    /// The lists of a paired batch differ in length.
    LengthMismatch,
    /// The exchange failed in transport; holds the method and the cause.
    Request(String, String),
    /// The body could not be written to its destination; holds the cause.
    Io(String),
}

/// The ways in which decoding a response fails.
pub enum Failure {
    /// The compressed body is malformed.
    Decompress,
    /// The body is not valid UTF-8.
    Decode,
    /// The text is not a JSON document.
    Parse,
    /// A number of the document has no value as an integer or a float.
    Value,
}

/// A failure to decode a response.
#[derive(Debug, PartialEq, Eq)]
pub enum ResponseError {
    /// The compressed body is malformed; holds the decoder's message.
    Decompress(String),
    /// The body is not valid UTF-8.
    Decode,
    /// The text is not a JSON document; holds the parser's message.
    Parse(String),
    /// A number of the document has no value as an integer or a float.
    Value,
}

impl ResponseError {
    /// The way in which decoding failed, without the message.
    pub open spec fn failure(self) -> Failure {
        match self {
            ResponseError::Decompress(_) => Failure::Decompress,
            ResponseError::Decode => Failure::Decode,
            ResponseError::Parse(_) => Failure::Parse,
            ResponseError::Value => Failure::Value,
        }
    }
}

} // verus!
