//! The library's error taxonomy.
//!
//! A transport or decode failure is an `ApiError`; a vendor contract breach
//! inside an open stream is a `ProtocolViolation`; configuration mistakes
//! surface as `InvalidInput` or `MissingField`.

use vstd::prelude::*;

verus! {

use vstd::string::StringExecFns;

/// An error surfaced to callers of the library.
#[derive(Debug, Clone, PartialEq, Eq)]
pub enum Error {
    /// A failed HTTP exchange or an undecodable wire payload. The status code
    /// is present when a response was received at all.
    ApiError { status_code: Option<u16>, details: String },
    /// An input that the library rejects outright (for example a base URL
    /// without a scheme).
    InvalidInput(String),
    /// A required configuration field that was left empty.
    MissingField(String),
    /// A vendor stream that broke its own framing contract, for example a
    /// delta event aimed at a content-block index that was never opened.
    ProtocolViolation(String),
    /// Any other failure.
    Other(String),
}

impl Error {
    /// The human-readable text of this error.
    pub open spec fn spec_message(&self) -> Seq<char> {
        match self {
            Error::ApiError { status_code, details } => "api error: "@ + details@,
            Error::InvalidInput(s) => "invalid input: "@ + s@,
            Error::MissingField(s) => "missing field: "@ + s@,
            Error::ProtocolViolation(s) => "protocol violation: "@ + s@,
            Error::Other(s) => "error: "@ + s@,
        }
    }

    /// Renders the error as one line of text.
    pub fn message(&self) -> (r: String)
        ensures
            r@ == self.spec_message(),
    {
        match self {
            Error::ApiError { status_code: _, details } => {
                "api error: ".to_owned().concat(details.as_str())
            },
            Error::InvalidInput(s) => "invalid input: ".to_owned().concat(s.as_str()),
            Error::MissingField(s) => "missing field: ".to_owned().concat(s.as_str()),
            Error::ProtocolViolation(s) => "protocol violation: ".to_owned().concat(s.as_str()),
            Error::Other(s) => "error: ".to_owned().concat(s.as_str()),
        }
    }
}

} // verus!
