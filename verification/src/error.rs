use vstd::prelude::*;

verus! {

/// Why a string was rejected as an email address; carries the
/// human-readable reason so that callers can show it as-is.
#[derive(Debug, Clone, PartialEq, Eq)]
pub struct ParseError(pub String);

impl ParseError {
    /// The reason the address was rejected.
    pub fn reason(&self) -> (r: &str)
        ensures
            r@ == self.0@,
    {
        self.0.as_str()
    }
}

/// Everything that can go wrong while configuring the client, building an
/// attachment, or sending mail. Validation and configuration failures are
/// reported before any network call is attempted.
#[derive(Debug, Clone, PartialEq, Eq)]
pub enum ClientError {
    /// A missing builder field, an invalid URL composition, an unusable file
    /// name, or an oversized batch; the caller can fix these before any
    /// network traffic happens.
    Configuration(String),
    /// The server answered 401; carries the raw response body.
    Authentication(String),
    /// The server answered with a non-2xx, non-401 status; carries the
    /// status code and the raw response body.
    ServerResponse { status_code: u16, message: String },
    /// The transport gave up after the configured number of seconds.
    Timeout(u64),
    /// Any other transport-level failure, with its description.
    Transport(String),
    /// A success response whose body did not parse as the expected shape.
    Serialization(String),
}

} // verus!
