use vstd::prelude::*;

verus! {

/// The failures that a call can end in. None of them is retried: each is
/// handed to the caller as it came.
#[derive(Debug, Clone, PartialEq)]
pub enum Error {
    /// The request could not be put together, e.g. its URL did not parse.
    RequestError(String),
    /// The endpoint answered with a status outside 200..=299; `message` is the
    /// response body, left unparsed.
    ApiError { status_code: u16, message: String },
    /// A response body did not decode into the expected shape.
    JsonError(String),
    /// The HTTP exchange failed before a status was obtained.
    TransportError(String),
}

} // verus!
