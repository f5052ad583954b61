//! The ways in which a request for carbon intensity data can fail.

use vstd::prelude::*;

verus! {

/// An error in asking the provider for data or in reading its answer.
///
/// No error is recovered from or retried: each one ends the call that met it.
#[derive(Debug)]
pub enum ApiError {
    /// A text is not a date: neither `YYYY-MM-DD` nor `YYYY-MM-DDThh:mmZ`.
    DateParseError(chrono::ParseError),
    /// The request did not reach the provider, or no answer came back.
    TransportError(String),
    /// The provider answered with a status other than success.
    StatusError { code: u16, body: String },
    /// The provider's answer does not have the expected shape.
    DecodeError(String),
    /// The answer is well formed but holds no value where one was needed.
    NoDataError,
    /// The target cannot be queried: a postcode of fewer than two or more
    /// than four characters, or no region or postcode at all.
    InvalidTargetError,
}

} // verus!
