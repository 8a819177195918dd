//! Error kinds surfaced by the library: validation of local input, network
//! transport (retryable while polling), provider-signaled errors, the poll
//! deadline, and malformed structured responses.

use vstd::prelude::*;
use crate::strutil::concat_str;

verus! {

/// Typed outcome for every failing operation. Each variant carries a
/// human-readable payload describing the failure.
#[derive(Debug, Clone)]
pub enum TwoCaptchaError {
    /// Bad or missing local input: absent file, empty body, too many files.
    Validation(String),
    /// Transport failure or the provider's not-ready signal; retried only
    /// inside the polling loop.
    Network(String),
    /// The provider returned an error payload or an unrecognizable success
    /// shape.
    Api(String),
    /// The poll deadline elapsed before a ready result.
    Timeout(String),
    /// Extended mode expected structured data and the payload was not.
    Serialization(String),
}

impl TwoCaptchaError {
    /// The payload string carried by any variant.
    pub open spec fn spec_payload(&self) -> Seq<char> {
        match self {
            TwoCaptchaError::Validation(m) => m@,
            TwoCaptchaError::Network(m) => m@,
            TwoCaptchaError::Api(m) => m@,
            TwoCaptchaError::Timeout(m) => m@,
            TwoCaptchaError::Serialization(m) => m@,
        }
    }

    /// A display string naming the kind and the payload.
    pub fn message(&self) -> (r: String)
        ensures
            r@ == match self {
                TwoCaptchaError::Validation(m) => "Validation error: "@ + m@,
                TwoCaptchaError::Network(m) => "Network error: "@ + m@,
                TwoCaptchaError::Api(m) => "API error: "@ + m@,
                TwoCaptchaError::Timeout(m) => "Timeout error: "@ + m@,
                TwoCaptchaError::Serialization(m) => "Serialization error: "@ + m@,
            },
    {
        match self {
            TwoCaptchaError::Validation(m) => concat_str("Validation error: ", m.as_str()),
            TwoCaptchaError::Network(m) => concat_str("Network error: ", m.as_str()),
            TwoCaptchaError::Api(m) => concat_str("API error: ", m.as_str()),
            TwoCaptchaError::Timeout(m) => concat_str("Timeout error: ", m.as_str()),
            TwoCaptchaError::Serialization(m) => concat_str("Serialization error: ", m.as_str()),
        }
    }
}

/// Marker for the error values a solver operation can surface.
pub trait SolverExceptions {

}

impl SolverExceptions for TwoCaptchaError {

}

/// Shorthand for results whose error is `TwoCaptchaError`.
pub type SolveResult<T> = Result<T, TwoCaptchaError>;

} // verus!
