//! Client-side logic for a remote captcha-solving service: parameter
//! normalization into the provider's wire vocabulary, classification of
//! file-like captcha inputs, response classification and parsing, and the
//! submit/poll state machine with its timeout policy.
//!
//! Network and filesystem transport live outside this crate; the functions
//! here take the outcomes of those calls as plain values and decide every
//! step of the protocol.

pub mod error;
pub mod params;
pub mod solver;
pub mod strutil;
pub mod transport;
pub mod types;
pub mod utils;

pub use error::SolveResult;
pub use error::SolverExceptions;
pub use error::TwoCaptchaError;
pub use params::ParamMap;
pub use solver::AudioSource;
pub use solver::PollDecision;
pub use solver::Poller;
pub use solver::TwoCaptcha;
pub use types::AudioLanguage;
pub use types::CaptchaResult;
pub use types::Proxy;
pub use types::RecaptchaVersion;
pub use utils::MethodSpec;
pub use utils::Utils;

pub use strutil::is_prefix_of;
pub use strutil::contains_seq;
