//! Classification of raw provider responses, and the choice between
//! multipart and form encoding for a submission. The transport calls
//! themselves (HTTP POST and GET) live outside the library; their status
//! and payload come in here as plain values.

use vstd::prelude::*;
use crate::error::{SolveResult, TwoCaptchaError};
use crate::params::ParamMap;
use crate::strutil::{concat_str, contains_seq, dec_str, fmt_u64, str_contains};

verus! {

/// Classify a raw response by the rule shared by both remote calls: any
/// non-200 status is a network error carrying the status; any payload
/// containing the literal substring `ERROR` is a provider error carrying
/// the payload; anything else is handed back for protocol parsing.
pub fn classify_response(status: u16, text: String) -> (r: SolveResult<String>)
    ensures
        status != 200 ==> (r matches Err(TwoCaptchaError::Network(m)) && m@ == "bad response: "@
            + dec_str(status as int)),
        status == 200 && contains_seq(text@, "ERROR"@) ==> (r matches Err(TwoCaptchaError::Api(m))
            && m@ == text@),
        status == 200 && !contains_seq(text@, "ERROR"@) ==> (r matches Ok(t) && t@ == text@),
{
    if status != 200 {
        let digits = fmt_u64(status as u64);
        return Err(TwoCaptchaError::Network(concat_str("bad response: ", digits.as_str())));
    }
    if str_contains(text.as_str(), "ERROR") {
        return Err(TwoCaptchaError::Api(text));
    }
    Ok(text)
}

/// The submission uses multipart encoding exactly when a file accompanies
/// it: a non-empty upload set, or a `file` key still present in the
/// parameter mapping.
pub fn needs_multipart(files: &ParamMap, params: &ParamMap) -> (r: bool)
    requires
        files.wf(),
        params.wf(),
    ensures
        r == (!(files@ =~= Map::<Seq<char>, Seq<char>>::empty()) || params@.contains_key("file"@)),
{
    !files.is_empty() || params.contains_key("file")
}

} // verus!
