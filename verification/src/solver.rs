//! The solve orchestration: client configuration, submission preparation,
//! response parsing, and the poll-until-ready state machine with its
//! timeout policy. The asynchronous transport drives these decisions from
//! outside; every transition here is a function from plain values to
//! plain values.

use vstd::prelude::*;
use vstd::string::*;
use crate::error::{SolveResult, TwoCaptchaError};
use crate::params::ParamMap;
use crate::strutil::{concat_str, dec_str, fmt_u64, is_prefix_of, is_suffix_of, str_eq,
    str_starts_with};
use crate::types::{AudioLanguage, CaptchaResult, Proxy, RecaptchaVersion};
use crate::utils::{files_map_upto, hint_ok_state, is_inline_input, spec_rename_params, Utils};

verus! {

/// A base parameter mapping merged with a caller's optional extras; on a
/// shared key the caller's value wins.
pub open spec fn with_extra(
    base: Map<Seq<char>, Seq<char>>,
    extra: Option<ParamMap>,
) -> Map<Seq<char>, Seq<char>> {
    match extra {
        Some(e) => base.union_prefer_right(e@),
        None => base,
    }
}

/// Extra parameters are well-formed when present.
pub open spec fn extra_wf(extra: Option<ParamMap>) -> bool {
    match extra {
        Some(e) => e.wf(),
        None => true,
    }
}

/// The `status` member of a structured poll response: the outer option is
/// whether the text parses as structured data at all, the inner one its
/// integer `status` member. Depends on the text alone.
pub uninterp spec fn json_status_of(s: Seq<char>) -> Option<Option<i64>>;

/// Relies on `serde_json::from_str` and `serde_json::Value::{get, as_i64}`:
/// whether the text parses, and its `status` member as an integer, depend
/// on the text alone.
#[verifier::external_body]
fn json_status(s: &str) -> (r: Option<Option<i64>>)
    ensures
        r == json_status_of(s@),
{
    let v: serde_json::Value = match serde_json::from_str(s) {
        Ok(v) => v,
        Err(_) => return None,
    };
    match v.get("status") {
        Some(st) => Some(st.as_i64()),
        None => Some(None),
    }
}

/// Relies on `serde_json::to_string` over a two-member object built with
/// `serde_json::Map` and `serde_json::Value::String`: the serialized
/// `{type, uri}` text depends on the two fields alone.
#[verifier::external_body]
fn proxy_to_json(p: &Proxy) -> (r: String)
    ensures
        r@ == proxy_json_of(p.proxy_type@, p.uri@),
{
    let mut map = serde_json::Map::new();
    map.insert("type".to_string(), serde_json::Value::String(p.proxy_type.clone()));
    map.insert("uri".to_string(), serde_json::Value::String(p.uri.clone()));
    serde_json::to_string(&serde_json::Value::Object(map)).unwrap_or_default()
}

/// The serialized form of a proxy descriptor with the given type and
/// address; depends on the two fields alone.
pub uninterp spec fn proxy_json_of(ptype: Seq<char>, uri: Seq<char>) -> Seq<char>;

/// Where the audio payload of a solve call comes from.
#[derive(Debug)]
pub enum AudioSource {
    /// The input is already an encoded payload; submit it verbatim.
    Inline(String),
    /// The input names a remote audio resource to download and encode.
    Download(String),
    /// The input names a local audio file to read and encode.
    ReadFile(String),
}

/// Classify an audio captcha input: an inline encoded payload passes
/// verbatim; an `.mp3` URL is downloaded; an `.mp3` path is read; any
/// other input is rejected.
pub fn audio_source(file: &str) -> (r: SolveResult<AudioSource>)
    ensures
        is_inline_input(file@) ==> (r matches Ok(AudioSource::Inline(b)) && b@ == file@),
        !is_inline_input(file@) && is_suffix_of(".mp3"@, file@) && is_prefix_of("http"@, file@)
            ==> (r matches Ok(AudioSource::Download(u)) && u@ == file@),
        !is_inline_input(file@) && is_suffix_of(".mp3"@, file@) && !is_prefix_of("http"@, file@)
            ==> (r matches Ok(AudioSource::ReadFile(p)) && p@ == file@),
        !is_inline_input(file@) && !is_suffix_of(".mp3"@, file@) ==> (r matches Err(
            TwoCaptchaError::Validation(m),
        ) && m@ == "File extension is not .mp3 or it is not a base64 string."@),
{
    if !crate::strutil::str_contains_char(file, '.') && file.unicode_len() > 50 {
        return Ok(AudioSource::Inline(file.to_owned()));
    }
    if crate::strutil::str_ends_with(file, ".mp3") && str_starts_with(file, "http") {
        return Ok(AudioSource::Download(file.to_owned()));
    }
    if crate::strutil::str_ends_with(file, ".mp3") {
        return Ok(AudioSource::ReadFile(file.to_owned()));
    }
    Err(
        TwoCaptchaError::Validation(
            "File extension is not .mp3 or it is not a base64 string.".to_owned(),
        ),
    )
}

/// One polling loop's bookkeeping: the deadline, the retry interval, and
/// the elapsed time modeled as the sum of the intervals slept so far (the
/// cooperatively suspending driver sleeps exactly one interval per retry).
pub struct Poller {
    pub timeout_ms: u64,
    pub interval_ms: u64,
    pub elapsed_ms: u64,
}

/// What the poll loop does after one fetch: sleep one interval and fetch
/// again, or stop with the final outcome.
#[derive(Debug)]
pub enum PollDecision {
    /// Sleep for the polling interval, then fetch again.
    Retry,
    /// The poll is over: a decoded payload or a terminal error.
    Finished(SolveResult<String>),
}

/// Elapsed time when polling sees only not-ready answers from `elapsed`
/// on: each retry adds one interval, until the deadline is reached.
pub open spec fn not_ready_final_elapsed(elapsed: int, timeout: int, interval: int) -> int
    decreases timeout - elapsed + interval
        when 0 < interval
{
    if elapsed >= timeout {
        elapsed
    } else {
        not_ready_final_elapsed(elapsed + interval, timeout, interval)
    }
}

/// Law: polling that forever sees the not-ready answer stops at its
/// deadline, and the elapsed time at the stop stays below timeout plus
/// one interval — a solve call with timeout `T` and interval `I` ends
/// with a timeout within `T + I` of elapsed time. (`Poller::on_response`
/// adds exactly one interval per retry, which is the recursion here.)
pub proof fn lemma_poll_timeout_bound(elapsed: int, timeout: int, interval: int)
    requires
        0 < interval,
        0 <= elapsed <= timeout,
    ensures
        timeout <= not_ready_final_elapsed(elapsed, timeout, interval) < timeout + interval,
    decreases timeout - elapsed,
{
    if elapsed >= timeout {
    } else if elapsed + interval >= timeout {
        assert(not_ready_final_elapsed(elapsed + interval, timeout, interval) == elapsed
            + interval);
        assert(not_ready_final_elapsed(elapsed, timeout, interval) == elapsed + interval);
    } else {
        lemma_poll_timeout_bound(elapsed + interval, timeout, interval);
    }
}

/// One retry step keeps the stopping point: advancing the elapsed time
/// by one interval below the deadline does not change where the polling
/// stops, so the bound of [`lemma_poll_timeout_bound`] carries through
/// every retry that `Poller::on_response` takes.
pub proof fn lemma_poll_step_preserves_final(elapsed: int, timeout: int, interval: int)
    requires
        0 < interval,
        0 <= elapsed < timeout,
    ensures
        not_ready_final_elapsed(elapsed + interval, timeout, interval) == not_ready_final_elapsed(
            elapsed,
            timeout,
            interval,
        ),
{
}

impl Poller {
    /// Start a poll with the given deadline and retry interval.
    pub fn new(timeout_ms: u64, interval_ms: u64) -> (r: Self)
        ensures
            r.timeout_ms == timeout_ms,
            r.interval_ms == interval_ms,
            r.elapsed_ms == 0,
    {
        Poller { timeout_ms, interval_ms, elapsed_ms: 0 }
    }

    /// The deadline has been reached; no further fetch is issued.
    pub fn expired(&self) -> (r: bool)
        ensures
            r == (self.elapsed_ms >= self.timeout_ms),
    {
        self.elapsed_ms >= self.timeout_ms
    }

    /// The error reported when the deadline elapses, naming the threshold
    /// in seconds.
    pub fn timeout_error(&self) -> (r: TwoCaptchaError)
        ensures
            (r matches TwoCaptchaError::Timeout(m) && m@ == "timeout "@ + dec_str(
                (self.timeout_ms / 1000) as int,
            ) + " exceeded"@),
    {
        let secs = fmt_u64(self.timeout_ms / 1000);
        let mut msg = concat_str("timeout ", secs.as_str());
        msg.append(" exceeded");
        proof {
            assert(msg@ =~= "timeout "@ + dec_str((self.timeout_ms / 1000) as int)
                + " exceeded"@);
        }
        TwoCaptchaError::Timeout(msg)
    }

    /// Decide after one fetch: a decoded payload or a terminal error ends
    /// the poll with that outcome; a network-kind failure (the provider's
    /// not-ready signal included) is transient, adds one interval to the
    /// elapsed time and retries.
    pub fn on_response(&mut self, outcome: SolveResult<String>) -> (r: PollDecision)
        ensures
            final(self).timeout_ms == old(self).timeout_ms,
            final(self).interval_ms == old(self).interval_ms,
            (outcome matches Ok(c) ==> (r matches PollDecision::Finished(f) && f matches Ok(c2)
                && c2 == c && final(self).elapsed_ms == old(self).elapsed_ms)),
            (outcome matches Err(e) ==> ((e matches TwoCaptchaError::Network(_) ==> (r is Retry
                && final(self).elapsed_ms == (if old(self).elapsed_ms + old(self).interval_ms
                <= u64::MAX {
                    old(self).elapsed_ms + old(self).interval_ms
                } else {
                    u64::MAX as int
                }))) && (!(e matches TwoCaptchaError::Network(_)) ==> (r matches
                PollDecision::Finished(f) && f matches Err(e2) && e2 == e
                && final(self).elapsed_ms == old(self).elapsed_ms)))),
    {
        match outcome {
            Ok(code) => PollDecision::Finished(Ok(code)),
            Err(e) => {
                match e {
                    TwoCaptchaError::Network(m) => {
                        if self.elapsed_ms <= u64::MAX - self.interval_ms {
                            self.elapsed_ms = self.elapsed_ms + self.interval_ms;
                        } else {
                            self.elapsed_ms = u64::MAX;
                        }
                        PollDecision::Retry
                    },
                    other => PollDecision::Finished(Err(other)),
                }
            },
        }
    }
}

/// The solver client: immutable per-client settings, created once and
/// shared by every solve call, plus the decision logic of the protocol.
#[derive(Debug, Clone)]
pub struct TwoCaptcha {
    /// Account key sent with every request.
    pub api_key: String,
    /// Soft-partner id attributing traffic to an integration partner.
    pub soft_id: Option<u32>,
    /// Callback address taking answers out-of-band; configured, it turns
    /// off polling.
    pub callback: Option<String>,
    /// Poll deadline for ordinary captcha types, in milliseconds.
    pub default_timeout_ms: u64,
    /// Longer poll deadline reserved for reCAPTCHA-class challenges.
    pub recaptcha_timeout_ms: u64,
    /// Pause between poll attempts, in milliseconds.
    pub polling_interval_ms: u64,
    /// API host name.
    pub server: String,
    /// Most files accepted in one batch submission.
    pub max_files: usize,
    /// Ask the provider for the structured result format.
    pub extended_response: bool,
}

impl TwoCaptcha {
    /// Create a client; every omitted setting takes its documented
    /// default.
    pub fn new(
        api_key: String,
        soft_id: Option<u32>,
        callback: Option<String>,
        default_timeout_ms: Option<u64>,
        recaptcha_timeout_ms: Option<u64>,
        polling_interval_ms: Option<u64>,
        server: Option<String>,
        extended_response: Option<bool>,
    ) -> (r: Self)
        ensures
            r.api_key == api_key,
            r.soft_id == (match soft_id {
                Some(id) => Some(id),
                None => Some(4580u32),
            }),
            r.callback == callback,
            r.default_timeout_ms == (match default_timeout_ms {
                Some(t) => t,
                None => 120000u64,
            }),
            r.recaptcha_timeout_ms == (match recaptcha_timeout_ms {
                Some(t) => t,
                None => 600000u64,
            }),
            r.polling_interval_ms == (match polling_interval_ms {
                Some(t) => t,
                None => 10000u64,
            }),
            r.server@ == (match server {
                Some(s) => s@,
                None => "2captcha.com"@,
            }),
            r.max_files == 9,
            r.extended_response == (match extended_response {
                Some(b) => b,
                None => false,
            }),
    {
        TwoCaptcha {
            api_key,
            soft_id: match soft_id {
                Some(id) => Some(id),
                None => Some(4580),
            },
            callback,
            default_timeout_ms: match default_timeout_ms {
                Some(t) => t,
                None => 120000,
            },
            recaptcha_timeout_ms: match recaptcha_timeout_ms {
                Some(t) => t,
                None => 600000,
            },
            polling_interval_ms: match polling_interval_ms {
                Some(t) => t,
                None => 10000,
            },
            server: match server {
                Some(s) => s,
                None => "2captcha.com".to_owned(),
            },
            max_files: 9,
            extended_response: match extended_response {
                Some(b) => b,
                None => false,
            },
        }
    }

    /// The parameters injected into every submission: the account key,
    /// the callback address when configured, and the soft-partner id.
    pub open spec fn spec_default_params(&self, m: Map<Seq<char>, Seq<char>>) -> Map<
        Seq<char>,
        Seq<char>,
    > {
        let m1 = m.insert("key"@, self.api_key@);
        let m2 = match self.callback {
            Some(cb) => m1.insert("callback"@, cb@),
            None => m1,
        };
        match self.soft_id {
            Some(id) => m2.insert("softId"@, dec_str(id as int)),
            None => m2,
        }
    }

    /// Inject the client-wide parameters into a submission.
    pub fn default_params(&self, params: ParamMap) -> (r: ParamMap)
        requires
            params.wf(),
        ensures
            r.wf(),
            r@ == self.spec_default_params(params@),
    {
        let mut params = params;
        params.insert("key".to_owned(), self.api_key.clone());
        match &self.callback {
            Some(cb) => {
                params.insert("callback".to_owned(), cb.clone());
            },
            None => {},
        }
        match self.soft_id {
            Some(id) => {
                params.insert("softId".to_owned(), fmt_u64(id as u64));
            },
            None => {},
        }
        params
    }

    /// Prepare one submission: inject the client-wide parameters, rename
    /// to the wire vocabulary, and resolve a hint image into the upload
    /// set. Hands back the wire parameters and the upload set (file-field
    /// name to path).
    pub fn prepare_submission(&self, params: ParamMap) -> (r: SolveResult<(ParamMap, ParamMap)>)
        requires
            params.wf(),
        ensures
            match r {
                Ok(pf) => pf.0.wf() && pf.1.wf() && hint_ok_state(
                    spec_rename_params(self.spec_default_params(params@)),
                    Map::empty(),
                    pf.0@,
                    pf.1@,
                ),
                Err(e) => e matches TwoCaptchaError::Validation(m) && spec_rename_params(
                    self.spec_default_params(params@),
                ).contains_key("imginstructions"@) && !is_inline_input(
                    spec_rename_params(self.spec_default_params(params@))["imginstructions"@],
                ) && m@ == "File not found: "@ + spec_rename_params(
                    self.spec_default_params(params@),
                )["imginstructions"@],
            },
    {
        let withdefaults = self.default_params(params);
        let renamed = Utils::rename_params(withdefaults);
        Utils::check_hint_img(renamed, ParamMap::new())
    }

    /// Parse the provider's answer to a submission: the literal prefix
    /// `OK|` followed by the task id, or an unrecognizable shape.
    pub fn parse_submit_response(response: &str) -> (r: SolveResult<String>)
        ensures
            is_prefix_of("OK|"@, response@) ==> (r matches Ok(id) && id@ == response@.skip(3)),
            !is_prefix_of("OK|"@, response@) ==> (r matches Err(TwoCaptchaError::Api(m)) && m@
                == "cannot recognize response "@ + response@),
    {
        proof {
            reveal_strlit("OK|");
        }
        if str_starts_with(response, "OK|") {
            let len = response.unicode_len();
            let id = response.substring_char(3, len).to_owned();
            proof {
                assert(id@ =~= response@.skip(3));
            }
            Ok(id)
        } else {
            Err(TwoCaptchaError::Api(concat_str("cannot recognize response ", response)))
        }
    }

    /// The query parameters of one poll attempt for a task.
    pub fn fetch_params(&self, id: &str) -> (r: ParamMap)
        ensures
            r.wf(),
            r@ == ({
                let base = Map::<Seq<char>, Seq<char>>::empty().insert("key"@, self.api_key@)
                    .insert("action"@, "get"@).insert("id"@, id@);
                if self.extended_response {
                    base.insert("json"@, "1"@)
                } else {
                    base
                }
            }),
    {
        let mut params = ParamMap::new();
        params.insert("key".to_owned(), self.api_key.clone());
        params.insert("action".to_owned(), "get".to_owned());
        params.insert("id".to_owned(), id.to_owned());
        if self.extended_response {
            params.insert("json".to_owned(), "1".to_owned());
        }
        params
    }

    /// The query parameters of a balance request.
    pub fn balance_params(&self) -> (r: ParamMap)
        ensures
            r.wf(),
            r@ == Map::<Seq<char>, Seq<char>>::empty().insert("key"@, self.api_key@).insert(
                "action"@,
                "getbalance"@,
            ),
    {
        let mut params = ParamMap::new();
        params.insert("key".to_owned(), self.api_key.clone());
        params.insert("action".to_owned(), "getbalance".to_owned());
        params
    }

    /// The query parameters of a feedback report on a solved task.
    pub fn report_params(&self, id: &str, correct: bool) -> (r: ParamMap)
        ensures
            r.wf(),
            r@ == Map::<Seq<char>, Seq<char>>::empty().insert("key"@, self.api_key@).insert(
                "action"@,
                if correct {
                    "reportgood"@
                } else {
                    "reportbad"@
                },
            ).insert("id"@, id@),
    {
        let mut params = ParamMap::new();
        params.insert("key".to_owned(), self.api_key.clone());
        if correct {
            params.insert("action".to_owned(), "reportgood".to_owned());
        } else {
            params.insert("action".to_owned(), "reportbad".to_owned());
        }
        params.insert("id".to_owned(), id.to_owned());
        params
    }

    /// Interpret one poll answer. Plain mode: the not-ready sentinel is a
    /// transient network-kind failure, `OK|` yields the token after the
    /// prefix, anything else is a provider error. Extended mode: status 0
    /// is not ready, status 1 hands the whole structured text back, any
    /// other status is a provider error, and an unparsable payload is a
    /// serialization error carrying it.
    pub fn interpret_fetch_response(&self, response: &str) -> (r: SolveResult<String>)
        ensures
            !self.extended_response && response@ == "CAPCHA_NOT_READY"@ ==> (r matches Err(
                TwoCaptchaError::Network(m),
            ) && m@ == "CAPTCHA_NOT_READY"@),
            !self.extended_response && response@ != "CAPCHA_NOT_READY"@ && is_prefix_of(
                "OK|"@,
                response@,
            ) ==> (r matches Ok(c) && c@ == response@.skip(3)),
            !self.extended_response && response@ != "CAPCHA_NOT_READY"@ && !is_prefix_of(
                "OK|"@,
                response@,
            ) ==> (r matches Err(TwoCaptchaError::Api(m)) && m@ == "cannot recognize response "@
                + response@),
            self.extended_response && json_status_of(response@) is None ==> (r matches Err(
                TwoCaptchaError::Serialization(m),
            ) && m@ == response@),
            self.extended_response ==> (json_status_of(response@) matches Some(st) ==> (if st
                == Some(0i64) {
                r matches Err(TwoCaptchaError::Network(m)) && m@ == "CAPTCHA_NOT_READY"@
            } else if st == Some(1i64) {
                r matches Ok(c) && c@ == response@
            } else {
                r matches Err(TwoCaptchaError::Api(m)) && m@ == "Unexpected status in response: "@
                    + response@
            })),
    {
        if self.extended_response {
            match json_status(response) {
                None => Err(TwoCaptchaError::Serialization(response.to_owned())),
                Some(st) => {
                    let zero = match st {
                        Some(v) => v == 0,
                        None => false,
                    };
                    let one = match st {
                        Some(v) => v == 1,
                        None => false,
                    };
                    if zero {
                        Err(TwoCaptchaError::Network("CAPTCHA_NOT_READY".to_owned()))
                    } else if one {
                        Ok(response.to_owned())
                    } else {
                        Err(
                            TwoCaptchaError::Api(
                                concat_str("Unexpected status in response: ", response),
                            ),
                        )
                    }
                },
            }
        } else {
            if str_eq(response, "CAPCHA_NOT_READY") {
                return Err(TwoCaptchaError::Network("CAPTCHA_NOT_READY".to_owned()));
            }
            proof {
                reveal_strlit("OK|");
            }
            if str_starts_with(response, "OK|") {
                let len = response.unicode_len();
                let code = response.substring_char(3, len).to_owned();
                proof {
                    assert(code@ =~= response@.skip(3));
                }
                return Ok(code);
            }
            Err(TwoCaptchaError::Api(concat_str("cannot recognize response ", response)))
        }
    }

    /// Package one solve call's outcome. With a configured callback no
    /// polling happened: the result is unresolved and carries only the
    /// task id. Otherwise the polled payload lands in `extended` (the raw
    /// structured text of extended mode) or in `code` (the plain token).
    pub fn solve_outcome(&self, id: String, polled: Option<String>) -> (r: CaptchaResult)
        ensures
            r.captcha_id == id,
            r.wf(),
            polled is None ==> r.code is None && r.extended is None,
            (polled matches Some(c) ==> ((self.extended_response ==> r.extended == Some(c)
                && r.code is None) && (!self.extended_response ==> r.code == Some(c) && r.extended
                is None))),
    {
        match polled {
            None => CaptchaResult { captcha_id: id, code: None, extended: None },
            Some(c) => {
                if self.extended_response {
                    CaptchaResult { captcha_id: id, code: None, extended: Some(c) }
                } else {
                    CaptchaResult { captcha_id: id, code: Some(c), extended: None }
                }
            },
        }
    }

    /// Submission parameters for a normal image captcha, from the already
    /// resolved method parameters of the file input.
    pub fn normal(&self, method: ParamMap, extra: Option<ParamMap>) -> (r: ParamMap)
        requires
            method.wf(),
            extra_wf(extra),
        ensures
            r.wf(),
            r@ == with_extra(method@, extra),
    {
        let mut p = method;
        match extra {
            Some(e) => p.extend(e),
            None => {},
        }
        p
    }

    /// Submission parameters for an audio captcha, from its resolved
    /// encoded payload and language.
    pub fn audio(&self, body: String, lang: &AudioLanguage, extra: Option<ParamMap>) -> (r:
        ParamMap)
        requires
            extra_wf(extra),
        ensures
            r.wf(),
            r@ == with_extra(
                Map::<Seq<char>, Seq<char>>::empty().insert("body"@, body@).insert(
                    "method"@,
                    "audio"@,
                ).insert("lang"@, lang.spec_code()),
                extra,
            ),
    {
        let mut p = ParamMap::new();
        p.insert("body".to_owned(), body);
        p.insert("method".to_owned(), "audio".to_owned());
        p.insert("lang".to_owned(), lang.as_str().to_owned());
        match extra {
            Some(e) => p.extend(e),
            None => {},
        }
        p
    }

    /// Submission parameters for a reCAPTCHA (v2 or v3) task.
    pub fn recaptcha(
        &self,
        sitekey: &str,
        url: &str,
        version: Option<RecaptchaVersion>,
        enterprise: Option<bool>,
        extra: Option<ParamMap>,
    ) -> (r: ParamMap)
        requires
            extra_wf(extra),
        ensures
            r.wf(),
            r@ == with_extra(
                Map::<Seq<char>, Seq<char>>::empty().insert("googlekey"@, sitekey@).insert(
                    "url"@,
                    url@,
                ).insert("method"@, "userrecaptcha"@).insert(
                    "version"@,
                    (match version {
                        Some(v) => v.spec_code(),
                        None => "v2"@,
                    }),
                ).insert(
                    "enterprise"@,
                    (match enterprise {
                        Some(b) => if b {
                            "1"@
                        } else {
                            "0"@
                        },
                        None => "0"@,
                    }),
                ),
                extra,
            ),
    {
        let mut p = ParamMap::new();
        p.insert("googlekey".to_owned(), sitekey.to_owned());
        p.insert("url".to_owned(), url.to_owned());
        p.insert("method".to_owned(), "userrecaptcha".to_owned());
        let vs = match &version {
            Some(v) => v.as_str(),
            None => "v2",
        };
        p.insert("version".to_owned(), vs.to_owned());
        let es = match enterprise {
            Some(b) => if b {
                "1"
            } else {
                "0"
            },
            None => "0",
        };
        p.insert("enterprise".to_owned(), es.to_owned());
        match extra {
            Some(e) => p.extend(e),
            None => {},
        }
        p
    }

    /// Submission parameters for a grid-select image captcha, from the
    /// already resolved method parameters of the file input.
    pub fn grid(&self, method: ParamMap, extra: Option<ParamMap>) -> (r: ParamMap)
        requires
            method.wf(),
            extra_wf(extra),
        ensures
            r.wf(),
            r@ == with_extra(method@.insert("recaptcha"@, "1"@), extra),
    {
        let mut p = method;
        p.insert("recaptcha".to_owned(), "1".to_owned());
        match extra {
            Some(e) => p.extend(e),
            None => {},
        }
        p
    }

    /// Submission parameters for a canvas-drawing captcha; a hint text or
    /// hint image is required among the extra parameters.
    pub fn canvas(&self, method: ParamMap, extra: Option<ParamMap>) -> (r: SolveResult<ParamMap>)
        requires
            method.wf(),
            extra_wf(extra),
        ensures
            (match extra {
                None => true,
                Some(e) => !e@.contains_key("hintText"@) && !e@.contains_key("hintImg"@),
            }) ==> (r matches Err(TwoCaptchaError::Validation(m)) && m@
                == "parameters required: hintText and/or hintImg"@),
            (extra matches Some(e) ==> ((e@.contains_key("hintText"@) || e@.contains_key(
                "hintImg"@,
            )) ==> (r matches Ok(p) && p.wf() && p@ == method@.insert("recaptcha"@, "1"@).insert(
                "canvas"@,
                "1"@,
            ).union_prefer_right(e@)))),
    {
        let has_hint = match &extra {
            Some(e) => e.contains_key("hintText") || e.contains_key("hintImg"),
            None => false,
        };
        if !has_hint {
            return Err(
                TwoCaptchaError::Validation(
                    "parameters required: hintText and/or hintImg".to_owned(),
                ),
            );
        }
        let mut p = method;
        p.insert("recaptcha".to_owned(), "1".to_owned());
        p.insert("canvas".to_owned(), "1".to_owned());
        match extra {
            Some(e) => p.extend(e),
            None => {},
        }
        Ok(p)
    }

    /// Submission parameters for a coordinates captcha, from the already
    /// resolved method parameters of the file input.
    pub fn coordinates(&self, method: ParamMap, extra: Option<ParamMap>) -> (r: ParamMap)
        requires
            method.wf(),
            extra_wf(extra),
        ensures
            r.wf(),
            r@ == with_extra(method@.insert("coordinatescaptcha"@, "1"@), extra),
    {
        let mut p = method;
        p.insert("coordinatescaptcha".to_owned(), "1".to_owned());
        match extra {
            Some(e) => p.extend(e),
            None => {},
        }
        p
    }

    /// Submission parameters for a rotate captcha: only the file path of
    /// the resolved method parameters carries over.
    pub fn rotate(&self, method: &ParamMap, extra: Option<ParamMap>) -> (r: ParamMap)
        requires
            method.wf(),
            extra_wf(extra),
        ensures
            r.wf(),
            r@ == with_extra(
                (if method@.contains_key("file"@) {
                    Map::<Seq<char>, Seq<char>>::empty().insert("file"@, method@["file"@])
                } else {
                    Map::<Seq<char>, Seq<char>>::empty()
                }).insert("method"@, "rotatecaptcha"@),
                extra,
            ),
    {
        let mut p = ParamMap::new();
        match method.get("file") {
            Some(f) => {
                let fv = f.clone();
                p.insert("file".to_owned(), fv);
            },
            None => {},
        }
        p.insert("method".to_owned(), "rotatecaptcha".to_owned());
        match extra {
            Some(e) => p.extend(e),
            None => {},
        }
        p
    }

    /// Submission parameters for a rotate captcha with several files,
    /// validated against the client's file maximum.
    pub fn rotate_multiple(&self, files: Vec<String>, extra: Option<ParamMap>) -> (r: SolveResult<
        ParamMap,
    >)
        requires
            extra_wf(extra),
        ensures
            files@.len() > self.max_files ==> (r matches Err(TwoCaptchaError::Validation(m)) && m@
                == "Too many files (max: "@ + dec_str(self.max_files as int) + ")"@),
            r matches Ok(p) ==> files@.len() <= self.max_files && p.wf() && p@ == with_extra(
                Map::<Seq<char>, Seq<char>>::empty().insert("method"@, "rotatecaptcha"@)
                    .union_prefer_right(files_map_upto(files@, files@.len() as int)),
                extra,
            ),
            r matches Err(e) ==> (e matches TwoCaptchaError::Validation(m) && (m@
                == "Too many files (max: "@ + dec_str(self.max_files as int) + ")"@
                || is_prefix_of("File not found: ["@, m@))),
    {
        let extracted = match Utils::extract_files(files, self.max_files) {
            Ok(ef) => ef,
            Err(e) => {
                return Err(e);
            },
        };
        let mut p = ParamMap::new();
        p.insert("method".to_owned(), "rotatecaptcha".to_owned());
        p.extend(extracted);
        match extra {
            Some(e) => p.extend(e),
            None => {},
        }
        Ok(p)
    }

    /// Submission parameters for a DataDome captcha; the proxy descriptor
    /// is serialized into the `proxy` parameter.
    pub fn datadome(
        &self,
        captcha_url: &str,
        pageurl: &str,
        user_agent: &str,
        proxy: &Proxy,
        extra: Option<ParamMap>,
    ) -> (r: ParamMap)
        requires
            extra_wf(extra),
        ensures
            r.wf(),
            r@ == with_extra(
                Map::<Seq<char>, Seq<char>>::empty().insert("method"@, "datadome"@).insert(
                    "captcha_url"@,
                    captcha_url@,
                ).insert("pageurl"@, pageurl@).insert("userAgent"@, user_agent@).insert(
                    "proxy"@,
                    proxy_json_of(proxy.proxy_type@, proxy.uri@),
                ),
                extra,
            ),
    {
        let mut p = ParamMap::new();
        p.insert("method".to_owned(), "datadome".to_owned());
        p.insert("captcha_url".to_owned(), captcha_url.to_owned());
        p.insert("pageurl".to_owned(), pageurl.to_owned());
        p.insert("userAgent".to_owned(), user_agent.to_owned());
        p.insert("proxy".to_owned(), proxy_to_json(proxy));
        match extra {
            Some(e) => p.extend(e),
            None => {},
        }
        p
    }

    /// Submission parameters for a text captcha.
    pub fn text(&self, text: &str, extra: Option<ParamMap>) -> (r: ParamMap)
        requires
            extra_wf(extra),
        ensures
            r.wf(),
            r@ == with_extra(
                Map::<Seq<char>, Seq<char>>::empty().insert("text"@, text@).insert("method"@, "post"@),
                extra,
            ),
    {
        let mut p = ParamMap::new();
        p.insert("text".to_owned(), text.to_owned());
        p.insert("method".to_owned(), "post".to_owned());
        match extra {
            Some(e) => p.extend(e),
            None => {},
        }
        p
    }

    /// Submission parameters for a FunCaptcha task.
    pub fn funcaptcha(&self, sitekey: &str, url: &str, extra: Option<ParamMap>) -> (r: ParamMap)
        requires
            extra_wf(extra),
        ensures
            r.wf(),
            r@ == with_extra(
                Map::<Seq<char>, Seq<char>>::empty().insert("publickey"@, sitekey@).insert("url"@, url@).insert("method"@, "funcaptcha"@),
                extra,
            ),
    {
        let mut p = ParamMap::new();
        p.insert("publickey".to_owned(), sitekey.to_owned());
        p.insert("url".to_owned(), url.to_owned());
        p.insert("method".to_owned(), "funcaptcha".to_owned());
        match extra {
            Some(e) => p.extend(e),
            None => {},
        }
        p
    }

    /// Submission parameters for a GeeTest task.
    pub fn geetest(&self, gt: &str, challenge: &str, url: &str, extra: Option<ParamMap>) -> (r: ParamMap)
        requires
            extra_wf(extra),
        ensures
            r.wf(),
            r@ == with_extra(
                Map::<Seq<char>, Seq<char>>::empty().insert("gt"@, gt@).insert("challenge"@, challenge@).insert("url"@, url@).insert("method"@, "geetest"@),
                extra,
            ),
    {
        let mut p = ParamMap::new();
        p.insert("gt".to_owned(), gt.to_owned());
        p.insert("challenge".to_owned(), challenge.to_owned());
        p.insert("url".to_owned(), url.to_owned());
        p.insert("method".to_owned(), "geetest".to_owned());
        match extra {
            Some(e) => p.extend(e),
            None => {},
        }
        p
    }

    /// Submission parameters for an hCaptcha task.
    pub fn hcaptcha(&self, sitekey: &str, url: &str, extra: Option<ParamMap>) -> (r: ParamMap)
        requires
            extra_wf(extra),
        ensures
            r.wf(),
            r@ == with_extra(
                Map::<Seq<char>, Seq<char>>::empty().insert("sitekey"@, sitekey@).insert("url"@, url@).insert("method"@, "hcaptcha"@),
                extra,
            ),
    {
        let mut p = ParamMap::new();
        p.insert("sitekey".to_owned(), sitekey.to_owned());
        p.insert("url".to_owned(), url.to_owned());
        p.insert("method".to_owned(), "hcaptcha".to_owned());
        match extra {
            Some(e) => p.extend(e),
            None => {},
        }
        p
    }

    /// Submission parameters for a KeyCaptcha task.
    pub fn keycaptcha(&self, s_s_c_user_id: &str, s_s_c_session_id: &str, s_s_c_web_server_sign: &str, s_s_c_web_server_sign2: &str, url: &str, extra: Option<ParamMap>) -> (r: ParamMap)
        requires
            extra_wf(extra),
        ensures
            r.wf(),
            r@ == with_extra(
                Map::<Seq<char>, Seq<char>>::empty().insert("s_s_c_user_id"@, s_s_c_user_id@).insert("s_s_c_session_id"@, s_s_c_session_id@).insert("s_s_c_web_server_sign"@, s_s_c_web_server_sign@).insert("s_s_c_web_server_sign2"@, s_s_c_web_server_sign2@).insert("url"@, url@).insert("method"@, "keycaptcha"@),
                extra,
            ),
    {
        let mut p = ParamMap::new();
        p.insert("s_s_c_user_id".to_owned(), s_s_c_user_id.to_owned());
        p.insert("s_s_c_session_id".to_owned(), s_s_c_session_id.to_owned());
        p.insert("s_s_c_web_server_sign".to_owned(), s_s_c_web_server_sign.to_owned());
        p.insert("s_s_c_web_server_sign2".to_owned(), s_s_c_web_server_sign2.to_owned());
        p.insert("url".to_owned(), url.to_owned());
        p.insert("method".to_owned(), "keycaptcha".to_owned());
        match extra {
            Some(e) => p.extend(e),
            None => {},
        }
        p
    }

    /// Submission parameters for a Capy puzzle task.
    pub fn capy(&self, sitekey: &str, url: &str, extra: Option<ParamMap>) -> (r: ParamMap)
        requires
            extra_wf(extra),
        ensures
            r.wf(),
            r@ == with_extra(
                Map::<Seq<char>, Seq<char>>::empty().insert("captchakey"@, sitekey@).insert("url"@, url@).insert("method"@, "capy"@),
                extra,
            ),
    {
        let mut p = ParamMap::new();
        p.insert("captchakey".to_owned(), sitekey.to_owned());
        p.insert("url".to_owned(), url.to_owned());
        p.insert("method".to_owned(), "capy".to_owned());
        match extra {
            Some(e) => p.extend(e),
            None => {},
        }
        p
    }

    /// Submission parameters for a GeeTest v4 task.
    pub fn geetest_v4(&self, captcha_id: &str, url: &str, extra: Option<ParamMap>) -> (r: ParamMap)
        requires
            extra_wf(extra),
        ensures
            r.wf(),
            r@ == with_extra(
                Map::<Seq<char>, Seq<char>>::empty().insert("captcha_id"@, captcha_id@).insert("url"@, url@).insert("method"@, "geetest_v4"@),
                extra,
            ),
    {
        let mut p = ParamMap::new();
        p.insert("captcha_id".to_owned(), captcha_id.to_owned());
        p.insert("url".to_owned(), url.to_owned());
        p.insert("method".to_owned(), "geetest_v4".to_owned());
        match extra {
            Some(e) => p.extend(e),
            None => {},
        }
        p
    }

    /// Submission parameters for a Lemin cropped-captcha task.
    pub fn lemin(&self, captcha_id: &str, div_id: &str, url: &str, extra: Option<ParamMap>) -> (r: ParamMap)
        requires
            extra_wf(extra),
        ensures
            r.wf(),
            r@ == with_extra(
                Map::<Seq<char>, Seq<char>>::empty().insert("captcha_id"@, captcha_id@).insert("div_id"@, div_id@).insert("url"@, url@).insert("method"@, "lemin"@),
                extra,
            ),
    {
        let mut p = ParamMap::new();
        p.insert("captcha_id".to_owned(), captcha_id.to_owned());
        p.insert("div_id".to_owned(), div_id.to_owned());
        p.insert("url".to_owned(), url.to_owned());
        p.insert("method".to_owned(), "lemin".to_owned());
        match extra {
            Some(e) => p.extend(e),
            None => {},
        }
        p
    }

    /// Submission parameters for an atbCAPTCHA task.
    pub fn atb_captcha(&self, app_id: &str, api_server: &str, url: &str, extra: Option<ParamMap>) -> (r: ParamMap)
        requires
            extra_wf(extra),
        ensures
            r.wf(),
            r@ == with_extra(
                Map::<Seq<char>, Seq<char>>::empty().insert("app_id"@, app_id@).insert("api_server"@, api_server@).insert("url"@, url@).insert("method"@, "atb_captcha"@),
                extra,
            ),
    {
        let mut p = ParamMap::new();
        p.insert("app_id".to_owned(), app_id.to_owned());
        p.insert("api_server".to_owned(), api_server.to_owned());
        p.insert("url".to_owned(), url.to_owned());
        p.insert("method".to_owned(), "atb_captcha".to_owned());
        match extra {
            Some(e) => p.extend(e),
            None => {},
        }
        p
    }

    /// Submission parameters for a Cloudflare Turnstile task.
    pub fn turnstile(&self, sitekey: &str, url: &str, extra: Option<ParamMap>) -> (r: ParamMap)
        requires
            extra_wf(extra),
        ensures
            r.wf(),
            r@ == with_extra(
                Map::<Seq<char>, Seq<char>>::empty().insert("sitekey"@, sitekey@).insert("url"@, url@).insert("method"@, "turnstile"@),
                extra,
            ),
    {
        let mut p = ParamMap::new();
        p.insert("sitekey".to_owned(), sitekey.to_owned());
        p.insert("url".to_owned(), url.to_owned());
        p.insert("method".to_owned(), "turnstile".to_owned());
        match extra {
            Some(e) => p.extend(e),
            None => {},
        }
        p
    }

    /// Submission parameters for an Amazon WAF task.
    pub fn amazon_waf(&self, sitekey: &str, iv: &str, context: &str, url: &str, extra: Option<ParamMap>) -> (r: ParamMap)
        requires
            extra_wf(extra),
        ensures
            r.wf(),
            r@ == with_extra(
                Map::<Seq<char>, Seq<char>>::empty().insert("sitekey"@, sitekey@).insert("iv"@, iv@).insert("context"@, context@).insert("url"@, url@).insert("method"@, "amazon_waf"@),
                extra,
            ),
    {
        let mut p = ParamMap::new();
        p.insert("sitekey".to_owned(), sitekey.to_owned());
        p.insert("iv".to_owned(), iv.to_owned());
        p.insert("context".to_owned(), context.to_owned());
        p.insert("url".to_owned(), url.to_owned());
        p.insert("method".to_owned(), "amazon_waf".to_owned());
        match extra {
            Some(e) => p.extend(e),
            None => {},
        }
        p
    }

    /// Submission parameters for an MTCaptcha task.
    pub fn mtcaptcha(&self, sitekey: &str, url: &str, extra: Option<ParamMap>) -> (r: ParamMap)
        requires
            extra_wf(extra),
        ensures
            r.wf(),
            r@ == with_extra(
                Map::<Seq<char>, Seq<char>>::empty().insert("sitekey"@, sitekey@).insert("url"@, url@).insert("method"@, "mt_captcha"@),
                extra,
            ),
    {
        let mut p = ParamMap::new();
        p.insert("sitekey".to_owned(), sitekey.to_owned());
        p.insert("url".to_owned(), url.to_owned());
        p.insert("method".to_owned(), "mt_captcha".to_owned());
        match extra {
            Some(e) => p.extend(e),
            None => {},
        }
        p
    }

    /// Submission parameters for a Friendly Captcha task.
    pub fn friendly_captcha(&self, sitekey: &str, url: &str, extra: Option<ParamMap>) -> (r: ParamMap)
        requires
            extra_wf(extra),
        ensures
            r.wf(),
            r@ == with_extra(
                Map::<Seq<char>, Seq<char>>::empty().insert("sitekey"@, sitekey@).insert("url"@, url@).insert("method"@, "friendly_captcha"@),
                extra,
            ),
    {
        let mut p = ParamMap::new();
        p.insert("sitekey".to_owned(), sitekey.to_owned());
        p.insert("url".to_owned(), url.to_owned());
        p.insert("method".to_owned(), "friendly_captcha".to_owned());
        match extra {
            Some(e) => p.extend(e),
            None => {},
        }
        p
    }

    /// Submission parameters for a Tencent captcha task.
    pub fn tencent(&self, app_id: &str, url: &str, extra: Option<ParamMap>) -> (r: ParamMap)
        requires
            extra_wf(extra),
        ensures
            r.wf(),
            r@ == with_extra(
                Map::<Seq<char>, Seq<char>>::empty().insert("app_id"@, app_id@).insert("url"@, url@).insert("method"@, "tencent"@),
                extra,
            ),
    {
        let mut p = ParamMap::new();
        p.insert("app_id".to_owned(), app_id.to_owned());
        p.insert("url".to_owned(), url.to_owned());
        p.insert("method".to_owned(), "tencent".to_owned());
        match extra {
            Some(e) => p.extend(e),
            None => {},
        }
        p
    }

    /// Submission parameters for a CutCaptcha task.
    pub fn cutcaptcha(&self, misery_key: &str, apikey: &str, url: &str, extra: Option<ParamMap>) -> (r: ParamMap)
        requires
            extra_wf(extra),
        ensures
            r.wf(),
            r@ == with_extra(
                Map::<Seq<char>, Seq<char>>::empty().insert("misery_key"@, misery_key@).insert("api_key"@, apikey@).insert("url"@, url@).insert("method"@, "cutcaptcha"@),
                extra,
            ),
    {
        let mut p = ParamMap::new();
        p.insert("misery_key".to_owned(), misery_key.to_owned());
        p.insert("api_key".to_owned(), apikey.to_owned());
        p.insert("url".to_owned(), url.to_owned());
        p.insert("method".to_owned(), "cutcaptcha".to_owned());
        match extra {
            Some(e) => p.extend(e),
            None => {},
        }
        p
    }

    /// Submission parameters for a CyberSiARA task.
    pub fn cybersiara(&self, master_url_id: &str, pageurl: &str, user_agent: &str, extra: Option<ParamMap>) -> (r: ParamMap)
        requires
            extra_wf(extra),
        ensures
            r.wf(),
            r@ == with_extra(
                Map::<Seq<char>, Seq<char>>::empty().insert("method"@, "cybersiara"@).insert("master_url_id"@, master_url_id@).insert("pageurl"@, pageurl@).insert("userAgent"@, user_agent@),
                extra,
            ),
    {
        let mut p = ParamMap::new();
        p.insert("method".to_owned(), "cybersiara".to_owned());
        p.insert("master_url_id".to_owned(), master_url_id.to_owned());
        p.insert("pageurl".to_owned(), pageurl.to_owned());
        p.insert("userAgent".to_owned(), user_agent.to_owned());
        match extra {
            Some(e) => p.extend(e),
            None => {},
        }
        p
    }

    /// Submission parameters for a Yandex Smart captcha task.
    pub fn yandex_smart(&self, sitekey: &str, url: &str, extra: Option<ParamMap>) -> (r: ParamMap)
        requires
            extra_wf(extra),
        ensures
            r.wf(),
            r@ == with_extra(
                Map::<Seq<char>, Seq<char>>::empty().insert("sitekey"@, sitekey@).insert("url"@, url@).insert("method"@, "yandex"@),
                extra,
            ),
    {
        let mut p = ParamMap::new();
        p.insert("sitekey".to_owned(), sitekey.to_owned());
        p.insert("url".to_owned(), url.to_owned());
        p.insert("method".to_owned(), "yandex".to_owned());
        match extra {
            Some(e) => p.extend(e),
            None => {},
        }
        p
    }
}

} // verus!
