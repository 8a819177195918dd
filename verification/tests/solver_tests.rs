use twocaptcha::{
    AudioLanguage, AudioSource, ParamMap, PollDecision, Poller, Proxy, RecaptchaVersion,
    TwoCaptcha, TwoCaptchaError,
};
use twocaptcha::solver::audio_source;
use twocaptcha::transport::{classify_response, needs_multipart};

fn plain_client() -> TwoCaptcha {
    TwoCaptcha::new("test_key".to_string(), None, None, None, None, None, None, None)
}

#[test]
fn test_twocaptcha_creation() {
    let client = TwoCaptcha::new(
        "test_key".to_string(),
        Some(1234),
        None,
        None,
        None,
        None,
        None,
        None,
    );

    assert_eq!(client.api_key, "test_key");
    assert_eq!(client.soft_id, Some(1234));
    assert_eq!(client.max_files, 9);
}

#[test]
fn creation_fills_documented_defaults() {
    let client = plain_client();
    assert_eq!(client.soft_id, Some(4580));
    assert_eq!(client.default_timeout_ms, 120_000);
    assert_eq!(client.recaptcha_timeout_ms, 600_000);
    assert_eq!(client.polling_interval_ms, 10_000);
    assert_eq!(client.server, "2captcha.com");
    assert!(!client.extended_response);
}

#[test]
fn submit_response_yields_exact_task_id() {
    let r = TwoCaptcha::parse_submit_response("OK|abc123").unwrap();
    assert_eq!(r, "abc123");
}

#[test]
fn unrecognized_submit_response_is_api_error() {
    match TwoCaptcha::parse_submit_response("NO_SLOT_AVAILABLE") {
        Err(TwoCaptchaError::Api(m)) => {
            assert_eq!(m, "cannot recognize response NO_SLOT_AVAILABLE")
        }
        other => panic!("expected an api error, got {:?}", other),
    }
}

#[test]
fn polling_retries_until_timeout_within_one_interval() {
    let mut poller = Poller::new(100, 30);
    let mut retries = 0;
    loop {
        if poller.expired() {
            break;
        }
        let outcome: Result<String, TwoCaptchaError> =
            Err(TwoCaptchaError::Network("CAPTCHA_NOT_READY".to_string()));
        match poller.on_response(outcome) {
            PollDecision::Retry => retries += 1,
            PollDecision::Finished(_) => panic!("a not-ready answer never finishes the poll"),
        }
        assert!(retries <= 10, "the poll must stop by its deadline");
    }
    assert_eq!(retries, 4);
    assert!(poller.elapsed_ms >= 100);
    assert!(poller.elapsed_ms < 100 + 30);
    match poller.timeout_error() {
        TwoCaptchaError::Timeout(m) => assert_eq!(m, "timeout 0 exceeded"),
        other => panic!("expected a timeout error, got {:?}", other),
    }
}

#[test]
fn timeout_error_names_the_threshold_in_seconds() {
    let poller = Poller::new(120_000, 10_000);
    match poller.timeout_error() {
        TwoCaptchaError::Timeout(m) => assert_eq!(m, "timeout 120 exceeded"),
        other => panic!("expected a timeout error, got {:?}", other),
    }
}

#[test]
fn poll_finishes_at_once_on_a_ready_answer() {
    let mut poller = Poller::new(100, 30);
    match poller.on_response(Ok("token".to_string())) {
        PollDecision::Finished(Ok(t)) => assert_eq!(t, "token"),
        other => panic!("expected the token, got {:?}", other),
    }
    assert_eq!(poller.elapsed_ms, 0);
}

#[test]
fn poll_propagates_terminal_errors() {
    let mut poller = Poller::new(100, 30);
    let outcome = Err(TwoCaptchaError::Api("ERROR_WRONG_CAPTCHA_ID".to_string()));
    match poller.on_response(outcome) {
        PollDecision::Finished(Err(TwoCaptchaError::Api(m))) => {
            assert_eq!(m, "ERROR_WRONG_CAPTCHA_ID")
        }
        other => panic!("expected the api error back, got {:?}", other),
    }
}

#[test]
fn plain_fetch_interpretation() {
    let client = plain_client();
    match client.interpret_fetch_response("CAPCHA_NOT_READY") {
        Err(TwoCaptchaError::Network(m)) => assert_eq!(m, "CAPTCHA_NOT_READY"),
        other => panic!("expected the not-ready signal, got {:?}", other),
    }
    assert_eq!(client.interpret_fetch_response("OK|abcd").unwrap(), "abcd");
    match client.interpret_fetch_response("SOMETHING_ELSE") {
        Err(TwoCaptchaError::Api(m)) => {
            assert_eq!(m, "cannot recognize response SOMETHING_ELSE")
        }
        other => panic!("expected an api error, got {:?}", other),
    }
}

fn extended_client() -> TwoCaptcha {
    TwoCaptcha::new(
        "test_key".to_string(),
        None,
        None,
        None,
        None,
        None,
        None,
        Some(true),
    )
}

#[test]
fn extended_fetch_interpretation() {
    let client = extended_client();
    match client.interpret_fetch_response("{\"status\":0,\"request\":\"CAPCHA_NOT_READY\"}") {
        Err(TwoCaptchaError::Network(m)) => assert_eq!(m, "CAPTCHA_NOT_READY"),
        other => panic!("expected the not-ready signal, got {:?}", other),
    }
    let ready = "{\"status\":1,\"request\":\"tok\"}";
    assert_eq!(client.interpret_fetch_response(ready).unwrap(), ready);
    match client.interpret_fetch_response("{\"status\":5}") {
        Err(TwoCaptchaError::Api(m)) => {
            assert_eq!(m, "Unexpected status in response: {\"status\":5}")
        }
        other => panic!("expected an api error, got {:?}", other),
    }
    match client.interpret_fetch_response("not structured at all") {
        Err(TwoCaptchaError::Serialization(m)) => assert_eq!(m, "not structured at all"),
        other => panic!("expected a serialization error, got {:?}", other),
    }
}

#[test]
fn classify_rejects_non_200_status() {
    match classify_response(500, "whatever".to_string()) {
        Err(TwoCaptchaError::Network(m)) => assert_eq!(m, "bad response: 500"),
        other => panic!("expected a network error, got {:?}", other),
    }
}

#[test]
fn classify_rejects_error_payload() {
    match classify_response(200, "ERROR_KEY_DOES_NOT_EXIST".to_string()) {
        Err(TwoCaptchaError::Api(m)) => assert_eq!(m, "ERROR_KEY_DOES_NOT_EXIST"),
        other => panic!("expected an api error, got {:?}", other),
    }
}

#[test]
fn classify_passes_clean_payload_through() {
    assert_eq!(classify_response(200, "OK|1".to_string()).unwrap(), "OK|1");
}

#[test]
fn multipart_only_with_files() {
    let empty = ParamMap::new();
    let mut with_file = ParamMap::new();
    with_file.insert("file".to_string(), "a.png".to_string());
    let mut uploads = ParamMap::new();
    uploads.insert("imginstructions".to_string(), "h.png".to_string());
    assert!(!needs_multipart(&empty, &empty));
    assert!(needs_multipart(&empty, &with_file));
    assert!(needs_multipart(&uploads, &empty));
}

#[test]
fn normalize_submit_fetch_round_trip() {
    let client = plain_client();
    let mut params = ParamMap::new();
    params.insert("url".to_string(), "https://example.com".to_string());
    params.insert("caseSensitive".to_string(), "1".to_string());
    let (wire, uploads) = client.prepare_submission(params).unwrap();
    assert_eq!(*wire.get("pageurl").unwrap(), "https://example.com");
    assert_eq!(*wire.get("regsense").unwrap(), "1");
    assert_eq!(*wire.get("key").unwrap(), "test_key");
    assert_eq!(*wire.get("soft_id").unwrap(), "4580");
    assert!(!wire.contains_key("url"));
    assert!(!wire.contains_key("caseSensitive"));
    assert!(uploads.is_empty());

    let id = TwoCaptcha::parse_submit_response("OK|999").unwrap();
    assert_eq!(id, "999");

    let token = client.interpret_fetch_response("OK|abcd").unwrap();
    assert_eq!(token, "abcd");

    let outcome = client.solve_outcome(id, Some(token));
    assert_eq!(outcome.captcha_id, "999");
    assert_eq!(outcome.code.as_deref(), Some("abcd"));
    assert!(outcome.extended.is_none());
}

#[test]
fn callback_skips_polling_and_renames_to_pingback() {
    let client = TwoCaptcha::new(
        "k".to_string(),
        None,
        Some("https://cb.example/hook".to_string()),
        None,
        None,
        None,
        None,
        None,
    );
    let (wire, _) = client.prepare_submission(ParamMap::new()).unwrap();
    assert_eq!(*wire.get("pingback").unwrap(), "https://cb.example/hook");
    assert!(!wire.contains_key("callback"));

    let outcome = client.solve_outcome("7".to_string(), None);
    assert_eq!(outcome.captcha_id, "7");
    assert!(outcome.code.is_none());
    assert!(outcome.extended.is_none());
}

#[test]
fn extended_outcome_lands_in_extended() {
    let client = extended_client();
    let raw = "{\"status\":1,\"request\":\"tok\"}".to_string();
    let outcome = client.solve_outcome("5".to_string(), Some(raw.clone()));
    assert_eq!(outcome.extended.as_deref(), Some(raw.as_str()));
    assert!(outcome.code.is_none());
}

#[test]
fn fetch_params_carry_json_flag_only_in_extended_mode() {
    let plain = plain_client();
    let p = plain.fetch_params("42");
    assert_eq!(*p.get("key").unwrap(), "test_key");
    assert_eq!(*p.get("action").unwrap(), "get");
    assert_eq!(*p.get("id").unwrap(), "42");
    assert!(!p.contains_key("json"));

    let ext = extended_client();
    let p = ext.fetch_params("42");
    assert_eq!(*p.get("json").unwrap(), "1");
}

#[test]
fn balance_and_report_params() {
    let client = plain_client();
    let b = client.balance_params();
    assert_eq!(*b.get("action").unwrap(), "getbalance");
    let good = client.report_params("9", true);
    assert_eq!(*good.get("action").unwrap(), "reportgood");
    assert_eq!(*good.get("id").unwrap(), "9");
    let bad = client.report_params("9", false);
    assert_eq!(*bad.get("action").unwrap(), "reportbad");
}

#[test]
fn recaptcha_fills_version_and_enterprise_defaults() {
    let client = plain_client();
    let p = client.recaptcha("sk", "https://e.com", None, None, None);
    assert_eq!(*p.get("googlekey").unwrap(), "sk");
    assert_eq!(*p.get("method").unwrap(), "userrecaptcha");
    assert_eq!(*p.get("version").unwrap(), "v2");
    assert_eq!(*p.get("enterprise").unwrap(), "0");
    let p3 = client.recaptcha("sk", "https://e.com", Some(RecaptchaVersion::V3), Some(true), None);
    assert_eq!(*p3.get("version").unwrap(), "v3");
    assert_eq!(*p3.get("enterprise").unwrap(), "1");
}

#[test]
fn canvas_requires_a_hint() {
    let client = plain_client();
    match client.canvas(ParamMap::new(), None) {
        Err(TwoCaptchaError::Validation(m)) => {
            assert_eq!(m, "parameters required: hintText and/or hintImg")
        }
        other => panic!("expected a validation error, got {:?}", other),
    }
    let mut extra = ParamMap::new();
    extra.insert("hintText".to_string(), "pick the red one".to_string());
    let p = client.canvas(ParamMap::new(), Some(extra)).unwrap();
    assert_eq!(*p.get("canvas").unwrap(), "1");
    assert_eq!(*p.get("recaptcha").unwrap(), "1");
    assert_eq!(*p.get("hintText").unwrap(), "pick the red one");
}

#[test]
fn datadome_serializes_the_proxy_flat() {
    let client = plain_client();
    let proxy = Proxy {
        proxy_type: "HTTPS".to_string(),
        uri: "login:password@1.2.3.4:8080".to_string(),
    };
    let p = client.datadome("https://c.example", "https://p.example", "agent", &proxy, None);
    assert_eq!(
        *p.get("proxy").unwrap(),
        "{\"type\":\"HTTPS\",\"uri\":\"login:password@1.2.3.4:8080\"}"
    );
    assert_eq!(*p.get("method").unwrap(), "datadome");
}

#[test]
fn audio_source_classification() {
    let inline: String = std::iter::repeat('Q').take(60).collect();
    match audio_source(&inline).unwrap() {
        AudioSource::Inline(b) => assert_eq!(b, inline),
        other => panic!("expected an inline source, got {:?}", other_name(&other)),
    }
    match audio_source("http://h.example/a.mp3").unwrap() {
        AudioSource::Download(u) => assert_eq!(u, "http://h.example/a.mp3"),
        other => panic!("expected a download source, got {:?}", other_name(&other)),
    }
    match audio_source("local/a.mp3").unwrap() {
        AudioSource::ReadFile(p) => assert_eq!(p, "local/a.mp3"),
        other => panic!("expected a file source, got {:?}", other_name(&other)),
    }
    match audio_source("notaudio.wav") {
        Err(TwoCaptchaError::Validation(m)) => {
            assert_eq!(m, "File extension is not .mp3 or it is not a base64 string.")
        }
        other => panic!("expected a validation error, got {:?}", other.is_ok()),
    }
}

fn other_name(s: &AudioSource) -> &'static str {
    match s {
        AudioSource::Inline(_) => "inline",
        AudioSource::Download(_) => "download",
        AudioSource::ReadFile(_) => "file",
    }
}

#[test]
fn audio_builder_carries_language() {
    let client = plain_client();
    let p = client.audio("BODY".to_string(), &AudioLanguage::French, None);
    assert_eq!(*p.get("body").unwrap(), "BODY");
    assert_eq!(*p.get("method").unwrap(), "audio");
    assert_eq!(*p.get("lang").unwrap(), "fr");
}

#[test]
fn language_and_version_codes() {
    assert_eq!(AudioLanguage::English.as_str(), "en");
    assert_eq!(AudioLanguage::Portuguese.as_str(), "pt");
    assert_eq!(RecaptchaVersion::V2.as_str(), "v2");
    assert_eq!(RecaptchaVersion::V3.as_str(), "v3");
    let lang: AudioLanguage = "de".parse().unwrap();
    assert_eq!(lang.as_str(), "de");
    assert!("xx".parse::<AudioLanguage>().is_err());
}

#[test]
fn error_messages_name_their_kind() {
    let e = TwoCaptchaError::Validation("bad input".to_string());
    assert_eq!(e.message(), "Validation error: bad input");
    let e = TwoCaptchaError::Timeout("timeout 120 exceeded".to_string());
    assert_eq!(e.message(), "Timeout error: timeout 120 exceeded");
}

#[test]
fn builder_extras_override_base_keys() {
    let client = plain_client();
    let mut extra = ParamMap::new();
    extra.insert("url".to_string(), "https://override.example".to_string());
    let p = client.hcaptcha("sk", "https://base.example", Some(extra));
    assert_eq!(*p.get("url").unwrap(), "https://override.example");
    assert_eq!(*p.get("sitekey").unwrap(), "sk");
    assert_eq!(*p.get("method").unwrap(), "hcaptcha");
}
