use twocaptcha::{MethodSpec, ParamMap, TwoCaptchaError, Utils};

#[test]
fn test_get_method_base64() {
    let base64_string = "iVBORw0KGgoAAAANSUhEUgAAAAEAAAABCAYAAAAfFcSJAAAADUlEQVR42mP8/5+hHgAHggJ/PchI7wAAAABJRU5ErkJggg==";
    let result = Utils::get_method(base64_string).unwrap();
    match result {
        MethodSpec::Ready(m) => {
            assert_eq!(*m.get("method").unwrap(), "base64");
            assert_eq!(*m.get("body").unwrap(), *base64_string);
        }
        MethodSpec::Download(_) => panic!("inline input must not be downloaded"),
    }
}

#[test]
fn test_extract_files() {
    let files = vec!["test1.txt".to_string(), "test2.txt".to_string()];
    let result = Utils::extract_files(files, 5);
    // This will fail because files don't exist, but tests the validation logic
    assert!(result.is_err());
}

#[test]
fn test_rename_params() {
    let mut params = ParamMap::new();
    params.insert("caseSensitive".to_string(), "1".to_string());
    params.insert("minLen".to_string(), "5".to_string());
    params.insert("url".to_string(), "https://example.com".to_string());

    let result = Utils::rename_params(params);
    assert_eq!(*result.get("regsense").unwrap(), "1");
    assert_eq!(*result.get("min_len").unwrap(), "5");
    assert_eq!(*result.get("pageurl").unwrap(), "https://example.com");
}

#[test]
fn rename_drops_every_old_key() {
    let table = [
        ("caseSensitive", "regsense"),
        ("minLen", "min_len"),
        ("maxLen", "max_len"),
        ("minLength", "min_len"),
        ("maxLength", "max_len"),
        ("hintText", "textinstructions"),
        ("hintImg", "imginstructions"),
        ("url", "pageurl"),
        ("score", "min_score"),
        ("text", "textcaptcha"),
        ("rows", "recaptcharows"),
        ("cols", "recaptchacols"),
        ("previousId", "previousID"),
        ("canSkip", "can_no_answer"),
        ("apiServer", "api_server"),
        ("softId", "soft_id"),
        ("callback", "pingback"),
        ("datas", "data-s"),
    ];
    for (old_key, new_key) in table.iter() {
        let mut params = ParamMap::new();
        params.insert(old_key.to_string(), "value".to_string());
        let renamed = Utils::rename_params(params);
        assert_eq!(*renamed.get(new_key).unwrap(), "value");
        assert!(!renamed.contains_key(old_key));
    }
}

#[test]
fn rename_passes_unknown_keys_through() {
    let mut params = ParamMap::new();
    params.insert("sitekey".to_string(), "abc".to_string());
    let renamed = Utils::rename_params(params);
    assert_eq!(*renamed.get("sitekey").unwrap(), "abc");
}

#[test]
fn rename_expands_parsable_proxy() {
    let mut params = ParamMap::new();
    params.insert(
        "proxy".to_string(),
        "{\"type\":\"HTTPS\",\"uri\":\"login:password@1.2.3.4:8080\"}".to_string(),
    );
    let renamed = Utils::rename_params(params);
    assert_eq!(*renamed.get("proxy").unwrap(), "login:password@1.2.3.4:8080");
    assert_eq!(*renamed.get("proxytype").unwrap(), "HTTPS");
}

#[test]
fn rename_drops_unparsable_proxy() {
    let mut params = ParamMap::new();
    params.insert("proxy".to_string(), "not a proxy object".to_string());
    let renamed = Utils::rename_params(params);
    assert!(!renamed.contains_key("proxy"));
    assert!(!renamed.contains_key("proxytype"));
}

#[test]
fn get_method_empty_input_is_validation() {
    match Utils::get_method("") {
        Err(TwoCaptchaError::Validation(m)) => assert_eq!(m, "File required"),
        other => panic!("expected a validation error, got {:?}", other),
    }
}

#[test]
fn get_method_missing_path_is_validation_only() {
    match Utils::get_method("surely_missing_9471.png") {
        Err(TwoCaptchaError::Validation(m)) => {
            assert_eq!(m, "File not found: surely_missing_9471.png")
        }
        other => panic!("expected a validation error, got {:?}", other),
    }
}

#[test]
fn get_method_existing_path_is_post() {
    match Utils::get_method("/tmp").unwrap() {
        MethodSpec::Ready(m) => {
            assert_eq!(*m.get("method").unwrap(), "post");
            assert_eq!(*m.get("file").unwrap(), "/tmp");
        }
        MethodSpec::Download(_) => panic!("a local path is not downloaded"),
    }
}

#[test]
fn get_method_url_defers_to_download() {
    match Utils::get_method("http://host.example/image.png").unwrap() {
        MethodSpec::Download(u) => assert_eq!(u, "http://host.example/image.png"),
        MethodSpec::Ready(_) => panic!("a remote input must be downloaded first"),
    }
}

#[test]
fn downloaded_body_is_base64_encoded() {
    let fetched = Some((200u16, b"hello".to_vec()));
    let m = Utils::get_method_downloaded("http://x/y.png", fetched).unwrap();
    assert_eq!(*m.get("method").unwrap(), "base64");
    assert_eq!(*m.get("body").unwrap(), "aGVsbG8=");
}

#[test]
fn downloaded_bad_status_is_validation_naming_the_url() {
    match Utils::get_method_downloaded("http://x/y.png", Some((404, Vec::new()))) {
        Err(TwoCaptchaError::Validation(m)) => {
            assert_eq!(m, "File could not be downloaded from url: http://x/y.png")
        }
        other => panic!("expected a validation error, got {:?}", other),
    }
}

#[test]
fn download_transport_failure_is_validation_naming_the_url() {
    match Utils::get_method_downloaded("http://x/y.png", None) {
        Err(TwoCaptchaError::Validation(m)) => {
            assert_eq!(m, "File could not be downloaded from url: http://x/y.png")
        }
        other => panic!("expected a validation error, got {:?}", other),
    }
}

#[test]
fn batch_over_maximum_is_validation_listing_the_count() {
    let files: Vec<String> = (0..10).map(|i| format!("f{}.png", i)).collect();
    match Utils::extract_files(files, 9) {
        Err(TwoCaptchaError::Validation(m)) => assert_eq!(m, "Too many files (max: 9)"),
        other => panic!("expected a validation error, got {:?}", other),
    }
}

#[test]
fn batch_of_existing_files_maps_in_order() {
    let files = vec!["/tmp".to_string(), "/".to_string()];
    let m = Utils::extract_files(files, 9).unwrap();
    assert_eq!(*m.get("file_1").unwrap(), "/tmp");
    assert_eq!(*m.get("file_2").unwrap(), "/");
}

#[test]
fn batch_with_missing_files_lists_them_all() {
    let files = vec!["missing_a.png".to_string(), "missing_b.png".to_string()];
    match Utils::extract_files(files, 9) {
        Err(TwoCaptchaError::Validation(m)) => {
            assert_eq!(m, "File not found: [\"missing_a.png\", \"missing_b.png\"]");
        }
        other => panic!("expected a validation error, got {:?}", other),
    }
}

#[test]
fn empty_batch_always_succeeds() {
    let m = Utils::extract_files(Vec::new(), 9).unwrap();
    assert!(m.is_empty());
}

#[test]
fn checked_batch_lists_exactly_the_absent_paths() {
    let files = vec!["a.png".to_string(), "b.png".to_string(), "c.png".to_string()];
    let present = vec![true, false, false];
    match Utils::extract_files_checked(files, present, 9) {
        Err(TwoCaptchaError::Validation(m)) => {
            assert_eq!(m, "File not found: [\"b.png\", \"c.png\"]");
        }
        other => panic!("expected a validation error, got {:?}", other),
    }
}

#[test]
fn checked_batch_with_all_present_maps_in_order() {
    let files = vec!["a.png".to_string(), "b.png".to_string()];
    let present = vec![true, true];
    let m = Utils::extract_files_checked(files, present, 9).unwrap();
    assert_eq!(*m.get("file_1").unwrap(), "a.png");
    assert_eq!(*m.get("file_2").unwrap(), "b.png");
}

#[test]
fn encode_body_matches_the_wire_encoding() {
    assert_eq!(Utils::encode_body(&b"hello".to_vec()), "aGVsbG8=");
}

#[test]
fn hint_img_inline_stays_in_params() {
    let hint: String = std::iter::repeat('A').take(60).collect();
    let mut params = ParamMap::new();
    params.insert("imginstructions".to_string(), hint.clone());
    params.insert("file".to_string(), "x.png".to_string());
    let files = ParamMap::new();
    let (p2, f2) = Utils::check_hint_img(params, files).unwrap();
    assert_eq!(*p2.get("imginstructions").unwrap(), hint);
    assert!(f2.is_empty());
}

#[test]
fn hint_img_missing_path_is_validation() {
    let mut params = ParamMap::new();
    params.insert("imginstructions".to_string(), "missing_hint.png".to_string());
    let files = ParamMap::new();
    match Utils::check_hint_img(params, files) {
        Err(TwoCaptchaError::Validation(m)) => {
            assert_eq!(m, "File not found: missing_hint.png")
        }
        other => panic!("expected a validation error, got {:?}", other),
    }
}

#[test]
fn hint_img_existing_path_moves_to_uploads() {
    let mut params = ParamMap::new();
    params.insert("imginstructions".to_string(), "/tmp".to_string());
    params.insert("file".to_string(), "main_image.png".to_string());
    let files = ParamMap::new();
    let (p2, f2) = Utils::check_hint_img(params, files).unwrap();
    assert!(!p2.contains_key("imginstructions"));
    assert!(!p2.contains_key("file"));
    assert_eq!(*f2.get("imginstructions").unwrap(), "/tmp");
    assert_eq!(*f2.get("file").unwrap(), "main_image.png");
}

#[test]
fn hint_img_absent_changes_nothing() {
    let mut params = ParamMap::new();
    params.insert("sitekey".to_string(), "k".to_string());
    let files = ParamMap::new();
    let (p2, f2) = Utils::check_hint_img(params, files).unwrap();
    assert_eq!(*p2.get("sitekey").unwrap(), "k");
    assert!(f2.is_empty());
}
