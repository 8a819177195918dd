//! Data types shared by the solver: proxy descriptors, audio languages,
//! reCAPTCHA versions and the solved-captcha outcome.

use vstd::prelude::*;

verus! {

/// Proxy configuration: a protocol name and a `login:password@host:port`
/// style address. Serialized to the two flat wire fields `proxy` and
/// `proxytype` during normalization, never as a nested structure.
#[derive(Debug, Clone)]
pub struct Proxy {
    pub proxy_type: String,
    pub uri: String,
}

/// The outcome of one solve call. `captcha_id` always holds the remote
/// task id. At most one of `code` (plain decoded token) and `extended`
/// (raw structured payload of the extended response) is populated; both
/// stay empty when a callback address takes the answer out-of-band.
#[derive(Debug, Clone)]
pub struct CaptchaResult {
    pub captcha_id: String,
    pub code: Option<String>,
    pub extended: Option<String>,
}

impl CaptchaResult {
    /// At most one of the two result shapes is populated.
    pub open spec fn wf(&self) -> bool {
        !(self.code is Some && self.extended is Some)
    }
}

/// Audio captcha supported languages.
#[derive(Debug, Clone)]
pub enum AudioLanguage {
    English,
    Russian,
    German,
    Greek,
    Portuguese,
    French,
}

impl AudioLanguage {
    /// The wire code of the language.
    pub open spec fn spec_code(&self) -> Seq<char> {
        match self {
            AudioLanguage::English => "en"@,
            AudioLanguage::Russian => "ru"@,
            AudioLanguage::German => "de"@,
            AudioLanguage::Greek => "el"@,
            AudioLanguage::Portuguese => "pt"@,
            AudioLanguage::French => "fr"@,
        }
    }

    /// The two-letter wire code of the language.
    pub fn as_str(&self) -> (r: &'static str)
        ensures
            r@ == self.spec_code(),
    {
        match self {
            AudioLanguage::English => "en",
            AudioLanguage::Russian => "ru",
            AudioLanguage::German => "de",
            AudioLanguage::Greek => "el",
            AudioLanguage::Portuguese => "pt",
            AudioLanguage::French => "fr",
        }
    }
}

impl std::str::FromStr for AudioLanguage {
    type Err = ();

    fn from_str(s: &str) -> std::result::Result<Self, Self::Err> {
        if crate::strutil::str_eq(s, "en") {
            Ok(AudioLanguage::English)
        } else if crate::strutil::str_eq(s, "ru") {
            Ok(AudioLanguage::Russian)
        } else if crate::strutil::str_eq(s, "de") {
            Ok(AudioLanguage::German)
        } else if crate::strutil::str_eq(s, "el") {
            Ok(AudioLanguage::Greek)
        } else if crate::strutil::str_eq(s, "pt") {
            Ok(AudioLanguage::Portuguese)
        } else if crate::strutil::str_eq(s, "fr") {
            Ok(AudioLanguage::French)
        } else {
            Err(())
        }
    }
}

/// reCAPTCHA version.
#[derive(Debug, Clone)]
pub enum RecaptchaVersion {
    V2,
    V3,
}

impl RecaptchaVersion {
    /// The wire name of the version.
    pub open spec fn spec_code(&self) -> Seq<char> {
        match self {
            RecaptchaVersion::V2 => "v2"@,
            RecaptchaVersion::V3 => "v3"@,
        }
    }

    /// The wire name of the version.
    pub fn as_str(&self) -> (r: &'static str)
        ensures
            r@ == self.spec_code(),
    {
        match self {
            RecaptchaVersion::V2 => "v2",
            RecaptchaVersion::V3 => "v3",
        }
    }
}

} // verus!
