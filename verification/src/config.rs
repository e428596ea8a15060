//! Process configuration and recognition-session settings.

use vstd::prelude::*;
use crate::text::str_eq_string;

verus! {

/// Configuration loaded at startup: the credentials of the recognition
/// service and where wordlist files live.
#[derive(Debug, Clone)]
pub struct Config {
    pub region: Option<String>,
    pub key: Option<String>,
    pub wordlist_dir: Option<String>,
}

/// Credential pair of the recognition service, immutable for the process's
/// lifetime.
#[derive(Debug, Clone)]
pub struct Auth {
    pub region: String,
    pub key: String,
}

/// The credentials the configuration provides: both the region and the key
/// must be present.
pub fn auth_from_config(config: &Config) -> (r: Option<Auth>)
    ensures
        r is Some <==> config.region is Some && config.key is Some,
        r matches Some(a) ==> a.region == config.region->Some_0 && a.key == config.key->Some_0,
{
    match (&config.region, &config.key) {
        (Some(region), Some(key)) => Some(
            Auth { region: region.clone(), key: key.clone() },
        ),
        _ => None,
    }
}

/// A language code the recognition service supports.
#[derive(Debug, Clone, Copy, PartialEq, Eq, Structural)]
pub enum LanguageCode {
    EnGb,
    EnIe,
    EnUs,
    JaJp,
}

/// The supported language a code names; unrecognized codes fall back to
/// British English.
pub open spec fn spec_language_code(lang: Seq<char>) -> LanguageCode {
    if lang == "en-GB"@ {
        LanguageCode::EnGb
    } else if lang == "en-IE"@ {
        LanguageCode::EnIe
    } else if lang == "en-US"@ {
        LanguageCode::EnUs
    } else if lang == "ja-JP"@ {
        LanguageCode::JaJp
    } else {
        LanguageCode::EnGb
    }
}

/// Resolve a language code string to a supported language.
pub fn language_code(lang: &String) -> (c: LanguageCode)
    ensures
        c == spec_language_code(lang@),
{
    if str_eq_string(lang, "en-GB") {
        LanguageCode::EnGb
    } else if str_eq_string(lang, "en-IE") {
        LanguageCode::EnIe
    } else if str_eq_string(lang, "en-US") {
        LanguageCode::EnUs
    } else if str_eq_string(lang, "ja-JP") {
        LanguageCode::JaJp
    } else {
        LanguageCode::EnGb
    }
}

/// What a recognition session is started with: the resolved language and
/// the phrases of the selected wordlist, if one is selected.
#[derive(Debug, Clone)]
pub struct RecognitionSettings {
    pub language: LanguageCode,
    pub phrases: Option<Vec<String>>,
}

} // verus!
