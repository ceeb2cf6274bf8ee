//! Transcription events, languages and engine errors.

use vstd::prelude::*;

verus! {

/// An event emitted by a transcription engine. A `Partial` may be
/// superseded by a later `Partial` or resolved into a `Final`; a
/// `Final` is never revised.
#[derive(Debug, Clone, PartialEq, Eq)]
pub enum SttEvent {
    /// Provisional transcription, may be rewritten.
    Partial(String),
    /// Definitive transcription for a span of audio.
    Final(String),
}

/// A transcription language: automatic detection, one of the named
/// languages, or any other ISO 639-1 code.
#[derive(Debug, Clone, PartialEq, Eq)]
pub enum Language {
    /// Automatic detection.
    Auto,
    /// French
    French,
    /// English
    English,
    /// Spanish
    Spanish,
    /// German
    German,
    /// Italian
    Italian,
    /// Portuguese
    Portuguese,
    /// Any other language, by ISO 639-1 code.
    Other(String),
}

/// Engine errors.
#[derive(Debug, Clone, PartialEq, Eq)]
pub enum SttError {
    /// The model could not be loaded.
    ModelLoadError(String),
    /// The referenced model or credential is missing.
    ModelNotFound(String),
    /// Inference failed (network, provider or parse failure).
    InferenceError(String),
    /// The audio payload was malformed.
    InvalidAudioFormat(String),
    /// The engine was never initialised.
    NotInitialized,
}

impl SttEvent {
    /// An equal copy of this event.
    pub fn duplicate(&self) -> (r: SttEvent)
        ensures
            r == *self,
    {
        match self {
            SttEvent::Partial(t) => SttEvent::Partial(t.clone()),
            SttEvent::Final(t) => SttEvent::Final(t.clone()),
        }
    }
}

/// Case folding as `str::to_lowercase` computes it; the result depends
/// on the characters alone.
pub uninterp spec fn lower_of(s: Seq<char>) -> Seq<char>;

/// Relies on `str::to_lowercase` for Unicode case folding.
#[verifier::external_body]
fn to_lowercase(s: &str) -> (r: String)
    ensures
        r@ == lower_of(s@),
{
    s.to_lowercase()
}

/// Relies on `<str as PartialEq>::eq`: equal exactly when the two
/// strings hold the same characters.
#[verifier::external_body]
pub(crate) fn str_eq(a: &str, b: &str) -> (r: bool)
    ensures
        r == (a@ == b@),
{
    a == b
}

/// The language a recognised lower-case code names, or `None` when the
/// code is not one of the named languages.
pub open spec fn known_code_language(s: Seq<char>) -> Option<Language> {
    if s == "auto"@ {
        Some(Language::Auto)
    } else if s == "fr"@ || s == "french"@ {
        Some(Language::French)
    } else if s == "en"@ || s == "english"@ {
        Some(Language::English)
    } else if s == "es"@ || s == "spanish"@ {
        Some(Language::Spanish)
    } else if s == "de"@ || s == "german"@ {
        Some(Language::German)
    } else if s == "it"@ || s == "italian"@ {
        Some(Language::Italian)
    } else if s == "pt"@ || s == "portuguese"@ {
        Some(Language::Portuguese)
    } else {
        None
    }
}

impl Language {
    /// The ISO 639-1 code of this language (`"auto"` for detection).
    pub open spec fn code_spec(&self) -> Seq<char> {
        match self {
            Language::Auto => "auto"@,
            Language::French => "fr"@,
            Language::English => "en"@,
            Language::Spanish => "es"@,
            Language::German => "de"@,
            Language::Italian => "it"@,
            Language::Portuguese => "pt"@,
            Language::Other(code) => code@,
        }
    }

    /// Return the ISO 639-1 language code.
    pub fn code(&self) -> (r: &str)
        ensures
            r@ == self.code_spec(),
    {
        match self {
            Language::Auto => "auto",
            Language::French => "fr",
            Language::English => "en",
            Language::Spanish => "es",
            Language::German => "de",
            Language::Italian => "it",
            Language::Portuguese => "pt",
            Language::Other(code) => code.as_str(),
        }
    }

    /// Map an already case-folded code to its language; a code that
    /// names no known language becomes `Other` with that code.
    pub fn from_folded_code(code: &str) -> (r: Language)
        ensures
            known_code_language(code@) matches Some(l) ==> r == l,
            known_code_language(code@) is None ==> (r matches Language::Other(c) && c@ == code@),
    {
        if str_eq(code, "auto") {
            Language::Auto
        } else if str_eq(code, "fr") || str_eq(code, "french") {
            Language::French
        } else if str_eq(code, "en") || str_eq(code, "english") {
            Language::English
        } else if str_eq(code, "es") || str_eq(code, "spanish") {
            Language::Spanish
        } else if str_eq(code, "de") || str_eq(code, "german") {
            Language::German
        } else if str_eq(code, "it") || str_eq(code, "italian") {
            Language::Italian
        } else if str_eq(code, "pt") || str_eq(code, "portuguese") {
            Language::Portuguese
        } else {
            Language::Other(code.to_owned())
        }
    }

    /// An equal copy of this language.
    pub fn duplicate(&self) -> (r: Language)
        ensures
            r == *self,
    {
        match self {
            Language::Auto => Language::Auto,
            Language::French => Language::French,
            Language::English => Language::English,
            Language::Spanish => Language::Spanish,
            Language::German => Language::German,
            Language::Italian => Language::Italian,
            Language::Portuguese => Language::Portuguese,
            Language::Other(code) => Language::Other(code.clone()),
        }
    }

    /// Create a language from an ISO 639-1 code, in any letter case.
    pub fn from_code(code: &str) -> (r: Language)
        ensures
            known_code_language(lower_of(code@)) matches Some(l) ==> r == l,
            known_code_language(lower_of(code@)) is None ==> (r matches Language::Other(c)
                && c@ == lower_of(code@)),
    {
        let folded = to_lowercase(code);
        Language::from_folded_code(folded.as_str())
    }
}

} // verus!
