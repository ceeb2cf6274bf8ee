//! Tests for languages, codes and events.

use dictea::stt::{Language, SttEvent};

#[test]
fn code_of_each_language() {
    assert_eq!(Language::Auto.code(), "auto");
    assert_eq!(Language::French.code(), "fr");
    assert_eq!(Language::English.code(), "en");
    assert_eq!(Language::Spanish.code(), "es");
    assert_eq!(Language::German.code(), "de");
    assert_eq!(Language::Italian.code(), "it");
    assert_eq!(Language::Portuguese.code(), "pt");
    assert_eq!(Language::Other("nl".to_string()).code(), "nl");
}

#[test]
fn from_code_recognises_codes_and_names() {
    assert_eq!(Language::from_code("auto"), Language::Auto);
    assert_eq!(Language::from_code("fr"), Language::French);
    assert_eq!(Language::from_code("french"), Language::French);
    assert_eq!(Language::from_code("en"), Language::English);
    assert_eq!(Language::from_code("es"), Language::Spanish);
    assert_eq!(Language::from_code("de"), Language::German);
    assert_eq!(Language::from_code("it"), Language::Italian);
    assert_eq!(Language::from_code("pt"), Language::Portuguese);
}

#[test]
fn from_code_folds_case() {
    // Upper-case input must be folded before matching; an unfolded
    // comparison would classify these as Other.
    assert_eq!(Language::from_code("FR"), Language::French);
    assert_eq!(Language::from_code("English"), Language::English);
    assert_eq!(Language::from_code("AUTO"), Language::Auto);
}

#[test]
fn from_code_keeps_unknown_codes() {
    assert_eq!(Language::from_code("nl"), Language::Other("nl".to_string()));
    assert_eq!(Language::from_code("XX"), Language::Other("xx".to_string()));
}

#[test]
fn event_duplicate_is_equal() {
    let a = SttEvent::Partial("abc".to_string());
    let b = SttEvent::Final("def".to_string());
    assert_eq!(a.duplicate(), a);
    assert_eq!(b.duplicate(), b);
    assert_ne!(a, b);
}

#[test]
fn language_duplicate_is_equal() {
    let l = Language::Other("sv".to_string());
    assert_eq!(l.duplicate(), l);
    assert_eq!(Language::Auto.duplicate(), Language::Auto);
}
