//! Tests for the transcription state fold and text assembly.

use dictea::stt::SttEvent;
use dictea::transcript::TranscriptionState;

#[test]
fn default_state_is_empty() {
    let s = TranscriptionState::default();
    assert!(!s.is_recording);
    assert_eq!(s.partial_text, "");
    assert_eq!(s.final_text, "");
}

#[test]
fn partial_replaces_partial() {
    let mut s = TranscriptionState::default();
    s.apply_event(SttEvent::Partial("hel".to_string()));
    s.apply_event(SttEvent::Partial("hello".to_string()));
    assert_eq!(s.partial_text, "hello");
    assert_eq!(s.final_text, "");
}

#[test]
fn finals_append_with_single_space_and_clear_partial() {
    let mut s = TranscriptionState::default();
    s.apply_event(SttEvent::Partial("he".to_string()));
    s.apply_event(SttEvent::Final("hello".to_string()));
    assert_eq!(s.partial_text, "");
    assert_eq!(s.final_text, "hello");
    s.apply_event(SttEvent::Final("world".to_string()));
    assert_eq!(s.final_text, "hello world");
}

#[test]
fn apply_events_folds_in_order() {
    let mut s = TranscriptionState::default();
    s.apply_events(&vec![
        SttEvent::Final("one".to_string()),
        SttEvent::Partial("tw".to_string()),
        SttEvent::Final("two".to_string()),
        SttEvent::Partial("three".to_string()),
    ]);
    assert_eq!(s.final_text, "one two");
    assert_eq!(s.partial_text, "three");
}

#[test]
fn assembled_text_joins_final_and_partial() {
    let mut s = TranscriptionState::default();
    s.apply_event(SttEvent::Final("hello".to_string()));
    s.apply_event(SttEvent::Partial("wor".to_string()));
    assert_eq!(s.assembled_text(), "hello wor");
}

#[test]
fn assembled_text_trims_whitespace() {
    let mut s = TranscriptionState::default();
    s.apply_event(SttEvent::Final("  hello  ".to_string()));
    // An untrimmed assembly would keep the surrounding spaces.
    assert_eq!(s.assembled_text(), "hello");
}

#[test]
fn assembled_text_of_partial_alone() {
    let mut s = TranscriptionState::default();
    s.apply_event(SttEvent::Partial("draft".to_string()));
    assert_eq!(s.assembled_text(), "draft");
    assert_eq!(TranscriptionState::default().assembled_text(), "");
}
