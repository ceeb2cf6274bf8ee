//! Tests for the buffered engines and their dispatch contract.

use dictea::engine::{
    BufferedEngine, Engine, LocalEngine, Provider, MIN_DISPATCH_SAMPLES,
};
use dictea::stt::{Language, SttError, SttEvent};

fn one_second() -> Vec<i32> {
    vec![65536; MIN_DISPATCH_SAMPLES]
}

#[test]
fn load_rejects_missing_credential() {
    match BufferedEngine::load(Provider::Voxtral, "") {
        Err(SttError::ModelNotFound(m)) => assert_eq!(m, "Mistral API key required"),
        other => panic!("expected ModelNotFound, got {:?}", other.map(|_| ())),
    }
    match BufferedEngine::load(Provider::OpenAi, "") {
        Err(SttError::ModelNotFound(m)) => assert_eq!(m, "OpenAI API key required"),
        other => panic!("expected ModelNotFound, got {:?}", other.map(|_| ())),
    }
    match BufferedEngine::load(Provider::Gemini, "") {
        Err(SttError::ModelNotFound(m)) => assert_eq!(m, "Gemini API key required"),
        other => panic!("expected ModelNotFound, got {:?}", other.map(|_| ())),
    }
}

#[test]
fn load_accepts_credential() {
    let e = BufferedEngine::load(Provider::Voxtral, "SECRET-REDACTED").unwrap();
    assert!(e.is_ready());
    assert_eq!(e.name(), "Voxtral");
    assert_eq!(e.language(), &Language::Auto);
    assert_eq!(e.buffered_len(), 0);
    assert!(!e.is_pending());
}

#[test]
fn provider_request_constants() {
    assert_eq!(Provider::OpenAi.model_id(), "gpt-4o-transcribe");
    assert_eq!(Provider::Voxtral.model_id(), "voxtral-mini-latest");
    assert_eq!(
        Provider::Voxtral.endpoint(),
        "https://api.mistral.ai/v1/audio/transcriptions"
    );
    assert_eq!(
        Provider::OpenAi.endpoint(),
        "https://api.openai.com/v1/audio/transcriptions"
    );
    assert_eq!(Provider::OpenAi.engine_name(), "OpenAI Whisper");
    assert_eq!(Provider::Gemini.engine_name(), "Gemini");
}

#[test]
fn minimum_duration_gate_discards_short_buffers() {
    let mut e = BufferedEngine::with_api_key(Provider::OpenAi, "SECRET-REDACTED".to_string());
    e.push_audio(&vec![1000; MIN_DISPATCH_SAMPLES - 1]);
    assert_eq!(e.buffered_len(), MIN_DISPATCH_SAMPLES - 1);
    let r = e.begin_dispatch();
    assert!(r.is_none());
    assert_eq!(e.buffered_len(), 0);
    assert!(!e.is_pending());
    assert!(e.poll().is_none());
}

#[test]
fn dispatch_carries_wav_and_language() {
    let mut e = BufferedEngine::with_api_key(Provider::Voxtral, "SECRET-REDACTED".to_string());
    e.set_language(Language::French);
    e.push_audio(&one_second());
    let req = e.begin_dispatch().expect("one second of audio must dispatch");
    assert!(e.is_pending());
    assert_eq!(e.buffered_len(), 0);
    assert_eq!(req.wav.len(), 44 + 2 * MIN_DISPATCH_SAMPLES);
    assert_eq!(&req.wav[0..4], b"RIFF");
    assert_eq!(req.language_code.as_deref(), Some("fr"));
    assert!(req.wav_base64.is_none());
}

#[test]
fn dispatch_under_auto_names_no_language() {
    let mut e = BufferedEngine::with_api_key(Provider::OpenAi, "SECRET-REDACTED".to_string());
    e.push_audio(&one_second());
    let req = e.begin_dispatch().unwrap();
    assert!(req.language_code.is_none());
}

#[test]
fn gemini_dispatch_carries_base64_payload() {
    let mut e = BufferedEngine::with_api_key(Provider::Gemini, "SECRET-REDACTED".to_string());
    e.push_audio(&one_second());
    let req = e.begin_dispatch().unwrap();
    let b64 = req.wav_base64.expect("the inline-payload provider needs base64");
    // Standard padded base64: four bytes out for every three in.
    assert_eq!(b64.len(), 4 * ((req.wav.len() + 2) / 3));
    // "RIF" encodes to "Ukl": a pass-through would keep the raw 'R'.
    assert_eq!(&b64[0..3], b"Ukl");
}

#[test]
fn flush_completeness_settled_text_is_polled() {
    let mut e = BufferedEngine::with_api_key(Provider::Voxtral, "SECRET-REDACTED".to_string());
    e.push_audio(&one_second());
    let _req = e.begin_dispatch().unwrap();
    assert!(e.is_pending());
    e.settle_dispatch(Some("hello world".to_string()));
    assert!(!e.is_pending());
    assert_eq!(e.poll(), Some(SttEvent::Final("hello world".to_string())));
    assert_eq!(e.poll(), None);
}

#[test]
fn settled_failure_or_empty_text_enqueues_nothing() {
    let mut e = BufferedEngine::with_api_key(Provider::OpenAi, "SECRET-REDACTED".to_string());
    e.push_audio(&one_second());
    let _ = e.begin_dispatch().unwrap();
    e.settle_dispatch(None);
    assert!(!e.is_pending());
    assert_eq!(e.poll(), None);

    e.push_audio(&one_second());
    let _ = e.begin_dispatch().unwrap();
    e.settle_dispatch(Some(String::new()));
    assert!(!e.is_pending());
    assert_eq!(e.poll(), None);
}

#[test]
fn poll_is_fifo() {
    let mut e = BufferedEngine::with_api_key(Provider::OpenAi, "SECRET-REDACTED".to_string());
    e.push_audio(&one_second());
    let _ = e.begin_dispatch().unwrap();
    e.settle_dispatch(Some("first".to_string()));
    e.push_audio(&one_second());
    let _ = e.begin_dispatch().unwrap();
    e.settle_dispatch(Some("second".to_string()));
    assert_eq!(e.poll(), Some(SttEvent::Final("first".to_string())));
    assert_eq!(e.poll(), Some(SttEvent::Final("second".to_string())));
    assert_eq!(e.poll(), None);
}

#[test]
fn reset_clears_buffer_and_events_but_keeps_language() {
    let mut e = BufferedEngine::with_api_key(Provider::OpenAi, "SECRET-REDACTED".to_string());
    e.set_language(Language::German);
    e.push_audio(&one_second());
    let _ = e.begin_dispatch().unwrap();
    e.settle_dispatch(Some("text".to_string()));
    e.push_audio(&vec![1; 100]);
    e.reset();
    assert_eq!(e.buffered_len(), 0);
    assert_eq!(e.poll(), None);
    assert_eq!(e.language(), &Language::German);
}

#[test]
fn local_engine_runs_inference_at_threshold() {
    let mut e = LocalEngine::new(8000);
    assert!(!e.is_ready());
    e.push_audio(&vec![1; 7999]);
    assert_eq!(e.poll(), None);
    assert_eq!(e.buffered_len(), 7999);
    e.push_audio(&vec![1; 1]);
    assert_eq!(e.buffered_len(), 0);
    assert_eq!(e.poll(), Some(SttEvent::Partial("[transcription...]".to_string())));
    assert_eq!(e.poll(), None);
}

#[test]
fn local_engine_flush_emits_final_for_leftover_audio() {
    let mut e = LocalEngine::with_model("model.bin".to_string(), 8000);
    assert!(e.is_ready());
    e.push_audio(&vec![1; 10]);
    e.flush();
    assert_eq!(e.poll(), Some(SttEvent::Final("[fin de transcription]".to_string())));
    assert_eq!(e.buffered_len(), 0);
    e.flush();
    assert_eq!(e.poll(), None);
}

#[test]
fn engine_capability_set_dispatches_by_variant() {
    let mut network = Engine::Network(BufferedEngine::with_api_key(
        Provider::Voxtral,
        "SECRET-REDACTED".to_string(),
    ));
    assert_eq!(network.name(), "Voxtral");
    assert!(network.is_ready());
    network.push_audio(&one_second());
    let req = network.flush_begin().expect("network flush dispatches");
    assert_eq!(req.wav.len(), 44 + 2 * MIN_DISPATCH_SAMPLES);
    network.settle_dispatch(Some("ok".to_string()));
    assert_eq!(network.poll(), Some(SttEvent::Final("ok".to_string())));

    let mut local = Engine::Local(LocalEngine::new(8000));
    assert_eq!(local.name(), "Local");
    local.push_audio(&vec![2; 100]);
    assert!(local.flush_begin().is_none());
    assert_eq!(local.poll(), Some(SttEvent::Final("[fin de transcription]".to_string())));
}
