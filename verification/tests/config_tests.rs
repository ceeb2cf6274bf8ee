//! Tests for configuration defaults and engine selection.

use dictea::config::{create_engine, default_stt_engine, AppConfig};
use dictea::engine::Provider;

#[test]
fn default_engine_name() {
    assert_eq!(default_stt_engine(), "openai");
}

#[test]
fn config_defaults() {
    let c = AppConfig::default();
    assert_eq!(c.global_shortcut, "CmdOrCtrl+Shift+Space");
    assert_eq!(c.openai_api_key, "");
    assert_eq!(c.output_language, "auto");
    assert!(!c.reformulate);
    assert_eq!(c.stt_engine, "openai");
    assert_eq!(c.mistral_api_key, "");
    assert_eq!(c.gemini_api_key, "");
}

#[test]
fn create_engine_selects_provider_by_name() {
    let mut c = AppConfig::default();
    c.stt_engine = "gemini".to_string();
    c.gemini_api_key = "SECRET-REDACTED".to_string();
    let e = create_engine(&c).unwrap();
    assert_eq!(e.name(), Provider::Gemini.engine_name());

    c.stt_engine = "voxtral".to_string();
    c.mistral_api_key = "SECRET-REDACTED".to_string();
    let e = create_engine(&c).unwrap();
    assert_eq!(e.name(), "Voxtral");

    c.stt_engine = "anything-else".to_string();
    c.openai_api_key = "SECRET-REDACTED".to_string();
    let e = create_engine(&c).unwrap();
    assert_eq!(e.name(), "OpenAI Whisper");
}

#[test]
fn create_engine_rejects_missing_credentials() {
    let mut c = AppConfig::default();
    c.stt_engine = "gemini".to_string();
    assert_eq!(create_engine(&c).err().as_deref(), Some("Gemini API key required"));
    c.stt_engine = "voxtral".to_string();
    assert_eq!(create_engine(&c).err().as_deref(), Some("Mistral API key required"));
    c.stt_engine = "openai".to_string();
    assert_eq!(create_engine(&c).err().as_deref(), Some("OpenAI API key required"));
}
