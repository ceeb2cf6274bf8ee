//! Application configuration and engine selection.

use vstd::prelude::*;
use crate::engine::{BufferedEngine, EngineModel, Provider, MIN_DISPATCH_SAMPLES};
use crate::stt::{str_eq, Language, SttEvent};

verus! {

/// The engine selected when the configuration names none.
pub fn default_stt_engine() -> (r: String)
    ensures
        r@ == "openai"@,
{
    "openai".to_owned()
}

/// Application configuration. The credential strings are opaque to the
/// core; `stt_engine` selects the provider by name.
#[derive(Debug, Clone)]
pub struct AppConfig {
    /// Global keyboard shortcut that toggles dictation.
    pub global_shortcut: String,
    /// Credential for the OpenAI provider.
    pub openai_api_key: String,
    /// Output language code, `"auto"` for none.
    pub output_language: String,
    /// Whether to reformulate text before pasting.
    pub reformulate: bool,
    /// Selected engine: `"openai"`, `"voxtral"` or `"gemini"`.
    pub stt_engine: String,
    /// Credential for the Voxtral provider.
    pub mistral_api_key: String,
    /// Credential for the Gemini provider.
    pub gemini_api_key: String,
}

impl Default for AppConfig {
    /// The defaults: the standard shortcut, no credentials, automatic
    /// output language, no reformulation, the default engine.
    fn default() -> (c: AppConfig)
        ensures
            c.global_shortcut@ == "CmdOrCtrl+Shift+Space"@,
            c.openai_api_key@ == Seq::<char>::empty(),
            c.output_language@ == "auto"@,
            !c.reformulate,
            c.stt_engine@ == "openai"@,
            c.mistral_api_key@ == Seq::<char>::empty(),
            c.gemini_api_key@ == Seq::<char>::empty(),
    {
        AppConfig {
            global_shortcut: "CmdOrCtrl+Shift+Space".to_owned(),
            openai_api_key: String::new(),
            output_language: "auto".to_owned(),
            reformulate: false,
            stt_engine: "openai".to_owned(),
            mistral_api_key: String::new(),
            gemini_api_key: String::new(),
        }
    }
}

/// The state every newly created network engine starts in.
pub open spec fn fresh_engine_model() -> EngineModel {
    EngineModel {
        language: Language::Auto,
        buffer: Seq::<i32>::empty(),
        events: Seq::<SttEvent>::empty(),
        pending: false,
        min_dispatch: MIN_DISPATCH_SAMPLES as nat,
        network: true,
    }
}

/// Create the transcription engine the configuration selects:
/// `"gemini"` and `"voxtral"` by name, any other value the default
/// provider. A missing credential for the selected provider is
/// rejected with its message.
pub fn create_engine(config: &AppConfig) -> (r: Result<BufferedEngine, String>)
    ensures
        config.stt_engine@ == "gemini"@ ==> ({
            &&& config.gemini_api_key@.len() == 0 ==> (r matches Err(m) && m@
                == "Gemini API key required"@)
            &&& config.gemini_api_key@.len() > 0 ==> (r matches Ok(e) && e.wf()
                && e.provider_spec() == Provider::Gemini && e.api_key_spec()
                == config.gemini_api_key@ && e@ == fresh_engine_model())
        }),
        config.stt_engine@ == "voxtral"@ ==> ({
            &&& config.mistral_api_key@.len() == 0 ==> (r matches Err(m) && m@
                == "Mistral API key required"@)
            &&& config.mistral_api_key@.len() > 0 ==> (r matches Ok(e) && e.wf()
                && e.provider_spec() == Provider::Voxtral && e.api_key_spec()
                == config.mistral_api_key@ && e@ == fresh_engine_model())
        }),
        config.stt_engine@ != "gemini"@ && config.stt_engine@ != "voxtral"@ ==> ({
            &&& config.openai_api_key@.len() == 0 ==> (r matches Err(m) && m@
                == "OpenAI API key required"@)
            &&& config.openai_api_key@.len() > 0 ==> (r matches Ok(e) && e.wf()
                && e.provider_spec() == Provider::OpenAi && e.api_key_spec()
                == config.openai_api_key@ && e@ == fresh_engine_model())
        }),
{
    proof {
        reveal_strlit("gemini");
        reveal_strlit("voxtral");
        assert("gemini"@.len() == 6);
        assert("voxtral"@.len() == 7);
        assert("gemini"@ != "voxtral"@);
    }
    if str_eq(config.stt_engine.as_str(), "gemini") {
        if config.gemini_api_key.as_str().is_empty() {
            Err("Gemini API key required".to_owned())
        } else {
            Ok(BufferedEngine::with_api_key(Provider::Gemini, config.gemini_api_key.clone()))
        }
    } else if str_eq(config.stt_engine.as_str(), "voxtral") {
        if config.mistral_api_key.as_str().is_empty() {
            Err("Mistral API key required".to_owned())
        } else {
            Ok(BufferedEngine::with_api_key(Provider::Voxtral, config.mistral_api_key.clone()))
        }
    } else {
        if config.openai_api_key.as_str().is_empty() {
            Err("OpenAI API key required".to_owned())
        } else {
            Ok(BufferedEngine::with_api_key(Provider::OpenAi, config.openai_api_key.clone()))
        }
    }
}

} // verus!
