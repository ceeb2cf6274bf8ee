//! Buffered transcription engines.
//!
//! Every engine accumulates pushed audio in a private buffer and emits
//! `SttEvent`s through a FIFO queue drained by `poll`. Network-backed
//! engines never dispatch on `push_audio`: a dispatch is begun
//! explicitly (normally at flush), takes the whole buffer, and settles
//! later with the text the inference service returned. The placeholder
//! local engine instead runs its inference opportunistically once the
//! buffer reaches its configured minimum size.

use vstd::prelude::*;
use std::collections::VecDeque;
use crate::stt::{Language, SttError, SttEvent};
use crate::wav::{encode_wav, wav_bytes};
use base64::Engine as _;

verus! {

/// One second of audio at 16 kHz: the minimum a network dispatch sends.
/// Shorter buffers are discarded as a noise floor, not an error.
pub const MIN_DISPATCH_SAMPLES: usize = 16000;

/// Upper bound on the accumulation buffer, so that the dispatched WAV
/// payload fits its 32-bit RIFF size field and the base64 encoding of
/// the payload fits `usize` on every platform.
pub const MAX_BUFFER_SAMPLES: usize = 1610612712;

/// The three interchangeable transcription providers. They share one
/// buffered dispatch pattern and differ only in endpoint, payload
/// shape and model identifier.
#[derive(Debug, Clone, Copy, PartialEq, Eq, Structural)]
pub enum Provider {
    /// OpenAI transcription API (multipart WAV upload).
    OpenAi,
    /// Mistral Voxtral transcription API (multipart WAV upload).
    Voxtral,
    /// Google Gemini multimodal API (JSON body with base64 audio).
    Gemini,
}

impl Provider {
    /// The engine name reported to callers.
    pub open spec fn name_spec(&self) -> Seq<char> {
        match self {
            Provider::OpenAi => "OpenAI Whisper"@,
            Provider::Voxtral => "Voxtral"@,
            Provider::Gemini => "Gemini"@,
        }
    }

    /// The transcription endpoint the dispatch is sent to.
    pub open spec fn endpoint_spec(&self) -> Seq<char> {
        match self {
            Provider::OpenAi => "https://api.openai.com/v1/audio/transcriptions"@,
            Provider::Voxtral => "https://api.mistral.ai/v1/audio/transcriptions"@,
            Provider::Gemini => "https://generativelanguage.googleapis.com/v1beta/models/gemini-2.5-flash:generateContent"@,
        }
    }

    /// The model identifier named in the request.
    pub open spec fn model_id_spec(&self) -> Seq<char> {
        match self {
            Provider::OpenAi => "gpt-4o-transcribe"@,
            Provider::Voxtral => "voxtral-mini-latest"@,
            Provider::Gemini => "gemini-2.5-flash"@,
        }
    }

    /// The message reported when the provider's credential is missing.
    pub open spec fn missing_key_spec(&self) -> Seq<char> {
        match self {
            Provider::OpenAi => "OpenAI API key required"@,
            Provider::Voxtral => "Mistral API key required"@,
            Provider::Gemini => "Gemini API key required"@,
        }
    }

    /// Return the engine name.
    pub fn engine_name(&self) -> (r: &str)
        ensures
            r@ == self.name_spec(),
    {
        match self {
            Provider::OpenAi => "OpenAI Whisper",
            Provider::Voxtral => "Voxtral",
            Provider::Gemini => "Gemini",
        }
    }

    /// Return the transcription endpoint.
    pub fn endpoint(&self) -> (r: &str)
        ensures
            r@ == self.endpoint_spec(),
    {
        match self {
            Provider::OpenAi => "https://api.openai.com/v1/audio/transcriptions",
            Provider::Voxtral => "https://api.mistral.ai/v1/audio/transcriptions",
            Provider::Gemini => "https://generativelanguage.googleapis.com/v1beta/models/gemini-2.5-flash:generateContent",
        }
    }

    /// Return the model identifier.
    pub fn model_id(&self) -> (r: &str)
        ensures
            r@ == self.model_id_spec(),
    {
        match self {
            Provider::OpenAi => "gpt-4o-transcribe",
            Provider::Voxtral => "voxtral-mini-latest",
            Provider::Gemini => "gemini-2.5-flash",
        }
    }
}

/// Base64 (standard alphabet, padded) of a byte sequence, as
/// `base64::engine::general_purpose::STANDARD` computes it; the result
/// depends on the bytes alone.
pub uninterp spec fn base64_of(b: Seq<u8>) -> Seq<u8>;

/// Relies on base64's `Engine::encode` with the standard padded
/// alphabet: four output bytes for every three input bytes, the last
/// group padded.
#[verifier::external_body]
fn base64_encode(b: &Vec<u8>) -> (r: Vec<u8>)
    requires
        4 * ((b@.len() + 2) / 3) <= usize::MAX as nat,
    ensures
        r@ == base64_of(b@),
        r@.len() == 4 * ((b@.len() + 2) / 3),
{
    base64::engine::general_purpose::STANDARD.encode(b).into_bytes()
}

/// The abstract state shared by every engine: the active language, the
/// accumulation buffer, the FIFO event queue, the in-flight-dispatch
/// flag and the minimum buffer length a dispatch requires.
#[verifier::ext_equal]
pub struct EngineModel {
    /// Language applied to the next dispatched request.
    pub language: Language,
    /// Samples accumulated since the last dispatch.
    pub buffer: Seq<i32>,
    /// Events ready to be polled, oldest first.
    pub events: Seq<SttEvent>,
    /// Whether a dispatched request has not settled yet.
    pub pending: bool,
    /// Buffers shorter than this are discarded at dispatch.
    pub min_dispatch: nat,
    /// Whether the engine dispatches to a network service.
    pub network: bool,
}

/// Whether the accumulated buffer is long enough to dispatch; shorter
/// buffers are discarded by the minimum-duration gate.
pub open spec fn dispatch_gate_passes(m: EngineModel) -> bool {
    m.buffer.len() >= m.min_dispatch
}

/// The engine state after a begun dispatch: the whole buffer is taken
/// (moved out, not copied) and the request is pending.
pub open spec fn after_begin_dispatch(m: EngineModel) -> EngineModel {
    EngineModel { buffer: Seq::<i32>::empty(), pending: true, ..m }
}

/// The engine state after the minimum-duration gate discards a short
/// buffer: cleared, with nothing dispatched.
pub open spec fn after_discard(m: EngineModel) -> EngineModel {
    EngineModel { buffer: Seq::<i32>::empty(), ..m }
}

/// The engine state after a dispatch settles: non-empty returned text
/// is enqueued as a `Final` event, a failure or empty text enqueues
/// nothing, and the pending flag clears unconditionally.
pub open spec fn after_settle(m: EngineModel, text: Option<String>) -> EngineModel {
    match text {
        Some(t) => if t@.len() > 0 {
            EngineModel { pending: false, events: m.events.push(SttEvent::Final(t)), ..m }
        } else {
            EngineModel { pending: false, ..m }
        },
        None => EngineModel { pending: false, ..m },
    }
}

/// One dispatched inference request: the encoded audio and the
/// language it should be transcribed in.
pub struct DispatchRequest {
    /// The buffered audio as a complete 16 kHz mono 16-bit WAV payload.
    pub wav: Vec<u8>,
    /// The WAV payload base64-encoded, for the provider whose request
    /// body carries the audio inline.
    pub wav_base64: Option<Vec<u8>>,
    /// The active language's code, absent under automatic detection.
    pub language_code: Option<String>,
}

/// A network-backed buffered engine: accumulates on `push_audio`,
/// dispatches the whole buffer when a dispatch is begun, and enqueues
/// a `Final` event when the dispatch settles with non-empty text.
pub struct BufferedEngine {
    provider: Provider,
    api_key: String,
    language: Language,
    buffer: Vec<i32>,
    events: VecDeque<SttEvent>,
    pending: bool,
}

impl View for BufferedEngine {
    type V = EngineModel;

    closed spec fn view(&self) -> EngineModel {
        EngineModel {
            language: self.language,
            buffer: self.buffer@,
            events: self.events@,
            pending: self.pending,
            min_dispatch: MIN_DISPATCH_SAMPLES as nat,
            network: true,
        }
    }
}

impl BufferedEngine {
    /// The provider this engine dispatches to.
    pub closed spec fn provider_spec(&self) -> Provider {
        self.provider
    }

    /// The credential sent with every dispatch.
    pub closed spec fn api_key_spec(&self) -> Seq<char> {
        self.api_key@
    }

    /// The accumulation buffer never outgrows the dispatch payload bound.
    pub open spec fn wf(&self) -> bool {
        self@.buffer.len() <= MAX_BUFFER_SAMPLES as nat
    }

    /// Create an engine for `provider` holding `api_key`.
    pub fn with_api_key(provider: Provider, api_key: String) -> (r: BufferedEngine)
        ensures
            r.wf(),
            r.provider_spec() == provider,
            r.api_key_spec() == api_key@,
            r@ == (EngineModel {
                language: Language::Auto,
                buffer: Seq::<i32>::empty(),
                events: Seq::<SttEvent>::empty(),
                pending: false,
                min_dispatch: MIN_DISPATCH_SAMPLES as nat,
                network: true,
            }),
    {
        let r = BufferedEngine {
            provider,
            api_key,
            language: Language::Auto,
            buffer: Vec::new(),
            events: VecDeque::new(),
            pending: false,
        };
        proof {
            assert(r@.buffer =~= Seq::<i32>::empty());
            assert(r@.events =~= Seq::<SttEvent>::empty());
        }
        r
    }

    /// Construct an engine from a credential; an empty credential is
    /// rejected with `ModelNotFound` and the provider's message.
    pub fn load(provider: Provider, api_key: &str) -> (r: Result<BufferedEngine, SttError>)
        ensures
            api_key@.len() == 0 ==> (r matches Err(e) && e matches SttError::ModelNotFound(m)
                && m@ == provider.missing_key_spec()),
            api_key@.len() > 0 ==> (r matches Ok(engine) && engine.wf()
                && engine.provider_spec() == provider && engine.api_key_spec() == api_key@
                && engine@ == (EngineModel {
                    language: Language::Auto,
                    buffer: Seq::<i32>::empty(),
                    events: Seq::<SttEvent>::empty(),
                    pending: false,
                    min_dispatch: MIN_DISPATCH_SAMPLES as nat,
                    network: true,
                })),
    {
        if api_key.is_empty() {
            let msg = match provider {
                Provider::OpenAi => "OpenAI API key required",
                Provider::Voxtral => "Mistral API key required",
                Provider::Gemini => "Gemini API key required",
            };
            Err(SttError::ModelNotFound(msg.to_owned()))
        } else {
            Ok(BufferedEngine::with_api_key(provider, api_key.to_owned()))
        }
    }

    /// Set the language applied to the next dispatched request.
    pub fn set_language(&mut self, language: Language)
        requires
            old(self).wf(),
        ensures
            final(self).wf(),
            final(self).provider_spec() == old(self).provider_spec(),
            final(self).api_key_spec() == old(self).api_key_spec(),
            final(self)@ == (EngineModel { language, ..old(self)@ }),
    {
        self.language = language;
    }

    /// Return the active language.
    pub fn language(&self) -> (r: &Language)
        ensures
            *r == self@.language,
    {
        &self.language
    }

    /// Append samples to the accumulation buffer; a network engine
    /// takes no further action here.
    pub fn push_audio(&mut self, samples: &Vec<i32>)
        requires
            old(self).wf(),
            old(self)@.buffer.len() + samples@.len() <= MAX_BUFFER_SAMPLES as nat,
        ensures
            final(self).wf(),
            final(self).provider_spec() == old(self).provider_spec(),
            final(self).api_key_spec() == old(self).api_key_spec(),
            final(self)@ == (EngineModel { buffer: old(self)@.buffer + samples@, ..old(self)@ }),
    {
        let mut i: usize = 0;
        while i < samples.len()
            invariant
                i <= samples@.len(),
                self.buffer@.len() + samples@.len() <= MAX_BUFFER_SAMPLES as nat + i as nat,
                self.buffer@ == old(self)@.buffer + samples@.take(i as int),
                self.provider == old(self).provider,
                self.api_key == old(self).api_key,
                self.language == old(self).language,
                self.events == old(self).events,
                self.pending == old(self).pending,
            decreases samples@.len() - i,
        {
            self.buffer.push(samples[i]);
            i = i + 1;
            proof {
                assert(self.buffer@ =~= old(self)@.buffer + samples@.take(i as int));
            }
        }
        proof {
            assert(self.buffer@ =~= old(self)@.buffer + samples@);
        }
    }

    /// The number of samples awaiting dispatch.
    pub fn buffered_len(&self) -> (r: usize)
        ensures
            r == self@.buffer.len(),
    {
        self.buffer.len()
    }

    /// Whether a dispatched request has not settled yet.
    pub fn is_pending(&self) -> (r: bool)
        ensures
            r == self@.pending,
    {
        self.pending
    }

    /// Pop the oldest ready event; `None` when the queue is empty.
    pub fn poll(&mut self) -> (r: Option<SttEvent>)
        requires
            old(self).wf(),
        ensures
            final(self).wf(),
            final(self).provider_spec() == old(self).provider_spec(),
            final(self).api_key_spec() == old(self).api_key_spec(),
            old(self)@.events.len() == 0 ==> r is None && final(self)@ == old(self)@,
            old(self)@.events.len() > 0 ==> r == Some(old(self)@.events[0]) && final(self)@ == (
            EngineModel { events: old(self)@.events.skip(1), ..old(self)@ }),
    {
        let r = self.events.pop_front();
        proof {
            if old(self)@.events.len() == 0 {
                assert(self@ =~= old(self)@);
            } else {
                assert(self@.events =~= old(self)@.events.skip(1));
            }
        }
        r
    }

    /// Begin a dispatch: take the whole accumulation buffer. A buffer
    /// shorter than the minimum duration is discarded and nothing is
    /// dispatched; otherwise the request carries the buffer as WAV
    /// (and base64 for the inline-payload provider) together with the
    /// active language, and the engine is marked pending.
    pub fn begin_dispatch(&mut self) -> (r: Option<DispatchRequest>)
        requires
            old(self).wf(),
        ensures
            final(self).wf(),
            final(self).provider_spec() == old(self).provider_spec(),
            final(self).api_key_spec() == old(self).api_key_spec(),
            !dispatch_gate_passes(old(self)@) ==> r is None && final(self)@ == after_discard(
                old(self)@,
            ),
            dispatch_gate_passes(old(self)@) ==> (r matches Some(req)
                && req.wav@ == wav_bytes(old(self)@.buffer)
                && (old(self).provider_spec() matches Provider::Gemini ==> (req.wav_base64
                matches Some(b) && b@ == base64_of(wav_bytes(old(self)@.buffer))))
                && (!(old(self).provider_spec() matches Provider::Gemini)
                ==> req.wav_base64 is None)
                && (old(self)@.language matches Language::Auto ==> req.language_code is None)
                && (!(old(self)@.language matches Language::Auto) ==> (req.language_code
                matches Some(c) && c@ == old(self)@.language.code_spec()))
                && final(self)@ == after_begin_dispatch(old(self)@)),
    {
        if self.buffer.len() < MIN_DISPATCH_SAMPLES {
            self.buffer.clear();
            proof {
                assert(self@ =~= (EngineModel { buffer: Seq::<i32>::empty(), ..old(self)@ }));
            }
            return None;
        }
        let mut taken: Vec<i32> = Vec::new();
        core::mem::swap(&mut self.buffer, &mut taken);
        let wav = encode_wav(&taken);
        let wav_base64 = match self.provider {
            Provider::Gemini => {
                proof {
                    crate::wav::lemma_wav_bytes_len(taken@);
                    assert(wav@.len() == 44 + 2 * taken@.len());
                }
                Some(base64_encode(&wav))
            },
            _ => None,
        };
        let language_code = match &self.language {
            Language::Auto => None,
            l => Some(l.code().to_owned()),
        };
        self.pending = true;
        proof {
            assert(self@ =~= (EngineModel {
                buffer: Seq::<i32>::empty(),
                pending: true,
                ..old(self)@
            }));
        }
        Some(DispatchRequest { wav, wav_base64, language_code })
    }

    /// Settle a dispatch with the text the inference returned (`None`
    /// for any network, provider or parse failure). Non-empty text is
    /// enqueued as a `Final` event; empty text and failures enqueue
    /// nothing. The pending flag clears unconditionally.
    pub fn settle_dispatch(&mut self, text: Option<String>)
        requires
            old(self).wf(),
        ensures
            final(self).wf(),
            final(self).provider_spec() == old(self).provider_spec(),
            final(self).api_key_spec() == old(self).api_key_spec(),
            final(self)@ == after_settle(old(self)@, text),
    {
        match text {
            Some(t) => {
                if !t.as_str().is_empty() {
                    self.events.push_back(SttEvent::Final(t));
                }
            },
            None => {},
        }
        self.pending = false;
    }

    /// Clear the buffer and any ready events; the language and an
    /// in-flight dispatch are unaffected.
    pub fn reset(&mut self)
        requires
            old(self).wf(),
        ensures
            final(self).wf(),
            final(self).provider_spec() == old(self).provider_spec(),
            final(self).api_key_spec() == old(self).api_key_spec(),
            final(self)@ == (EngineModel {
                buffer: Seq::<i32>::empty(),
                events: Seq::<SttEvent>::empty(),
                ..old(self)@
            }),
    {
        self.buffer.clear();
        self.events.clear();
        proof {
            assert(self@ =~= (EngineModel {
                buffer: Seq::<i32>::empty(),
                events: Seq::<SttEvent>::empty(),
                ..old(self)@
            }));
        }
    }

    /// Return the engine name.
    pub fn name(&self) -> (r: &str)
        ensures
            r@ == self.provider_spec().name_spec(),
    {
        self.provider.engine_name()
    }

    /// A network engine is ready as soon as it holds a credential.
    pub fn is_ready(&self) -> (r: bool)
        ensures
            r == true,
    {
        true
    }
}


/// The provisional text the placeholder local inference emits.
pub open spec fn local_partial_text() -> Seq<char> {
    "[transcription...]"@
}

/// The definitive text the placeholder local inference emits at flush.
pub open spec fn local_final_text() -> Seq<char> {
    "[fin de transcription]"@
}

/// A placeholder local-inference engine. It follows the same
/// buffer-accumulate contract as the network engines, but runs its
/// (placeholder) inference opportunistically as soon as the buffer
/// reaches the configured minimum size, and synchronously at flush;
/// it never has a request in flight.
pub struct LocalEngine {
    model_path: String,
    language: Language,
    buffer: Vec<i32>,
    events: VecDeque<SttEvent>,
    ready: bool,
    min_buffer_samples: usize,
}

impl View for LocalEngine {
    type V = EngineModel;

    closed spec fn view(&self) -> EngineModel {
        EngineModel {
            language: self.language,
            buffer: self.buffer@,
            events: self.events@,
            pending: false,
            min_dispatch: self.min_buffer_samples as nat,
            network: false,
        }
    }
}

impl LocalEngine {
    /// The model reference this engine was loaded from.
    pub closed spec fn model_path_spec(&self) -> Seq<char> {
        self.model_path@
    }

    /// Whether a model has been loaded.
    pub closed spec fn ready_spec(&self) -> bool {
        self.ready
    }

    /// The buffer obeys the same bound as the network engines.
    pub open spec fn wf(&self) -> bool {
        self@.buffer.len() <= MAX_BUFFER_SAMPLES as nat
    }

    /// Create an engine with no model loaded. `min_buffer_samples` is
    /// the buffer length that triggers opportunistic inference; it
    /// differs across local engine variants, so it is a parameter.
    pub fn new(min_buffer_samples: usize) -> (r: LocalEngine)
        ensures
            r.wf(),
            !r.ready_spec(),
            r.model_path_spec() == Seq::<char>::empty(),
            r@ == (EngineModel {
                language: Language::Auto,
                buffer: Seq::<i32>::empty(),
                events: Seq::<SttEvent>::empty(),
                pending: false,
                min_dispatch: min_buffer_samples as nat,
                network: false,
            }),
    {
        let r = LocalEngine {
            model_path: String::new(),
            language: Language::Auto,
            buffer: Vec::new(),
            events: VecDeque::new(),
            ready: false,
            min_buffer_samples,
        };
        proof {
            assert(r@.buffer =~= Seq::<i32>::empty());
            assert(r@.events =~= Seq::<SttEvent>::empty());
        }
        r
    }

    /// Create a ready engine for an already located model. The caller
    /// is responsible for having resolved `model_path` to an existing
    /// model before this call.
    pub fn with_model(model_path: String, min_buffer_samples: usize) -> (r: LocalEngine)
        ensures
            r.wf(),
            r.ready_spec(),
            r.model_path_spec() == model_path@,
            r@ == (EngineModel {
                language: Language::Auto,
                buffer: Seq::<i32>::empty(),
                events: Seq::<SttEvent>::empty(),
                pending: false,
                min_dispatch: min_buffer_samples as nat,
                network: false,
            }),
    {
        let r = LocalEngine {
            model_path,
            language: Language::Auto,
            buffer: Vec::new(),
            events: VecDeque::new(),
            ready: true,
            min_buffer_samples,
        };
        proof {
            assert(r@.buffer =~= Seq::<i32>::empty());
            assert(r@.events =~= Seq::<SttEvent>::empty());
        }
        r
    }

    /// Set the language applied to subsequent inference.
    pub fn set_language(&mut self, language: Language)
        requires
            old(self).wf(),
        ensures
            final(self).wf(),
            final(self).ready_spec() == old(self).ready_spec(),
            final(self).model_path_spec() == old(self).model_path_spec(),
            final(self)@ == (EngineModel { language, ..old(self)@ }),
    {
        self.language = language;
    }

    /// Return the active language.
    pub fn language(&self) -> (r: &Language)
        ensures
            *r == self@.language,
    {
        &self.language
    }

    /// Append samples; once the buffer reaches the configured minimum
    /// the placeholder inference runs, emitting a `Partial` event and
    /// clearing the buffer.
    pub fn push_audio(&mut self, samples: &Vec<i32>)
        requires
            old(self).wf(),
            old(self)@.buffer.len() + samples@.len() <= MAX_BUFFER_SAMPLES as nat,
        ensures
            final(self).wf(),
            final(self).ready_spec() == old(self).ready_spec(),
            final(self).model_path_spec() == old(self).model_path_spec(),
            old(self)@.buffer.len() + samples@.len() < old(self)@.min_dispatch ==> final(self)@ == (EngineModel { buffer: old(self)@.buffer + samples@, ..old(self)@ }),
            old(self)@.buffer.len() + samples@.len() >= old(self)@.min_dispatch ==> ({
                &&& final(self)@.buffer == Seq::<i32>::empty()
                &&& final(self)@.events.len() == old(self)@.events.len() + 1
                &&& (final(self)@.events.last() matches SttEvent::Partial(p) && p@
                    == local_partial_text())
                &&& final(self)@.events.take(old(self)@.events.len() as int) == old(self)@.events
                &&& final(self)@ == (EngineModel {
                    buffer: final(self)@.buffer,
                    events: final(self)@.events,
                    ..old(self)@
                })
            }),
    {
        let mut i: usize = 0;
        while i < samples.len()
            invariant
                i <= samples@.len(),
                self.buffer@.len() + samples@.len() <= MAX_BUFFER_SAMPLES as nat + i as nat,
                self.buffer@ == old(self)@.buffer + samples@.take(i as int),
                self.model_path == old(self).model_path,
                self.language == old(self).language,
                self.events == old(self).events,
                self.ready == old(self).ready,
                self.min_buffer_samples == old(self).min_buffer_samples,
            decreases samples@.len() - i,
        {
            self.buffer.push(samples[i]);
            i = i + 1;
            proof {
                assert(self.buffer@ =~= old(self)@.buffer + samples@.take(i as int));
            }
        }
        proof {
            assert(self.buffer@ =~= old(self)@.buffer + samples@);
        }
        if self.buffer.len() >= self.min_buffer_samples {
            self.events.push_back(SttEvent::Partial("[transcription...]".to_owned()));
            self.buffer.clear();
            proof {
                assert(final(self)@.events.take(old(self)@.events.len() as int) =~= old(self)@.events);
            }
        }
    }

    /// Pop the oldest ready event; `None` when the queue is empty.
    pub fn poll(&mut self) -> (r: Option<SttEvent>)
        requires
            old(self).wf(),
        ensures
            final(self).wf(),
            final(self).ready_spec() == old(self).ready_spec(),
            final(self).model_path_spec() == old(self).model_path_spec(),
            old(self)@.events.len() == 0 ==> r is None && final(self)@ == old(self)@,
            old(self)@.events.len() > 0 ==> r == Some(old(self)@.events[0]) && final(self)@ == (
            EngineModel { events: old(self)@.events.skip(1), ..old(self)@ }),
    {
        let r = self.events.pop_front();
        proof {
            if old(self)@.events.len() == 0 {
                assert(final(self)@ =~= old(self)@);
            } else {
                assert(final(self)@.events =~= old(self)@.events.skip(1));
            }
        }
        r
    }

    /// Flush: run the placeholder final inference on any buffered
    /// audio, emitting a `Final` event; an empty buffer emits nothing.
    pub fn flush(&mut self)
        requires
            old(self).wf(),
        ensures
            final(self).wf(),
            final(self).ready_spec() == old(self).ready_spec(),
            final(self).model_path_spec() == old(self).model_path_spec(),
            old(self)@.buffer.len() == 0 ==> final(self)@ == old(self)@,
            old(self)@.buffer.len() > 0 ==> ({
                &&& final(self)@.buffer == Seq::<i32>::empty()
                &&& final(self)@.events.len() == old(self)@.events.len() + 1
                &&& (final(self)@.events.last() matches SttEvent::Final(t) && t@
                    == local_final_text())
                &&& final(self)@.events.take(old(self)@.events.len() as int) == old(self)@.events
                &&& final(self)@ == (EngineModel {
                    buffer: final(self)@.buffer,
                    events: final(self)@.events,
                    ..old(self)@
                })
            }),
    {
        if !self.buffer.is_empty() {
            self.events.push_back(SttEvent::Final("[fin de transcription]".to_owned()));
            self.buffer.clear();
            proof {
                assert(final(self)@.events.take(old(self)@.events.len() as int) =~= old(self)@.events);
            }
        }
    }

    /// Clear the buffer and any ready events; the language is kept.
    pub fn reset(&mut self)
        requires
            old(self).wf(),
        ensures
            final(self).wf(),
            final(self).ready_spec() == old(self).ready_spec(),
            final(self).model_path_spec() == old(self).model_path_spec(),
            final(self)@ == (EngineModel {
                buffer: Seq::<i32>::empty(),
                events: Seq::<SttEvent>::empty(),
                ..old(self)@
            }),
    {
        self.buffer.clear();
        self.events.clear();
        proof {
            assert(final(self)@ =~= (EngineModel {
                buffer: Seq::<i32>::empty(),
                events: Seq::<SttEvent>::empty(),
                ..old(self)@
            }));
        }
    }

    /// The number of samples awaiting inference.
    pub fn buffered_len(&self) -> (r: usize)
        ensures
            r == self@.buffer.len(),
    {
        self.buffer.len()
    }

    /// Return the engine name.
    pub fn name(&self) -> (r: &str)
        ensures
            r@ == "Local"@,
    {
        "Local"
    }

    /// A local engine is ready once a model has been loaded.
    pub fn is_ready(&self) -> (r: bool)
        ensures
            r == self.ready_spec(),
    {
        self.ready
    }
}


/// An engine instance: the capability set {set_language, push_audio,
/// poll, flush, reset, name, is_ready} over either a network-backed
/// buffered engine or a placeholder local one.
pub enum Engine {
    /// Buffered network dispatch to one of the providers.
    Network(BufferedEngine),
    /// Placeholder local inference.
    Local(LocalEngine),
}

impl View for Engine {
    type V = EngineModel;

    open spec fn view(&self) -> EngineModel {
        match self {
            Engine::Network(e) => e@,
            Engine::Local(e) => e@,
        }
    }
}

impl Engine {
    /// The provider of a network engine; a local engine has none.
    pub open spec fn provider_of(&self) -> Option<Provider> {
        match self {
            Engine::Network(e) => Some(e.provider_spec()),
            Engine::Local(_) => None,
        }
    }

    /// The buffer bound every engine obeys.
    pub open spec fn wf(&self) -> bool {
        match self {
            Engine::Network(e) => e.wf(),
            Engine::Local(e) => e.wf(),
        }
    }

    /// Set the language applied to the next dispatched request; an
    /// in-flight request is unaffected.
    pub fn set_language(&mut self, language: Language)
        requires
            old(self).wf(),
        ensures
            final(self).wf(),
            final(self).provider_of() == old(self).provider_of(),
            final(self)@ == (EngineModel { language, ..old(self)@ }),
    {
        match self {
            Engine::Network(e) => e.set_language(language),
            Engine::Local(e) => e.set_language(language),
        }
    }

    /// Return the active language.
    pub fn language(&self) -> (r: &Language)
        ensures
            *r == self@.language,
    {
        match self {
            Engine::Network(e) => e.language(),
            Engine::Local(e) => e.language(),
        }
    }

    /// Append samples to the accumulation buffer. A network engine
    /// only accumulates; a local engine runs its placeholder
    /// inference once the buffer reaches its minimum size.
    pub fn push_audio(&mut self, samples: &Vec<i32>)
        requires
            old(self).wf(),
            old(self)@.buffer.len() + samples@.len() <= MAX_BUFFER_SAMPLES as nat,
        ensures
            final(self).wf(),
            final(self).provider_of() == old(self).provider_of(),
            old(self)@.network ==> final(self)@ == (EngineModel {
                buffer: old(self)@.buffer + samples@,
                ..old(self)@
            }),
            !old(self)@.network && old(self)@.buffer.len() + samples@.len() < old(self)@.min_dispatch ==> final(self)@ == (EngineModel {
                buffer: old(self)@.buffer + samples@,
                ..old(self)@
            }),
            !old(self)@.network && old(self)@.buffer.len() + samples@.len() >= old(self)@.min_dispatch ==> ({
                &&& final(self)@.buffer == Seq::<i32>::empty()
                &&& final(self)@.events.len() == old(self)@.events.len() + 1
                &&& (final(self)@.events.last() matches SttEvent::Partial(p) && p@
                    == local_partial_text())
                &&& final(self)@.events.take(old(self)@.events.len() as int) == old(self)@.events
                &&& final(self)@ == (EngineModel {
                    buffer: final(self)@.buffer,
                    events: final(self)@.events,
                    ..old(self)@
                })
            }),
    {
        match self {
            Engine::Network(e) => e.push_audio(samples),
            Engine::Local(e) => e.push_audio(samples),
        }
    }

    /// Pop the oldest ready event; `None` when the queue is empty.
    pub fn poll(&mut self) -> (r: Option<SttEvent>)
        requires
            old(self).wf(),
        ensures
            final(self).wf(),
            final(self).provider_of() == old(self).provider_of(),
            old(self)@.events.len() == 0 ==> r is None && final(self)@ == old(self)@,
            old(self)@.events.len() > 0 ==> r == Some(old(self)@.events[0]) && final(self)@ == (
            EngineModel { events: old(self)@.events.skip(1), ..old(self)@ }),
    {
        match self {
            Engine::Network(e) => e.poll(),
            Engine::Local(e) => e.poll(),
        }
    }

    /// Begin the flush. A network engine takes its buffer and hands
    /// back the dispatch request (unless the minimum-duration gate
    /// discards a short buffer); the caller performs the dispatch and
    /// settles it. A local engine flushes synchronously and never
    /// hands back a request.
    pub fn flush_begin(&mut self) -> (r: Option<DispatchRequest>)
        requires
            old(self).wf(),
        ensures
            final(self).wf(),
            final(self).provider_of() == old(self).provider_of(),
            old(self)@.network && !dispatch_gate_passes(old(self)@) ==> r is None && final(self)@ == after_discard(old(self)@),
            old(self)@.network && dispatch_gate_passes(old(self)@) ==> (r matches Some(req)
                && req.wav@ == wav_bytes(old(self)@.buffer)
                && (old(self).provider_of() matches Some(p) ==> ((p matches Provider::Gemini
                ==> (req.wav_base64 matches Some(b) && b@ == base64_of(
                    wav_bytes(old(self)@.buffer),
                ))) && (!(p matches Provider::Gemini) ==> req.wav_base64 is None)))
                && (old(self)@.language matches Language::Auto ==> req.language_code is None)
                && (!(old(self)@.language matches Language::Auto) ==> (req.language_code
                matches Some(c) && c@ == old(self)@.language.code_spec()))
                && final(self)@ == after_begin_dispatch(old(self)@)),
            !old(self)@.network ==> r is None,
            !old(self)@.network && old(self)@.buffer.len() == 0 ==> final(self)@ == old(self)@,
            !old(self)@.network && old(self)@.buffer.len() > 0 ==> ({
                &&& final(self)@.buffer == Seq::<i32>::empty()
                &&& final(self)@.events.len() == old(self)@.events.len() + 1
                &&& (final(self)@.events.last() matches SttEvent::Final(t) && t@
                    == local_final_text())
                &&& final(self)@.events.take(old(self)@.events.len() as int) == old(self)@.events
                &&& final(self)@ == (EngineModel {
                    buffer: final(self)@.buffer,
                    events: final(self)@.events,
                    ..old(self)@
                })
            }),
    {
        match self {
            Engine::Network(e) => e.begin_dispatch(),
            Engine::Local(e) => {
                e.flush();
                None
            },
        }
    }

    /// Settle an in-flight dispatch with the returned text; a local
    /// engine has nothing in flight and is unaffected.
    pub fn settle_dispatch(&mut self, text: Option<String>)
        requires
            old(self).wf(),
        ensures
            final(self).wf(),
            final(self).provider_of() == old(self).provider_of(),
            old(self)@.network ==> final(self)@ == after_settle(old(self)@, text),
            !old(self)@.network ==> final(self)@ == old(self)@,
    {
        match self {
            Engine::Network(e) => e.settle_dispatch(text),
            Engine::Local(_) => {},
        }
    }

    /// Whether a dispatched request has not settled yet.
    pub fn is_pending(&self) -> (r: bool)
        ensures
            r == self@.pending,
    {
        match self {
            Engine::Network(e) => e.is_pending(),
            Engine::Local(_) => false,
        }
    }

    /// The number of samples awaiting dispatch.
    pub fn buffered_len(&self) -> (r: usize)
        ensures
            r == self@.buffer.len(),
    {
        match self {
            Engine::Network(e) => e.buffered_len(),
            Engine::Local(e) => e.buffered_len(),
        }
    }

    /// Clear the buffer and any ready events; the language is kept.
    pub fn reset(&mut self)
        requires
            old(self).wf(),
        ensures
            final(self).wf(),
            final(self).provider_of() == old(self).provider_of(),
            final(self)@ == (EngineModel {
                buffer: Seq::<i32>::empty(),
                events: Seq::<SttEvent>::empty(),
                ..old(self)@
            }),
    {
        match self {
            Engine::Network(e) => e.reset(),
            Engine::Local(e) => e.reset(),
        }
    }

    /// Return the engine name.
    pub fn name(&self) -> (r: &str)
        ensures
            self.provider_of() matches Some(p) ==> r@ == p.name_spec(),
            self.provider_of() is None ==> r@ == "Local"@,
    {
        match self {
            Engine::Network(e) => e.name(),
            Engine::Local(e) => e.name(),
        }
    }

    /// Whether the engine can transcribe: a network engine always, a
    /// local engine once a model has been loaded.
    pub open spec fn ready_of(&self) -> bool {
        match self {
            Engine::Network(_) => true,
            Engine::Local(e) => e.ready_spec(),
        }
    }

    /// Whether the engine can transcribe.
    pub fn is_ready(&self) -> (r: bool)
        ensures
            r == self.ready_of(),
    {
        match self {
            Engine::Network(e) => e.is_ready(),
            Engine::Local(e) => e.is_ready(),
        }
    }
}

/// Flush completeness: a buffer at least the minimum duration long
/// passes the dispatch gate, and once that dispatch settles with
/// non-empty text the queue holds the corresponding `Final` event
/// behind the events that were already queued, so a FIFO drain
/// surfaces it.
pub proof fn lemma_flush_completeness(m: EngineModel, t: String)
    requires
        m.buffer.len() >= m.min_dispatch,
        t@.len() > 0,
    ensures
        dispatch_gate_passes(m),
        after_settle(after_begin_dispatch(m), Some(t)).events == m.events.push(
            SttEvent::Final(t),
        ),
        after_settle(after_begin_dispatch(m), Some(t)).events[m.events.len() as int]
            == SttEvent::Final(t),
        !after_settle(after_begin_dispatch(m), Some(t)).pending,
{
}

/// Event ordering: the FIFO queue returns events in enqueue order.
/// By `poll`'s contract, after `k` polls the queue is `q.skip(k)` and
/// the next poll returns its head; that head is `q[k]`, so an event
/// enqueued earlier is always returned before one enqueued later.
pub proof fn lemma_poll_fifo(q: Seq<SttEvent>, k: int)
    requires
        0 <= k < q.len(),
    ensures
        q.skip(k).len() > 0,
        q.skip(k)[0] == q[k],
        q.skip(k).skip(1) == q.skip(k + 1),
{
    assert(q.skip(k).skip(1) =~= q.skip(k + 1));
}

} // verus!
