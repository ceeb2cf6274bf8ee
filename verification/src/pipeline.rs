//! The real-time transcription pipeline: one engine, one broadcast
//! log, and the lifecycle state machine
//! `Stopped -> Starting -> Running -> Stopping -> Stopped`, with
//! `Error` reachable from `Starting` and `Running`.
//!
//! The pipeline is the single logical consumer of captured audio:
//! frames are pushed to the engine and ready events republished onto
//! the broadcast log only through `process_frame`, so engine mutation
//! is serialized. The steps that need outside work — starting the
//! capture device, performing the dispatched network request, waiting
//! out the flush timeout — are driven by the caller between the
//! transition methods.

use vstd::prelude::*;
use crate::audio::AudioConfig;
use crate::engine::{
    after_begin_dispatch, after_discard, after_settle, dispatch_gate_passes, base64_of,
    local_final_text, DispatchRequest, Engine, EngineModel, Provider,
};
use crate::events::{next_cursor, recv_result, EventBus, Subscriber};
use crate::stt::{Language, SttError, SttEvent};
use crate::wav::wav_bytes;

verus! {

/// Pipeline configuration: the transcription language and the capture
/// target rate.
#[derive(Debug, Clone)]
pub struct PipelineConfig {
    /// Language for transcription.
    pub language: Language,
    /// Audio configuration.
    pub audio_config: AudioConfig,
}

impl Default for PipelineConfig {
    /// Automatic language detection over 16 kHz audio.
    fn default() -> (c: PipelineConfig)
        ensures
            c.language == Language::Auto,
            c.audio_config.target_sample_rate == 16000,
    {
        PipelineConfig { language: Language::Auto, audio_config: AudioConfig::default() }
    }
}

/// Pipeline errors.
#[derive(Debug, Clone, PartialEq, Eq)]
pub enum PipelineError {
    /// The capture device failed.
    AudioError(crate::audio::MicrophoneError),
    /// The engine failed.
    SttError(SttError),
    /// `start` was called while the pipeline was running.
    AlreadyRunning,
    /// The pipeline was never started.
    NotRunning,
}

/// The pipeline lifecycle state. Exactly one value at a time, mutated
/// only by the pipeline's own transition methods.
#[derive(Debug, Clone, PartialEq, Eq)]
pub enum PipelineStatus {
    /// Not capturing; the initial and final state of every cycle.
    Stopped,
    /// `start` accepted, capture not confirmed yet.
    Starting,
    /// Capturing and transcribing.
    Running,
    /// `stop` accepted, the final flush not completed yet.
    Stopping,
    /// An unrecoverable audio or engine failure; only a fresh `start`
    /// leaves this state.
    Error(String),
}

impl PipelineStatus {
    /// An equal copy of this status.
    pub fn duplicate(&self) -> (r: PipelineStatus)
        ensures
            r == *self,
    {
        match self {
            PipelineStatus::Stopped => PipelineStatus::Stopped,
            PipelineStatus::Starting => PipelineStatus::Starting,
            PipelineStatus::Running => PipelineStatus::Running,
            PipelineStatus::Stopping => PipelineStatus::Stopping,
            PipelineStatus::Error(m) => PipelineStatus::Error(m.clone()),
        }
    }
}

/// The abstract state of a pipeline: its configuration, lifecycle
/// status, engine state and the broadcast log of published events.
#[verifier::ext_equal]
pub struct PipelineView {
    /// Configured transcription language.
    pub language: Language,
    /// Configured capture target rate.
    pub target_sample_rate: u32,
    /// Lifecycle status.
    pub status: PipelineStatus,
    /// The engine's abstract state.
    pub engine: EngineModel,
    /// Every event published so far, in publish order.
    pub log: Seq<SttEvent>,
}

/// The real-time transcription pipeline.
pub struct RealtimePipeline {
    config: PipelineConfig,
    engine: Engine,
    status: PipelineStatus,
    bus: EventBus,
}

impl View for RealtimePipeline {
    type V = PipelineView;

    closed spec fn view(&self) -> PipelineView {
        PipelineView {
            language: self.config.language,
            target_sample_rate: self.config.audio_config.target_sample_rate,
            status: self.status,
            engine: self.engine@,
            log: self.bus@,
        }
    }
}

impl RealtimePipeline {
    /// The engine's buffer obeys its bound.
    pub open spec fn wf(&self) -> bool {
        self.engine_wf()
    }

    /// The provider of the pipeline's engine, if it is network-backed.
    pub closed spec fn provider_of(&self) -> Option<Provider> {
        self.engine.provider_of()
    }

    /// The engine component of `wf`.
    pub closed spec fn engine_wf(&self) -> bool {
        self.engine.wf()
    }

    /// Create a pipeline around `engine`, stopped, with an empty log.
    pub fn new(engine: Engine, config: PipelineConfig) -> (r: RealtimePipeline)
        requires
            engine.wf(),
        ensures
            r.wf(),
            r.provider_of() == engine.provider_of(),
            r@ == (PipelineView {
                language: config.language,
                target_sample_rate: config.audio_config.target_sample_rate,
                status: PipelineStatus::Stopped,
                engine: engine@,
                log: Seq::<SttEvent>::empty(),
            }),
    {
        RealtimePipeline { config, engine, status: PipelineStatus::Stopped, bus: EventBus::new() }
    }

    /// Begin starting the pipeline. On a running pipeline this fails
    /// with `AlreadyRunning` and changes nothing; otherwise the status
    /// becomes `Starting` and the configured language is applied to
    /// the engine, ahead of the capture start the caller performs.
    pub fn start(&mut self) -> (r: Result<(), PipelineError>)
        requires
            old(self).wf(),
        ensures
            final(self).wf(),
            final(self).provider_of() == old(self).provider_of(),
            old(self)@.status matches PipelineStatus::Running ==> r == Err::<(),
                PipelineError,
            >(PipelineError::AlreadyRunning) && final(self)@ == old(self)@,
            !(old(self)@.status matches PipelineStatus::Running) ==> r == Ok::<(),
                PipelineError,
            >(()) && final(self)@ == (PipelineView {
                status: PipelineStatus::Starting,
                engine: (EngineModel { language: old(self)@.language, ..old(self)@.engine }),
                ..old(self)@
            }),
    {
        match self.status {
            PipelineStatus::Running => Err(PipelineError::AlreadyRunning),
            _ => {
                self.status = PipelineStatus::Starting;
                let language = self.config.language.duplicate();
                self.engine.set_language(language);
                Ok(())
            },
        }
    }

    /// Confirm that capture started: the pipeline is now running.
    pub fn capture_started(&mut self)
        requires
            old(self).wf(),
            old(self)@.status matches PipelineStatus::Starting,
        ensures
            final(self).wf(),
            final(self).provider_of() == old(self).provider_of(),
            final(self)@ == (PipelineView { status: PipelineStatus::Running, ..old(self)@ }),
    {
        self.status = PipelineStatus::Running;
    }

    /// Record an unrecoverable audio or engine failure. Reachable from
    /// `Starting` and `Running`; only a fresh `start` leaves it.
    pub fn capture_failed(&mut self, message: String)
        requires
            old(self).wf(),
            old(self)@.status matches PipelineStatus::Starting || old(self)@.status
                matches PipelineStatus::Running,
        ensures
            final(self).wf(),
            final(self).provider_of() == old(self).provider_of(),
            final(self)@ == (PipelineView { status: PipelineStatus::Error(message), ..old(self)@ }),
    {
        self.status = PipelineStatus::Error(message);
    }

    /// Process one captured frame: push it to the engine, then drain
    /// every ready event onto the broadcast log. This is the only
    /// place captured audio reaches the engine.
    pub fn process_frame(&mut self, samples: &Vec<i32>)
        requires
            old(self).wf(),
            old(self)@.engine.buffer.len() + samples@.len()
                <= crate::engine::MAX_BUFFER_SAMPLES as nat,
            old(self)@.log.len() + old(self)@.engine.events.len() + 1 < usize::MAX as nat,
        ensures
            final(self).wf(),
            final(self).provider_of() == old(self).provider_of(),
            final(self)@.status == old(self)@.status,
            final(self)@.language == old(self)@.language,
            final(self)@.target_sample_rate == old(self)@.target_sample_rate,
            final(self)@.engine.events.len() == 0,
            old(self)@.engine.network || old(self)@.engine.buffer.len() + samples@.len() < old(self)@.engine.min_dispatch ==> final(self)@.engine == (EngineModel {
                buffer: old(self)@.engine.buffer + samples@,
                events: Seq::<SttEvent>::empty(),
                ..old(self)@.engine
            }) && final(self)@.log == old(self)@.log + old(self)@.engine.events,
            !old(self)@.engine.network && old(self)@.engine.buffer.len() + samples@.len() >= old(self)@.engine.min_dispatch ==> ({
                &&& final(self)@.engine == (EngineModel {
                    buffer: Seq::<i32>::empty(),
                    events: Seq::<SttEvent>::empty(),
                    ..old(self)@.engine
                })
                &&& final(self)@.log.len() == old(self)@.log.len() + old(self)@.engine.events.len() + 1
                &&& final(self)@.log.take(
                    old(self)@.log.len() as int + old(self)@.engine.events.len() as int,
                ) == old(self)@.log + old(self)@.engine.events
                &&& (final(self)@.log.last() matches SttEvent::Partial(p) && p@
                    == crate::engine::local_partial_text())
            }),
    {
        self.engine.push_audio(samples);
        let ghost log0 = self.bus@;
        let ghost queued = self.engine@.events;
        let ghost k: int = 0;
        proof {
            assert(queued.skip(0) =~= queued);
            assert(queued.take(0) =~= Seq::<SttEvent>::empty());
            assert(log0 + queued.take(0) =~= log0);
        }
        loop
            invariant
                self.engine.wf(),
                self.engine.provider_of() == old(self).provider_of(),
                self.engine@.language == old(self)@.engine.language,
                self.engine@.pending == old(self)@.engine.pending,
                self.engine@.min_dispatch == old(self)@.engine.min_dispatch,
                self.engine@.network == old(self)@.engine.network,
                self.engine@.buffer == (if old(self)@.engine.network || old(self)@.engine.buffer.len() + samples@.len() < old(self)@.engine.min_dispatch {
                    old(self)@.engine.buffer + samples@
                } else {
                    Seq::<i32>::empty()
                }),
                self.status == old(self).status,
                self.config == old(self).config,
                0 <= k <= queued.len(),
                self.engine@.events == queued.skip(k),
                self.bus@ == log0 + queued.take(k),
                log0.len() + queued.len() < usize::MAX as nat,
            ensures
                self.engine@.events.len() == 0,
                self.bus@ == log0 + queued,
            decreases queued.len() - k,
        {
            match self.engine.poll() {
                Some(event) => {
                    proof {
                        assert(queued.skip(k)[0] == queued[k]);
                        assert(queued.skip(k).skip(1) =~= queued.skip(k + 1));
                    }
                    self.bus.publish(event);
                    proof {
                        assert(log0 + queued.take(k + 1) =~= (log0 + queued.take(k)).push(
                            queued[k],
                        ));
                        k = k + 1;
                    }
                },
                None => {
                    proof {
                        assert(queued.take(k) =~= queued);
                    }
                    break;
                },
            }
        }
        proof {
            if old(self)@.engine.network || old(self)@.engine.buffer.len() + samples@.len() < old(self)@.engine.min_dispatch {
                assert(self@.log =~= old(self)@.log + old(self)@.engine.events);
                assert(self@.engine =~= (EngineModel {
                    buffer: old(self)@.engine.buffer + samples@,
                    events: Seq::<SttEvent>::empty(),
                    ..old(self)@.engine
                }));
            } else {
                assert(queued.take(old(self)@.engine.events.len() as int) =~= old(self)@.engine.events);
                assert(self@.log.take(
                    old(self)@.log.len() as int + old(self)@.engine.events.len() as int,
                ) =~= old(self)@.log + old(self)@.engine.events);
            }
        }
    }

    /// Begin stopping the pipeline. On a stopped pipeline this is a
    /// no-op and changes nothing (stopping is idempotent); otherwise
    /// the status becomes `Stopping` and the engine's flush begins,
    /// handing back the dispatch request for the caller to perform,
    /// if the minimum-duration gate let one through.
    pub fn stop(&mut self) -> (r: Option<DispatchRequest>)
        requires
            old(self).wf(),
        ensures
            final(self).wf(),
            final(self).provider_of() == old(self).provider_of(),
            old(self)@.status matches PipelineStatus::Stopped ==> r is None && final(self)@ == old(self)@,
            !(old(self)@.status matches PipelineStatus::Stopped) ==> ({
                &&& final(self)@.status == PipelineStatus::Stopping
                &&& final(self)@.language == old(self)@.language
                &&& final(self)@.target_sample_rate == old(self)@.target_sample_rate
                &&& final(self)@.log == old(self)@.log
                &&& old(self)@.engine.network && !dispatch_gate_passes(old(self)@.engine)
                    ==> r is None && final(self)@.engine == after_discard(old(self)@.engine)
                &&& old(self)@.engine.network && dispatch_gate_passes(old(self)@.engine) ==> (
                r matches Some(req) && req.wav@ == wav_bytes(old(self)@.engine.buffer) && (
                old(self).provider_of() matches Some(p) ==> ((p matches Provider::Gemini ==> (
                req.wav_base64 matches Some(b) && b@ == base64_of(
                    wav_bytes(old(self)@.engine.buffer),
                ))) && (!(p matches Provider::Gemini) ==> req.wav_base64 is None))) && (
                old(self)@.engine.language matches Language::Auto ==> req.language_code is None)
                    && (!(old(self)@.engine.language matches Language::Auto) ==> (
                req.language_code matches Some(c) && c@ == old(self)@.engine.language.code_spec()))
                    && final(self)@.engine == after_begin_dispatch(old(self)@.engine))
                &&& !old(self)@.engine.network ==> r is None
                &&& !old(self)@.engine.network && old(self)@.engine.buffer.len() == 0 ==> final(self)@.engine == old(self)@.engine
                &&& !old(self)@.engine.network && old(self)@.engine.buffer.len() > 0 ==> ({
                    &&& final(self)@.engine.buffer == Seq::<i32>::empty()
                    &&& final(self)@.engine.events == old(self)@.engine.events.push(
                        final(self)@.engine.events.last(),
                    )
                    &&& (final(self)@.engine.events.last() matches SttEvent::Final(t) && t@
                        == local_final_text())
                })
            }),
    {
        match self.status {
            PipelineStatus::Stopped => None,
            _ => {
                self.status = PipelineStatus::Stopping;
                let r = self.engine.flush_begin();
                proof {
                    if !old(self)@.engine.network && old(self)@.engine.buffer.len() > 0 {
                        assert(self@.engine.events =~= old(self)@.engine.events.push(
                            self@.engine.events.last(),
                        ));
                    }
                }
                r
            },
        }
    }

    /// Settle the flush's dispatched request with the text the
    /// inference returned (`None` for a failure or a timed-out wait
    /// that was abandoned). Clears the engine's pending flag; on
    /// non-empty text the engine queues the `Final` event.
    pub fn settle_flush(&mut self, text: Option<String>)
        requires
            old(self).wf(),
        ensures
            final(self).wf(),
            final(self).provider_of() == old(self).provider_of(),
            final(self)@.status == old(self)@.status,
            final(self)@.language == old(self)@.language,
            final(self)@.target_sample_rate == old(self)@.target_sample_rate,
            final(self)@.log == old(self)@.log,
            old(self)@.engine.network ==> final(self)@.engine == after_settle(
                old(self)@.engine,
                text,
            ),
            !old(self)@.engine.network ==> final(self)@.engine == old(self)@.engine,
    {
        self.engine.settle_dispatch(text);
    }

    /// Complete the stop: drain the engine's remaining events onto the
    /// broadcast log and mark the pipeline stopped.
    pub fn finish_stop(&mut self)
        requires
            old(self).wf(),
            old(self)@.log.len() + old(self)@.engine.events.len() < usize::MAX as nat,
        ensures
            final(self).wf(),
            final(self).provider_of() == old(self).provider_of(),
            final(self)@ == (PipelineView {
                status: PipelineStatus::Stopped,
                engine: (EngineModel {
                    events: Seq::<SttEvent>::empty(),
                    ..old(self)@.engine
                }),
                log: old(self)@.log + old(self)@.engine.events,
                ..old(self)@
            }),
    {
        let ghost log0 = self.bus@;
        let ghost queued = self.engine@.events;
        let ghost k: int = 0;
        proof {
            assert(queued.skip(0) =~= queued);
            assert(queued.take(0) =~= Seq::<SttEvent>::empty());
            assert(log0 + queued.take(0) =~= log0);
        }
        loop
            invariant
                self.engine.wf(),
                self.engine.provider_of() == old(self).provider_of(),
                self.engine@ == (EngineModel { events: queued.skip(k), ..old(self)@.engine }),
                self.status == old(self).status,
                self.config == old(self).config,
                0 <= k <= queued.len(),
                self.bus@ == log0 + queued.take(k),
                log0.len() + queued.len() < usize::MAX as nat,
            ensures
                self.engine@ == (EngineModel {
                    events: Seq::<SttEvent>::empty(),
                    ..old(self)@.engine
                }),
                self.bus@ == log0 + queued,
            decreases queued.len() - k,
        {
            match self.engine.poll() {
                Some(event) => {
                    proof {
                        assert(queued.skip(k)[0] == queued[k]);
                        assert(queued.skip(k).skip(1) =~= queued.skip(k + 1));
                    }
                    self.bus.publish(event);
                    proof {
                        assert(log0 + queued.take(k + 1) =~= (log0 + queued.take(k)).push(
                            queued[k],
                        ));
                        k = k + 1;
                    }
                },
                None => {
                    proof {
                        assert(queued.take(k) =~= queued);
                        assert(queued.skip(k) =~= Seq::<SttEvent>::empty());
                    }
                    break;
                },
            }
        }
        self.status = PipelineStatus::Stopped;
    }

    /// Whether the engine's dispatched request has not settled yet;
    /// the flush's bounded blocking wait polls this.
    pub fn is_pending(&self) -> (r: bool)
        ensures
            r == self@.engine.pending,
    {
        self.engine.is_pending()
    }

    /// Return the current pipeline status.
    pub fn status(&self) -> (r: PipelineStatus)
        ensures
            r == self@.status,
    {
        self.status.duplicate()
    }

    /// Subscribe to transcription events: a new independent receiver
    /// that sees only events published after this call.
    pub fn subscribe(&self) -> (r: Subscriber)
        ensures
            r@ == self@.log.len(),
    {
        self.bus.subscribe()
    }

    /// Receive the next event for `sub`, in publish order; `None` once
    /// it has seen every published event.
    pub fn recv(&self, sub: &mut Subscriber) -> (r: Option<SttEvent>)
        ensures
            r == recv_result(self@.log, old(sub)@),
            final(sub)@ == next_cursor(self@.log, old(sub)@),
    {
        self.bus.recv(sub)
    }

    /// Change the transcription language, for the configuration and
    /// for the engine's next dispatched request.
    pub fn set_language(&mut self, language: Language)
        requires
            old(self).wf(),
        ensures
            final(self).wf(),
            final(self).provider_of() == old(self).provider_of(),
            final(self)@ == (PipelineView {
                language,
                engine: (EngineModel { language, ..old(self)@.engine }),
                ..old(self)@
            }),
    {
        self.config.language = language.duplicate();
        self.engine.set_language(language);
    }

    /// Return the current configuration.
    pub fn config(&self) -> (r: &PipelineConfig)
        ensures
            r.language == self@.language,
            r.audio_config.target_sample_rate == self@.target_sample_rate,
    {
        &self.config
    }
}


/// The label the UI receives for each lifecycle state.
pub open spec fn status_label(s: PipelineStatus) -> Seq<char> {
    match s {
        PipelineStatus::Stopped => "stopped"@,
        PipelineStatus::Starting => "starting"@,
        PipelineStatus::Running => "running"@,
        PipelineStatus::Stopping => "stopping"@,
        PipelineStatus::Error(_) => "error"@,
    }
}

/// Status snapshot handed to the UI.
#[derive(Debug, Clone)]
pub struct StatusResponse {
    /// The lifecycle state's label.
    pub status: String,
    /// The configured language's code.
    pub language: String,
    /// Whether the pipeline is running.
    pub is_listening: bool,
}

impl StatusResponse {
    /// The snapshot for a live pipeline.
    pub fn for_pipeline(pipeline: &RealtimePipeline) -> (r: StatusResponse)
        ensures
            r.status@ == status_label(pipeline@.status),
            r.language@ == pipeline@.language.code_spec(),
            r.is_listening == (pipeline@.status matches PipelineStatus::Running),
    {
        let status = match &pipeline.status {
            PipelineStatus::Stopped => "stopped",
            PipelineStatus::Starting => "starting",
            PipelineStatus::Running => "running",
            PipelineStatus::Stopping => "stopping",
            PipelineStatus::Error(_) => "error",
        };
        let is_listening = match &pipeline.status {
            PipelineStatus::Running => true,
            _ => false,
        };
        StatusResponse {
            status: status.to_owned(),
            language: pipeline.config.language.code().to_owned(),
            is_listening,
        }
    }

    /// The snapshot before any pipeline exists.
    pub fn not_initialized() -> (r: StatusResponse)
        ensures
            r.status@ == "not_initialized"@,
            r.language@ == "auto"@,
            !r.is_listening,
    {
        StatusResponse {
            status: "not_initialized".to_owned(),
            language: "auto".to_owned(),
            is_listening: false,
        }
    }
}

} // verus!
