//! Tests for the pipeline state machine and event delivery.

use dictea::engine::{BufferedEngine, Engine, LocalEngine, Provider, MIN_DISPATCH_SAMPLES};
use dictea::pipeline::{
    PipelineConfig, PipelineError, PipelineStatus, RealtimePipeline, StatusResponse,
};
use dictea::stt::{Language, SttEvent};

fn network_pipeline() -> RealtimePipeline {
    let engine = Engine::Network(BufferedEngine::with_api_key(
        Provider::Voxtral,
        "SECRET-REDACTED".to_string(),
    ));
    RealtimePipeline::new(engine, PipelineConfig::default())
}

fn one_second() -> Vec<i32> {
    vec![65536; MIN_DISPATCH_SAMPLES]
}

#[test]
fn new_pipeline_is_stopped() {
    let p = network_pipeline();
    assert_eq!(p.status(), PipelineStatus::Stopped);
    assert_eq!(p.config().language, Language::Auto);
    assert_eq!(p.config().audio_config.target_sample_rate, 16000);
}

#[test]
fn start_on_running_pipeline_fails_without_side_effects() {
    let mut p = network_pipeline();
    p.start().unwrap();
    p.capture_started();
    assert_eq!(p.status(), PipelineStatus::Running);
    let mut sub = p.subscribe();
    assert_eq!(p.start(), Err(PipelineError::AlreadyRunning));
    assert_eq!(p.status(), PipelineStatus::Running);
    assert_eq!(p.recv(&mut sub), None);
}

#[test]
fn stop_on_stopped_pipeline_is_idempotent() {
    let mut p = network_pipeline();
    assert_eq!(p.status(), PipelineStatus::Stopped);
    assert!(p.stop().is_none());
    assert_eq!(p.status(), PipelineStatus::Stopped);
    assert!(p.stop().is_none());
    assert_eq!(p.status(), PipelineStatus::Stopped);
}

#[test]
fn lifecycle_runs_one_session() {
    let mut p = network_pipeline();
    let mut sub = p.subscribe();
    p.start().unwrap();
    assert_eq!(p.status(), PipelineStatus::Starting);
    p.capture_started();
    assert_eq!(p.status(), PipelineStatus::Running);
    p.process_frame(&one_second());
    let req = p.stop().expect("one second of audio must dispatch at stop");
    assert_eq!(p.status(), PipelineStatus::Stopping);
    assert_eq!(&req.wav[0..4], b"RIFF");
    assert!(p.is_pending());
    p.settle_flush(Some("bonjour".to_string()));
    assert!(!p.is_pending());
    p.finish_stop();
    assert_eq!(p.status(), PipelineStatus::Stopped);
    assert_eq!(p.recv(&mut sub), Some(SttEvent::Final("bonjour".to_string())));
    assert_eq!(p.recv(&mut sub), None);
}

#[test]
fn short_session_dispatches_nothing() {
    let mut p = network_pipeline();
    let mut sub = p.subscribe();
    p.start().unwrap();
    p.capture_started();
    p.process_frame(&vec![100; MIN_DISPATCH_SAMPLES - 1]);
    assert!(p.stop().is_none());
    p.finish_stop();
    assert_eq!(p.status(), PipelineStatus::Stopped);
    assert_eq!(p.recv(&mut sub), None);
}

#[test]
fn abandoned_flush_still_enqueues_a_late_result() {
    let mut p = network_pipeline();
    let mut sub = p.subscribe();
    p.start().unwrap();
    p.capture_started();
    p.process_frame(&one_second());
    let _req = p.stop().unwrap();
    // The wait times out: stop completes without the result.
    p.finish_stop();
    assert_eq!(p.status(), PipelineStatus::Stopped);
    assert_eq!(p.recv(&mut sub), None);
    // The abandoned call settles later; its event reaches a poll.
    p.settle_flush(Some("late".to_string()));
    p.finish_stop();
    assert_eq!(p.recv(&mut sub), Some(SttEvent::Final("late".to_string())));
}

#[test]
fn subscriber_isolation() {
    let mut p = network_pipeline();
    let mut early = p.subscribe();
    p.start().unwrap();
    p.capture_started();
    p.process_frame(&one_second());
    let _ = p.stop().unwrap();
    p.settle_flush(Some("first".to_string()));
    p.finish_stop();

    // A subscriber joining after "first" was published never sees it.
    let mut late = p.subscribe();
    p.start().unwrap();
    p.capture_started();
    p.process_frame(&one_second());
    let _ = p.stop().unwrap();
    p.settle_flush(Some("second".to_string()));
    p.finish_stop();

    assert_eq!(p.recv(&mut late), Some(SttEvent::Final("second".to_string())));
    assert_eq!(p.recv(&mut late), None);
    // The early subscriber sees both, in publish order.
    assert_eq!(p.recv(&mut early), Some(SttEvent::Final("first".to_string())));
    assert_eq!(p.recv(&mut early), Some(SttEvent::Final("second".to_string())));
    assert_eq!(p.recv(&mut early), None);
}

#[test]
fn capture_failure_enters_error_state() {
    let mut p = network_pipeline();
    p.start().unwrap();
    p.capture_failed("no device".to_string());
    assert_eq!(p.status(), PipelineStatus::Error("no device".to_string()));
    let r = StatusResponse::for_pipeline(&p);
    assert_eq!(r.status, "error");
    assert!(!r.is_listening);
    // A fresh start leaves the error state.
    p.start().unwrap();
    assert_eq!(p.status(), PipelineStatus::Starting);
}

#[test]
fn set_language_reaches_config_and_engine() {
    let mut p = network_pipeline();
    p.set_language(Language::German);
    assert_eq!(p.config().language, Language::German);
    p.start().unwrap();
    p.capture_started();
    p.process_frame(&one_second());
    let req = p.stop().unwrap();
    assert_eq!(req.language_code.as_deref(), Some("de"));
}

#[test]
fn status_response_reports_pipeline() {
    let mut p = network_pipeline();
    let r = StatusResponse::for_pipeline(&p);
    assert_eq!(r.status, "stopped");
    assert_eq!(r.language, "auto");
    assert!(!r.is_listening);
    p.start().unwrap();
    p.capture_started();
    let r = StatusResponse::for_pipeline(&p);
    assert_eq!(r.status, "running");
    assert!(r.is_listening);
}

#[test]
fn status_response_before_any_pipeline() {
    let r = StatusResponse::not_initialized();
    assert_eq!(r.status, "not_initialized");
    assert_eq!(r.language, "auto");
    assert!(!r.is_listening);
}

#[test]
fn local_engine_pipeline_streams_partials() {
    let engine = Engine::Local(LocalEngine::with_model("model.bin".to_string(), 4));
    let mut p = RealtimePipeline::new(engine, PipelineConfig::default());
    let mut sub = p.subscribe();
    p.start().unwrap();
    p.capture_started();
    p.process_frame(&vec![1, 2, 3, 4]);
    assert_eq!(
        p.recv(&mut sub),
        Some(SttEvent::Partial("[transcription...]".to_string()))
    );
    p.process_frame(&vec![5]);
    assert!(p.stop().is_none());
    p.finish_stop();
    assert_eq!(
        p.recv(&mut sub),
        Some(SttEvent::Final("[fin de transcription]".to_string()))
    );
    assert_eq!(p.recv(&mut sub), None);
}
