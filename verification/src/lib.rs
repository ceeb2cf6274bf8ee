//! Core of a push-to-talk dictation system: the audio conditioning
//! pipeline (downmix and resample), the buffered speech-to-text engine
//! abstraction, and the pipeline orchestrator with its lifecycle state
//! machine and ordered event delivery.
//!
//! Audio samples are carried as signed 32-bit fixed-point values with
//! 16 fractional bits: the sample `65536` stands for a full-scale `1.0`.

pub mod audio;
pub mod config;
pub mod engine;
pub mod events;
pub mod pipeline;
pub mod stt;
pub mod transcript;
pub mod wav;
