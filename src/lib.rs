//! Synthesis cache and playback engine of a home voice assistant.
//!
//! Cache keys are derived deterministically from synthesis requests, the
//! cache decides where artifacts live, the device worker serializes playback
//! commands against the single output device, and each spoken request runs
//! through a small state machine that the caller drives with outside results.

pub mod alarm_service;
pub mod audio_cache;
pub mod audio_player;
pub mod audio_repository;
pub mod broadcast;
pub mod cache_key;
pub mod config;
pub mod router;
pub mod say_session;
pub mod speech_service;
pub mod table;
pub mod template_messages;
pub mod text;
