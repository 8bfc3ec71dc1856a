//! Core logic of a hands-free dictation utility.
//!
//! A system-wide keyboard hook watches the Alt key: a quick double tap starts
//! or stops a microphone capture, holding the key cancels one. A finished
//! capture is transcribed, optionally cleaned up, and the resulting text is
//! injected into the focused application.
//!
//! This crate holds the decision logic of that pipeline — the gesture
//! detector, the recording/transcription orchestrator, transcript selection
//! and cleanup fallback, credential bookkeeping — specified and verified with
//! Verus. The platform shell (OS hook, audio stream, HTTP, clipboard) drives
//! these state machines and carries out the effects they decide on.

use vstd::prelude::*;

pub mod gesture;
pub mod injection;
pub mod orchestrator;
pub mod processing;
pub mod recording;
pub mod settings;
pub mod text;

verus! {

/// Milliseconds within which two Alt releases count as a double tap.
pub const DOUBLE_TAP_THRESHOLD_MS: u64 = 400;

/// Milliseconds Alt must stay held before the hold-to-cancel gesture fires.
pub const HOLD_CANCEL_THRESHOLD_MS: u64 = 400;

/// Captures shorter than this many milliseconds are discarded unheard.
pub const MIN_RECORDING_DURATION_MS: u64 = 500;

/// How long the transient cancelling state stays visible, in milliseconds.
pub const CANCEL_SETTLE_DELAY_MS: u64 = 400;

/// Cadence at which the live amplitude level is published, in milliseconds.
pub const AMPLITUDE_POLL_INTERVAL_MS: u64 = 50;

} // verus!
