//! The dictation lifecycle state machine.
//!
//! One orchestrator value, guarded by a single lock in the platform shell,
//! ties confirmed gestures to the recording session: a tap while idle asks
//! for a session, a tap while listening stops it and decides — by elapsed
//! time — between discarding the capture and transcribing it, and a hold
//! cancel while listening always discards. The shell performs the decided
//! effects (open or delete the capture file, call the transcription and
//! cleanup providers, inject text) and reports outcomes back through
//! [`DictationOrchestrator::session_started`], [`settle_transcription`] and
//! [`resolve_injection_text`].

use vstd::prelude::*;

verus! {

use crate::MIN_RECORDING_DURATION_MS;
use crate::processing::AudioProcessorError;

/// Vertical gap kept between the recording window and the bottom of the
/// monitor, above the taskbar, in pixels.
pub const RECORDING_BOTTOM_OFFSET: i32 = 72;

/// Where the orchestrator stands between gestures. The transient
/// processing/cancelling stretches run to completion under the session lock
/// before the next gesture is looked at, so no gesture ever observes them.
#[derive(Debug)]
pub enum DictationPhase {
    /// No capture in progress.
    Idle,
    /// A capture is running: when it began, and the file it is written to.
    Listening { started_at_ms: u64, path: String },
}

/// What a confirmed tap asks the platform shell to do.
#[derive(Debug, PartialEq, Eq)]
pub enum TapDecision {
    /// No session was running: create a fresh capture file, start the
    /// recorder and the amplitude emitter, then report back through
    /// [`DictationOrchestrator::session_started`] (or not, on failure —
    /// the orchestrator stays idle either way until told otherwise).
    StartSession,
    /// The session was too short to mean anything: stop the recorder and
    /// the emitter, delete the capture at `path`, show the cancelling state
    /// for its settle delay, and transcribe nothing.
    DiscardSession { path: String },
    /// A full session ended: stop the recorder and the emitter, hand the
    /// capture at `path` to the transcription provider, and delete the file
    /// afterwards whatever the outcome.
    TranscribeSession { path: String, elapsed_ms: u64 },
}

/// What a hold-cancel gesture asks the platform shell to do.
#[derive(Debug, PartialEq, Eq)]
pub enum CancelDecision {
    /// Nothing was recording; nothing to do.
    Ignore,
    /// Stop the recorder and the emitter, delete the capture at `path`,
    /// show the cancelling state. The capture is never transcribed.
    DiscardSession { path: String },
}

/// How the orchestrator proceeds once the transcription outcome is in.
/// The capture file is deleted before this decision is even taken.
#[derive(Debug, PartialEq, Eq)]
pub enum PostTranscription {
    /// Words were recognised: clean them up if enabled, then inject.
    Proceed { transcript: String },
    /// The provider heard nothing usable: a benign no-op, nothing injected.
    SkipEmpty,
    /// Transcription failed: surface the error, inject nothing.
    Fail { error: AudioProcessorError },
}

/// The decision a tap at `now_ms` produces in phase `phase`.
pub open spec fn tap_decision_spec(phase: DictationPhase, now_ms: u64) -> TapDecision {
    match phase {
        DictationPhase::Idle => TapDecision::StartSession,
        DictationPhase::Listening { started_at_ms, path } => {
            if now_ms - started_at_ms < MIN_RECORDING_DURATION_MS {
                TapDecision::DiscardSession { path }
            } else {
                TapDecision::TranscribeSession {
                    path,
                    elapsed_ms: (now_ms - started_at_ms) as u64,
                }
            }
        },
    }
}

/// The phase a tap leaves the orchestrator in: a tap only ever starts the
/// idle → listening transition (completed by `session_started`) or ends a
/// session, so the phase after the decision is always idle.
pub open spec fn tap_step_spec(phase: DictationPhase, now_ms: u64) -> DictationPhase {
    DictationPhase::Idle
}

/// The decision a hold-cancel gesture produces in phase `phase`.
pub open spec fn cancel_decision_spec(phase: DictationPhase) -> CancelDecision {
    match phase {
        DictationPhase::Idle => CancelDecision::Ignore,
        DictationPhase::Listening { started_at_ms, path } => CancelDecision::DiscardSession {
            path,
        },
    }
}

/// How the transcription outcome settles: an empty transcript is benign,
/// every other failure is surfaced, and recognised words proceed.
pub open spec fn settle_transcription_spec(outcome: Result<String, AudioProcessorError>)
    -> PostTranscription {
    match outcome {
        Ok(transcript) => PostTranscription::Proceed { transcript },
        Err(AudioProcessorError::EmptyTranscript) => PostTranscription::SkipEmpty,
        Err(error) => PostTranscription::Fail { error },
    }
}

/// The text the injector receives: the cleaned-up reply only when post-
/// processing is enabled and cleanup actually succeeded; on a disabled
/// setting, a missing credential, or any other cleanup failure, the raw
/// transcript.
pub open spec fn injection_choice(
    transcript: String,
    processing_enabled: bool,
    cleaned: Option<Result<String, AudioProcessorError>>,
) -> String {
    if processing_enabled {
        match cleaned {
            Some(Ok(c)) => c,
            _ => transcript,
        }
    } else {
        transcript
    }
}

/// The state machine driving one dictation pipeline.
#[derive(Debug)]
pub struct DictationOrchestrator {
    pub phase: DictationPhase,
}

impl DictationOrchestrator {
    /// A listening orchestrator knows a clock value not after `now_ms`.
    pub open spec fn clock_reaches(self, now_ms: u64) -> bool {
        self.phase matches DictationPhase::Listening { started_at_ms, .. } ==> started_at_ms
            <= now_ms
    }

    pub fn new() -> (o: DictationOrchestrator)
        ensures
            o.phase is Idle,
    {
        DictationOrchestrator { phase: DictationPhase::Idle }
    }

    /// A double tap was confirmed at `now_ms`. Decides between starting a
    /// session and ending one; ending one further decides, by elapsed
    /// time, between discarding and transcribing.
    pub fn handle_alt_double_tap(&mut self, now_ms: u64) -> (d: TapDecision)
        requires
            old(self).clock_reaches(now_ms),
        ensures
            d == tap_decision_spec(old(self).phase, now_ms),
            final(self).phase == tap_step_spec(old(self).phase, now_ms),
    {
        let mut prev = DictationPhase::Idle;
        core::mem::swap(&mut prev, &mut self.phase);
        match prev {
            DictationPhase::Idle => TapDecision::StartSession,
            DictationPhase::Listening { started_at_ms, path } => {
                let elapsed_ms = now_ms - started_at_ms;
                if elapsed_ms < MIN_RECORDING_DURATION_MS {
                    TapDecision::DiscardSession { path }
                } else {
                    TapDecision::TranscribeSession { path, elapsed_ms }
                }
            },
        }
    }

    /// The recorder came up for the capture at `path`; the session clock
    /// starts at `now_ms`. Not called when the recorder failed to start:
    /// the orchestrator then simply stays idle, and no session artifact
    /// exists.
    pub fn session_started(&mut self, path: String, now_ms: u64)
        requires
            old(self).phase is Idle,
        ensures
            final(self).phase == (DictationPhase::Listening { started_at_ms: now_ms, path }),
    {
        self.phase = DictationPhase::Listening { started_at_ms: now_ms, path };
    }

    /// The hold-cancel gesture fired. Discards the running session, if any,
    /// independent of how long it has run.
    pub fn cancel_recording(&mut self) -> (d: CancelDecision)
        ensures
            d == cancel_decision_spec(old(self).phase),
            final(self).phase is Idle,
    {
        let mut prev = DictationPhase::Idle;
        core::mem::swap(&mut prev, &mut self.phase);
        match prev {
            DictationPhase::Idle => CancelDecision::Ignore,
            DictationPhase::Listening { started_at_ms: _, path } => {
                CancelDecision::DiscardSession { path }
            },
        }
    }
}

/// Settle the transcription outcome for a session that ran long enough.
pub fn settle_transcription(outcome: Result<String, AudioProcessorError>) -> (p: PostTranscription)
    ensures
        p == settle_transcription_spec(outcome),
{
    match outcome {
        Ok(transcript) => PostTranscription::Proceed { transcript },
        Err(error) => {
            if matches!(error, AudioProcessorError::EmptyTranscript) {
                PostTranscription::SkipEmpty
            } else {
                PostTranscription::Fail { error }
            }
        },
    }
}

/// Choose the text handed to the injector. `cleaned` is the cleanup
/// outcome, or `None` where cleanup was not attempted (the setting was off,
/// so the provider was never asked).
pub fn resolve_injection_text(
    transcript: String,
    processing_enabled: bool,
    cleaned: Option<Result<String, AudioProcessorError>>,
) -> (r: String)
    ensures
        r == injection_choice(transcript, processing_enabled, cleaned),
{
    if processing_enabled {
        match cleaned {
            Some(Ok(c)) => c,
            _ => transcript,
        }
    } else {
        transcript
    }
}

/// The tray tooltip for the current recording state.
pub fn tray_tooltip(is_recording: bool) -> (r: &'static str)
    ensures
        is_recording ==> r@ == "Air Keys - recording"@,
        !is_recording ==> r@ == "Air Keys - idle"@,
{
    if is_recording {
        "Air Keys - recording"
    } else {
        "Air Keys - idle"
    }
}

/// Where the recording window sits: horizontally centred on the monitor,
/// resting [`RECORDING_BOTTOM_OFFSET`] pixels above its bottom edge.
/// Positions and sizes are in physical pixels; the window is assumed to fit
/// the monitor, and the requires keep the sums inside `i32`.
pub fn recording_window_position(
    mon_x: i32,
    mon_y: i32,
    mon_w: u32,
    mon_h: u32,
    win_w: u32,
    win_h: u32,
) -> (pos: (i32, i32))
    requires
        win_w <= mon_w <= i32::MAX,
        win_h <= mon_h <= i32::MAX,
        i32::MIN <= mon_x + (mon_w - win_w) / 2 <= i32::MAX,
        i32::MIN <= mon_y + (mon_h - win_h) - RECORDING_BOTTOM_OFFSET <= i32::MAX,
    ensures
        pos.0 == mon_x + (mon_w - win_w) / 2,
        pos.1 == mon_y + (mon_h - win_h) - RECORDING_BOTTOM_OFFSET,
{
    let x = (mon_x as i64 + ((mon_w as i64 - win_w as i64) / 2)) as i32;
    let y = (mon_y as i64 + (mon_h as i64 - win_h as i64) - RECORDING_BOTTOM_OFFSET as i64) as i32;
    (x, y)
}

/// A session stopped by a tap in under the minimum duration is discarded:
/// its capture file is deleted and transcription is never attempted.
pub proof fn lemma_short_recording_is_discarded(started_at_ms: u64, path: String, now_ms: u64)
    requires
        started_at_ms <= now_ms,
        now_ms - started_at_ms < MIN_RECORDING_DURATION_MS,
    ensures
        tap_decision_spec(
            DictationPhase::Listening { started_at_ms, path },
            now_ms,
        ) == (TapDecision::DiscardSession { path }),
        tap_step_spec(DictationPhase::Listening { started_at_ms, path }, now_ms) is Idle,
{
}

/// A session that ran at least the minimum duration and transcribed to an
/// empty transcript ends benignly: the orchestrator is idle again and no
/// text is ever injected.
pub proof fn lemma_empty_transcript_is_benign(
    started_at_ms: u64,
    path: String,
    now_ms: u64,
    outcome: Result<String, AudioProcessorError>,
)
    requires
        started_at_ms <= now_ms,
        now_ms - started_at_ms >= MIN_RECORDING_DURATION_MS,
        outcome == Result::<String, AudioProcessorError>::Err(AudioProcessorError::EmptyTranscript),
    ensures
        tap_decision_spec(DictationPhase::Listening { started_at_ms, path }, now_ms)
            matches TapDecision::TranscribeSession { path: p, elapsed_ms } && p == path
            && elapsed_ms == now_ms - started_at_ms,
        tap_step_spec(DictationPhase::Listening { started_at_ms, path }, now_ms) is Idle,
        settle_transcription_spec(outcome) is SkipEmpty,
{
}

/// With post-processing disabled the injector receives exactly the raw
/// transcript, whatever the cleanup outcome may hold.
pub proof fn lemma_processing_disabled_injects_raw(
    transcript: String,
    cleaned: Option<Result<String, AudioProcessorError>>,
)
    ensures
        injection_choice(transcript, false, cleaned) == transcript,
{
}

/// Any cleanup failure — a missing credential as much as a failed request —
/// falls back to the raw transcript; so does a cleanup that was never
/// attempted.
pub proof fn lemma_cleanup_failure_injects_raw(
    transcript: String,
    cleaned: Option<Result<String, AudioProcessorError>>,
)
    requires
        !(cleaned matches Some(Ok(c))),
    ensures
        injection_choice(transcript, true, cleaned) == transcript,
{
}

/// A hold cancel during a session always discards it: the capture file is
/// deleted and transcription is never invoked.
pub proof fn lemma_hold_cancel_discards(started_at_ms: u64, path: String)
    ensures
        cancel_decision_spec(DictationPhase::Listening { started_at_ms, path })
            == (CancelDecision::DiscardSession { path }),
{
}

} // verus!
