use air_keys::orchestrator::{
    recording_window_position, resolve_injection_text, settle_transcription, CancelDecision,
    DictationOrchestrator, PostTranscription, TapDecision,
};
use air_keys::processing::AudioProcessorError;

#[test]
fn tap_while_idle_asks_for_a_session() {
    let mut o = DictationOrchestrator::new();
    assert_eq!(o.handle_alt_double_tap(10), TapDecision::StartSession);
    // Still idle until the recorder actually came up.
    assert_eq!(o.handle_alt_double_tap(20), TapDecision::StartSession);
}

#[test]
fn short_recording_is_discarded_without_transcription() {
    let mut o = DictationOrchestrator::new();
    assert_eq!(o.handle_alt_double_tap(0), TapDecision::StartSession);
    o.session_started(String::from("a.wav"), 1000);
    // 499 ms elapsed: one below the minimum duration.
    assert_eq!(
        o.handle_alt_double_tap(1499),
        TapDecision::DiscardSession { path: String::from("a.wav") }
    );
    // Back to idle.
    assert_eq!(o.handle_alt_double_tap(1600), TapDecision::StartSession);
}

#[test]
fn long_enough_recording_is_transcribed() {
    let mut o = DictationOrchestrator::new();
    o.session_started(String::from("b.wav"), 1000);
    assert_eq!(
        o.handle_alt_double_tap(1500),
        TapDecision::TranscribeSession { path: String::from("b.wav"), elapsed_ms: 500 }
    );
}

#[test]
fn empty_transcript_ends_benignly_without_injection() {
    let mut o = DictationOrchestrator::new();
    o.session_started(String::from("c.wav"), 0);
    assert!(matches!(
        o.handle_alt_double_tap(700),
        TapDecision::TranscribeSession { .. }
    ));
    let settled = settle_transcription(Err(AudioProcessorError::EmptyTranscript));
    assert_eq!(settled, PostTranscription::SkipEmpty);
    // The orchestrator is idle again for the next gesture.
    assert_eq!(o.handle_alt_double_tap(2000), TapDecision::StartSession);
}

#[test]
fn recognised_words_proceed_and_failures_surface() {
    assert_eq!(
        settle_transcription(Ok(String::from("hello"))),
        PostTranscription::Proceed { transcript: String::from("hello") }
    );
    assert_eq!(
        settle_transcription(Err(AudioProcessorError::MissingApiKey)),
        PostTranscription::Fail { error: AudioProcessorError::MissingApiKey }
    );
    assert_eq!(
        settle_transcription(Err(AudioProcessorError::Request(String::from("boom")))),
        PostTranscription::Fail { error: AudioProcessorError::Request(String::from("boom")) }
    );
}

#[test]
fn processing_disabled_injects_raw_transcript() {
    let r = resolve_injection_text(
        String::from("raw words"),
        false,
        Some(Ok(String::from("polished words"))),
    );
    assert_eq!(r, "raw words");
    let r = resolve_injection_text(String::from("raw words"), false, None);
    assert_eq!(r, "raw words");
}

#[test]
fn cleanup_success_injects_cleaned_text() {
    let r = resolve_injection_text(
        String::from("raw words"),
        true,
        Some(Ok(String::from("polished words"))),
    );
    assert_eq!(r, "polished words");
}

#[test]
fn missing_cleanup_credential_falls_back_to_raw() {
    let r = resolve_injection_text(
        String::from("raw words"),
        true,
        Some(Err(AudioProcessorError::MissingGeminiApiKey)),
    );
    assert_eq!(r, "raw words");
}

#[test]
fn failed_cleanup_falls_back_to_raw() {
    let r = resolve_injection_text(
        String::from("raw words"),
        true,
        Some(Err(AudioProcessorError::Request(String::from("status 500")))),
    );
    assert_eq!(r, "raw words");
}

#[test]
fn hold_cancel_discards_the_running_session() {
    let mut o = DictationOrchestrator::new();
    o.session_started(String::from("d.wav"), 0);
    // Independent of elapsed time, and never a transcription.
    assert_eq!(
        o.cancel_recording(),
        CancelDecision::DiscardSession { path: String::from("d.wav") }
    );
    assert_eq!(o.cancel_recording(), CancelDecision::Ignore);
}

#[test]
fn hold_cancel_while_idle_does_nothing() {
    let mut o = DictationOrchestrator::new();
    assert_eq!(o.cancel_recording(), CancelDecision::Ignore);
    assert_eq!(o.handle_alt_double_tap(5), TapDecision::StartSession);
}

#[test]
fn window_rests_centred_above_the_bottom_edge() {
    // A 1920x1080 monitor at the origin, a 400x120 window.
    let (x, y) = recording_window_position(0, 0, 1920, 1080, 400, 120);
    assert_eq!(x, (1920 - 400) / 2);
    assert_eq!(y, 1080 - 120 - 72);
    // A second monitor to the left of the primary one.
    let (x, y) = recording_window_position(-1920, 0, 1920, 1080, 400, 120);
    assert_eq!(x, -1920 + (1920 - 400) / 2);
    assert_eq!(y, 1080 - 120 - 72);
}

#[test]
fn tray_tooltip_names_the_state() {
    assert_eq!(air_keys::orchestrator::tray_tooltip(true), "Air Keys - recording");
    assert_eq!(air_keys::orchestrator::tray_tooltip(false), "Air Keys - idle");
}
