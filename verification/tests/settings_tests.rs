use air_keys::settings::{
    classify_key_validation_status, prepare_api_key, CredentialStore, KeyValidation, SettingsState,
};

#[test]
fn fresh_store_holds_nothing() {
    let s = CredentialStore::new();
    assert_eq!(s.read_deepgram_key(), None);
    assert_eq!(s.read_gemini_key(), None);
    assert!(!s.read_processing_enabled());
    assert!(!s.read_logging_enabled());
}

#[test]
fn keys_are_saved_read_and_cleared_independently() {
    let mut s = CredentialStore::new();
    s.save_deepgram_key(String::from("dg-key-1"));
    s.save_gemini_key(String::from("gm-key-2"));
    assert_eq!(s.read_deepgram_key(), Some(String::from("dg-key-1")));
    assert_eq!(s.read_gemini_key(), Some(String::from("gm-key-2")));
    s.clear_deepgram_key();
    assert_eq!(s.read_deepgram_key(), None);
    assert_eq!(s.read_gemini_key(), Some(String::from("gm-key-2")));
    s.clear_gemini_key();
    assert_eq!(s.read_gemini_key(), None);
}

#[test]
fn switches_default_off_and_keep_their_last_value() {
    let mut s = CredentialStore::new();
    s.save_processing_enabled(true);
    assert!(s.read_processing_enabled());
    assert!(!s.read_logging_enabled());
    s.save_logging_enabled(true);
    s.save_processing_enabled(false);
    assert!(!s.read_processing_enabled());
    assert!(s.read_logging_enabled());
}

#[test]
fn saving_a_switch_leaves_credentials_alone() {
    let mut s = CredentialStore::new();
    s.save_deepgram_key(String::from("k"));
    s.save_processing_enabled(true);
    assert_eq!(s.read_deepgram_key(), Some(String::from("k")));
}

#[test]
fn settings_state_owns_the_store() {
    let mut store = CredentialStore::new();
    store.save_gemini_key(String::from("g"));
    let state = SettingsState::new(store);
    assert_eq!(state.store.read_gemini_key(), Some(String::from("g")));
}

#[test]
fn submitted_keys_are_trimmed() {
    assert_eq!(prepare_api_key("  key-123  \n"), Some(String::from("key-123")));
    assert_eq!(prepare_api_key("key-123"), Some(String::from("key-123")));
}

#[test]
fn blank_keys_are_refused() {
    assert_eq!(prepare_api_key(""), None);
    assert_eq!(prepare_api_key("   \t "), None);
    assert_eq!(prepare_api_key("\u{3000}\u{00A0}"), None);
}

#[test]
fn validation_statuses_classify_by_code() {
    assert_eq!(classify_key_validation_status(200), KeyValidation::Accepted);
    assert_eq!(classify_key_validation_status(204), KeyValidation::Accepted);
    assert_eq!(classify_key_validation_status(401), KeyValidation::RejectedKey);
    assert_eq!(classify_key_validation_status(403), KeyValidation::RejectedKey);
    assert_eq!(
        classify_key_validation_status(429),
        KeyValidation::ServiceFailure { status: 429 }
    );
    assert_eq!(
        classify_key_validation_status(500),
        KeyValidation::ServiceFailure { status: 500 }
    );
}
