use air_keys::processing::{
    is_success_status, resolve_cleaned_text, select_transcript, short_circuit_blank,
    AudioProcessorError,
};

#[test]
fn first_alternative_with_content_wins() {
    let alts = vec![
        String::from("   "),
        String::from(""),
        String::from("hello world"),
        String::from("second choice"),
    ];
    assert_eq!(select_transcript(&alts), Ok(String::from("hello world")));
}

#[test]
fn all_blank_alternatives_are_an_empty_transcript() {
    let alts = vec![String::from(""), String::from(" \t\n"), String::from("\u{00A0}")];
    assert_eq!(
        select_transcript(&alts),
        Err(AudioProcessorError::EmptyTranscript)
    );
    assert_eq!(
        select_transcript(&Vec::new()),
        Err(AudioProcessorError::EmptyTranscript)
    );
}

#[test]
fn selected_transcript_keeps_its_own_whitespace() {
    let alts = vec![String::from("  kept as is  ")];
    assert_eq!(select_transcript(&alts), Ok(String::from("  kept as is  ")));
}

#[test]
fn cleaned_reply_is_trimmed() {
    let parts = vec![String::from("  polished words \n")];
    assert_eq!(
        resolve_cleaned_text("some raw words", &parts),
        Ok(String::from("polished words"))
    );
}

#[test]
fn overlong_cleaned_reply_is_distrusted() {
    // Seven characters of reply against two of transcript: past three times.
    let parts = vec![String::from("abcdefg")];
    assert_eq!(resolve_cleaned_text("hi", &parts), Ok(String::from("hi")));
    // Exactly three times the input is still accepted.
    let parts = vec![String::from("abcdef")];
    assert_eq!(resolve_cleaned_text("hi", &parts), Ok(String::from("abcdef")));
}

#[test]
fn reply_without_text_is_a_request_error() {
    let parts = vec![String::from("  "), String::from("")];
    match resolve_cleaned_text("raw", &parts) {
        Err(AudioProcessorError::Request(m)) => {
            assert_eq!(m, "cleanup reply held no text");
        }
        other => panic!("expected a request error, got {:?}", other),
    }
}

#[test]
fn blank_transcript_short_circuits_cleanup() {
    assert_eq!(short_circuit_blank(" \t \n"), Some(String::new()));
    assert_eq!(short_circuit_blank(""), Some(String::new()));
    assert_eq!(short_circuit_blank("  x  "), None);
}

#[test]
fn success_statuses_are_the_two_hundreds() {
    assert!(is_success_status(200));
    assert!(is_success_status(204));
    assert!(is_success_status(299));
    assert!(!is_success_status(199));
    assert!(!is_success_status(300));
    assert!(!is_success_status(401));
    assert!(!is_success_status(500));
}
