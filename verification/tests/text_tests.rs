use air_keys::recording::{fresh_recording_file_name, recording_file_name, UtcFields};
use air_keys::text::{str_is_blank, trimmed};

#[test]
fn trim_removes_surrounding_whitespace_only() {
    assert_eq!(trimmed("  hello world \t\n"), "hello world");
    assert_eq!(trimmed("no edges"), "no edges");
    assert_eq!(trimmed("   "), "");
    assert_eq!(trimmed(""), "");
    assert_eq!(trimmed("inner  gap "), "inner  gap");
}

#[test]
fn trim_knows_unicode_whitespace() {
    assert_eq!(trimmed("\u{3000}hi\u{2028}"), "hi");
    assert_eq!(trimmed("\u{00A0}\u{2009}x\u{205F}"), "x");
}

#[test]
fn blank_means_no_visible_character() {
    assert!(str_is_blank(""));
    assert!(str_is_blank(" \t\r\n"));
    assert!(str_is_blank("\u{00A0}\u{2000}\u{3000}"));
    assert!(!str_is_blank(" . "));
    assert!(!str_is_blank("a"));
}

#[test]
fn recording_name_formats_date_and_time() {
    let f = UtcFields { year: 2024, month: 3, day: 7, hour: 9, minute: 5, second: 30 };
    assert_eq!(recording_file_name(f), "air-keys-20240307-090530.wav");
}

#[test]
fn recording_name_pads_every_field() {
    let f = UtcFields { year: 33, month: 1, day: 1, hour: 0, minute: 0, second: 0 };
    assert_eq!(recording_file_name(f), "air-keys-00330101-000000.wav");
}

#[test]
fn recording_name_handles_wide_and_negative_years() {
    let f = UtcFields { year: 262143, month: 12, day: 31, hour: 23, minute: 59, second: 59 };
    assert_eq!(recording_file_name(f), "air-keys-2621431231-235959.wav");
    let f = UtcFields { year: -5, month: 6, day: 15, hour: 12, minute: 30, second: 45 };
    assert_eq!(recording_file_name(f), "air-keys--00050615-123045.wav");
}

#[test]
fn fresh_recording_name_has_the_expected_shape() {
    let name = fresh_recording_file_name();
    assert!(name.starts_with("air-keys-"));
    assert!(name.ends_with(".wav"));
    // Prefix, eight date digits, a dash, six time digits, extension.
    assert_eq!(name.len(), "air-keys-".len() + 8 + 1 + 6 + ".wav".len());
    let middle = &name["air-keys-".len()..name.len() - ".wav".len()];
    assert!(middle
        .chars()
        .enumerate()
        .all(|(i, c)| if i == 8 { c == '-' } else { c.is_ascii_digit() }));
}

#[test]
fn two_session_names_within_one_run_share_the_shape() {
    let a = fresh_recording_file_name();
    let b = fresh_recording_file_name();
    assert!(a.starts_with("air-keys-") && b.starts_with("air-keys-"));
    assert_eq!(a.len(), b.len());
}
