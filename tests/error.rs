use deluge_rpc::error::{classify, classify_capture};
use deluge_rpc::{DelugeApiError, DelugeError};

#[test]
fn parse_blank_string_error() {
    let test_str = String::new();
    assert!(match test_str.clone().into() {
        DelugeError::Other(info) => info == test_str,
        _ => false,
    });
}

#[test]
fn parse_duplicate_torrent_error() {
    let test_id = "asdf";
    let test_str = format!("Torrent already in session ({test_id}).");
    assert!(match test_str.into() {
        DelugeError::DuplicateTorrent(id) => id == test_id,
        _ => false,
    });
}

#[test]
fn classify_empty_message_is_other() {
    assert_eq!(classify(String::new()), DelugeError::Other(String::new()));
}

#[test]
fn classify_duplicate_torrent_message() {
    assert_eq!(
        classify("Torrent already in session (asdf).".to_string()),
        DelugeError::DuplicateTorrent("asdf".to_string())
    );
}

#[test]
fn classify_keeps_unrecognised_message_verbatim() {
    let message = "Torrent not found: 0123abcd";
    assert_eq!(classify(message.to_string()), DelugeError::Other(message.to_string()));
}

#[test]
fn classify_finds_duplicate_inside_longer_message() {
    assert_eq!(
        classify("error: Torrent already in session (0a1B2c). please retry".to_string()),
        DelugeError::DuplicateTorrent("0a1B2c".to_string())
    );
}

#[test]
fn classify_rejects_non_alphanumeric_id() {
    let message = "Torrent already in session (a-b).";
    assert_eq!(classify(message.to_string()), DelugeError::Other(message.to_string()));
}

#[test]
fn classify_rejects_empty_id() {
    let message = "Torrent already in session ().";
    assert_eq!(classify(message.to_string()), DelugeError::Other(message.to_string()));
}

#[test]
fn classify_capture_uses_captured_id() {
    assert_eq!(
        classify_capture("whatever".to_string(), Some("id1".to_string())),
        DelugeError::DuplicateTorrent("id1".to_string())
    );
    assert_eq!(
        classify_capture("whatever".to_string(), None),
        DelugeError::Other("whatever".to_string())
    );
}

#[test]
fn api_error_from_message_is_classified() {
    let err: DelugeApiError = "Torrent already in session (X).".to_string().into();
    assert!(matches!(
        err,
        DelugeApiError::Deluge(DelugeError::DuplicateTorrent(ref id)) if id == "X"
    ));
    let err: DelugeApiError = "boom".to_string().into();
    assert!(matches!(err, DelugeApiError::Deluge(DelugeError::Other(ref m)) if m == "boom"));
}

#[test]
fn api_error_from_deluge_error_wraps_it() {
    let err: DelugeApiError = DelugeError::Other("x".to_string()).into();
    assert!(matches!(err, DelugeApiError::Deluge(DelugeError::Other(ref m)) if m == "x"));
}
