use deluge_rpc::torrent_stuff::{absorb_duplicate, path_size_from_raw, ErrorValue, TorrentResponse};
use deluge_rpc::{DelugeApiError, DelugeError};

fn error_response<V>(message: &str) -> TorrentResponse<V> {
    TorrentResponse {
        result: None,
        id: 1,
        error: Some(ErrorValue { code: 1, message: message.to_string() }),
    }
}

#[test]
fn missing_result_is_empty_result_error() {
    let response: TorrentResponse<String> = TorrentResponse { result: None, id: 1, error: None };
    assert!(matches!(response.into_result(), Err(DelugeApiError::EmptyResult)));
}

#[test]
fn missing_result_is_success_for_empty_calls() {
    let response: TorrentResponse<()> = TorrentResponse { result: None, id: 1, error: None };
    assert!(matches!(response.into_empty_result(), Ok(())));
}

#[test]
fn present_result_is_returned() {
    let response = TorrentResponse { result: Some(42u16), id: 1, error: None };
    assert!(matches!(response.get_ref_result(), Ok(&42)));
    assert!(matches!(response.into_result(), Ok(42)));
}

#[test]
fn error_wins_over_result() {
    let response = TorrentResponse {
        result: Some(true),
        id: 1,
        error: Some(ErrorValue { code: 2, message: "no".to_string() }),
    };
    assert!(matches!(
        response.into_result(),
        Err(DelugeApiError::Deluge(DelugeError::Other(ref m))) if m == "no"
    ));
}

#[test]
fn magnet_add_absorbs_duplicate_torrent() {
    let response: TorrentResponse<String> = error_response("Torrent already in session (X).");
    assert_eq!(response.into_magnet_result().unwrap(), "X");
}

#[test]
fn magnet_add_returns_new_id() {
    let response = TorrentResponse { result: Some("abc123".to_string()), id: 1, error: None };
    assert_eq!(response.into_magnet_result().unwrap(), "abc123");
}

#[test]
fn magnet_add_propagates_other_errors() {
    let response: TorrentResponse<String> = error_response("Invalid magnet info");
    assert!(matches!(
        response.into_magnet_result(),
        Err(DelugeApiError::Deluge(DelugeError::Other(ref m))) if m == "Invalid magnet info"
    ));
}

#[test]
fn non_matching_error_keeps_message() {
    let message = "Path does not exist: /data/torrents";
    let response: TorrentResponse<bool> = error_response(message);
    assert!(matches!(
        response.into_result(),
        Err(DelugeApiError::Deluge(DelugeError::Other(ref m))) if m == message
    ));
    let response: TorrentResponse<bool> = error_response(message);
    assert!(matches!(
        response.get_ref_result(),
        Err(DelugeApiError::Deluge(DelugeError::Other(ref m))) if m == message
    ));
}

#[test]
fn empty_call_still_reports_errors() {
    let response: TorrentResponse<()> = error_response("Torrent already in session (Y).");
    assert!(matches!(
        response.into_empty_result(),
        Err(DelugeApiError::Deluge(DelugeError::DuplicateTorrent(ref id))) if id == "Y"
    ));
}

#[test]
fn absorb_duplicate_passes_other_outcomes() {
    assert_eq!(
        absorb_duplicate(Err(DelugeApiError::Deluge(DelugeError::DuplicateTorrent("a".to_string()))))
            .unwrap(),
        "a"
    );
    assert_eq!(absorb_duplicate(Ok("b".to_string())).unwrap(), "b");
    assert!(matches!(absorb_duplicate(Err(DelugeApiError::Json)), Err(DelugeApiError::Json)));
}

#[test]
fn path_size_reading() {
    assert!(matches!(path_size_from_raw(-1), Ok(None)));
    assert!(matches!(path_size_from_raw(0), Ok(Some(0))));
    assert!(matches!(path_size_from_raw(123456), Ok(Some(123456))));
    assert!(matches!(path_size_from_raw(-2), Err(DelugeApiError::TryInto(_))));
}
