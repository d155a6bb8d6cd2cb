//! Errors of the daemon API, and the classifier that turns a daemon's error
//! message into a typed error.
use vstd::prelude::*;

verus! {

/// Pattern of the message with which the daemon refuses to add a torrent that
/// it already holds; the group `id` captures the torrent's identifier.
pub const DUPLICATE_TORRENT_PATTERN: &'static str = r"Torrent already in session \((?P<id>[[:alnum:]]+)\).";

/// Name of the capture group of `DUPLICATE_TORRENT_PATTERN` that holds the id.
pub const DUPLICATE_TORRENT_ID_GROUP: &'static str = "id";

/// The text of the group `group` in the leftmost-first match of the regular
/// expression `pattern` in `text`; `None` when the pattern does not compile,
/// does not match, or the group takes no part in the match.
pub uninterp spec fn regex_group_capture(pattern: Seq<char>, group: Seq<char>, text: Seq<char>) -> Option<Seq<char>>;

/// The contents of an optional string, as characters.
pub open spec fn opt_text(o: Option<String>) -> Option<Seq<char>> {
    match o {
        Some(s) => Some(s@),
        None => None,
    }
}

/// Relies on `regex::Regex::new`, `regex::Regex::captures` and
/// `regex::Captures::name`: the text of a named group of the leftmost-first
/// match, which depends on the pattern, the group name and the text alone.
#[verifier::external_body]
fn group_capture(pattern: &str, group: &str, text: &str) -> (r: Option<String>)
    ensures
        opt_text(r) == regex_group_capture(pattern@, group@, text@),
{
    let re = regex::Regex::new(pattern).ok()?;
    let caps = re.captures(text)?;
    caps.name(group).map(|m| m.as_str().to_owned())
}

/// The identifier that a daemon message reports as already in session, if
/// the message is a duplicate-torrent refusal.
pub open spec fn duplicate_torrent_id(message: Seq<char>) -> Option<Seq<char>> {
    regex_group_capture(DUPLICATE_TORRENT_PATTERN@, DUPLICATE_TORRENT_ID_GROUP@, message)
}

/// An error reported by the daemon, classified by its message.
#[derive(Debug, PartialEq, Eq)]
pub enum DelugeError {
    /// The torrent is already in the session, under the given id.
    DuplicateTorrent(String),
    /// Any other message, kept verbatim.
    Other(String),
}

/// `e` is what a message classifies as, given the duplicate-torrent id that
/// the recognised pattern captured from it (if any).
pub open spec fn classified_as(e: DelugeError, message: Seq<char>, duplicate_id: Option<Seq<char>>) -> bool {
    match duplicate_id {
        Some(id) => e matches DelugeError::DuplicateTorrent(got) && got@ == id,
        None => e matches DelugeError::Other(got) && got@ == message,
    }
}

/// `e` is the classification of the daemon message `message`.
pub open spec fn is_classification_of(e: DelugeError, message: Seq<char>) -> bool {
    classified_as(e, message, duplicate_torrent_id(message))
}

/// Builds the typed error for `message` from what the duplicate-torrent
/// pattern captured from it: the captured id when there is one, otherwise
/// the message itself.
pub fn classify_capture(message: String, duplicate_id: Option<String>) -> (r: DelugeError)
    ensures
        classified_as(r, message@, opt_text(duplicate_id)),
{
    match duplicate_id {
        Some(id) => DelugeError::DuplicateTorrent(id),
        None => DelugeError::Other(message),
    }
}

/// Classifies a daemon error message. Every message classifies as exactly one
/// error; a message that no pattern recognises is kept verbatim.
pub fn classify(message: String) -> (r: DelugeError)
    ensures
        is_classification_of(r, message@),
{
    let duplicate_id = group_capture(DUPLICATE_TORRENT_PATTERN, DUPLICATE_TORRENT_ID_GROUP, message.as_str());
    classify_capture(message, duplicate_id)
}

impl From<String> for DelugeError {
    fn from(val: String) -> (r: Self)
        ensures
            is_classification_of(r, val@),
    {
        classify(val)
    }
}

impl vstd::std_specs::convert::FromSpecImpl<String> for DelugeError {
    /// What a message classifies as depends on a regular-expression match
    /// that has no closed form here; `from`'s own `ensures` states it.
    open spec fn obeys_from_spec() -> bool {
        false
    }

    open spec fn from_spec(v: String) -> DelugeError {
        arbitrary()
    }
}

/// The transport's error type, carried through opaquely.
#[verifier::external_type_specification]
#[verifier::external_body]
pub struct ExReqwestError(reqwest::Error);

/// Every way a call to the daemon can fail.
#[derive(Debug)]
pub enum DelugeApiError {
    /// The transport failed to send the request or to read the response.
    Reqwest(reqwest::Error),
    /// The response did not have the envelope's shape.
    Json,
    /// A call that must return a value returned none.
    EmptyResult,
    /// The daemon reported an error.
    Deluge(DelugeError),
    /// A number from the daemon does not fit the type that the call returns.
    TryInto(std::num::TryFromIntError),
    /// Request headers that are not ASCII text.
    IncorrectHeaderFormat,
}

/// `e` is the daemon-reported error that the message `message` classifies as.
pub open spec fn is_reported_error_of(e: DelugeApiError, message: Seq<char>) -> bool {
    e matches DelugeApiError::Deluge(inner) && is_classification_of(inner, message)
}

impl From<DelugeError> for DelugeApiError {
    fn from(val: DelugeError) -> (r: Self)
        ensures
            r == DelugeApiError::Deluge(val),
    {
        DelugeApiError::Deluge(val)
    }
}

impl vstd::std_specs::convert::FromSpecImpl<DelugeError> for DelugeApiError {
    open spec fn obeys_from_spec() -> bool {
        true
    }

    open spec fn from_spec(v: DelugeError) -> DelugeApiError {
        DelugeApiError::Deluge(v)
    }
}

impl From<String> for DelugeApiError {
    fn from(val: String) -> (r: Self)
        ensures
            is_reported_error_of(r, val@),
    {
        DelugeApiError::Deluge(classify(val))
    }
}

impl vstd::std_specs::convert::FromSpecImpl<String> for DelugeApiError {
    /// As for `DelugeError`, `from`'s own `ensures` states the result.
    open spec fn obeys_from_spec() -> bool {
        false
    }

    open spec fn from_spec(v: String) -> DelugeApiError {
        arbitrary()
    }
}

} // verus!
