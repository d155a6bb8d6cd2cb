//! Values exchanged with the daemon: the response envelope and its
//! interpretation, trackers, the torrent-file builder and account records.
use vstd::prelude::*;

mod torrent_options;

pub use torrent_options::{
    option_key, wire_values, FloatBits, OptionValue, OptionValueModel, TorrentOption, TorrentOptions,
    TorrentPriorities, TORRENT_OPTION_KINDS,
};

use crate::error::{
    classify, duplicate_torrent_id, is_classification_of, is_reported_error_of, DelugeApiError,
    DelugeError,
};

verus! {

/// The error object of a response envelope.
#[derive(Debug)]
pub struct ErrorValue {
    pub code: usize,
    pub message: String,
}

impl From<ErrorValue> for DelugeError {
    fn from(e: ErrorValue) -> (r: Self)
        ensures
            is_classification_of(r, e.message@),
    {
        classify(e.message)
    }
}

impl vstd::std_specs::convert::FromSpecImpl<ErrorValue> for DelugeError {
    /// The classification goes through a regular-expression match that has
    /// no closed form here; `from`'s own `ensures` states it.
    open spec fn obeys_from_spec() -> bool {
        false
    }

    open spec fn from_spec(v: ErrorValue) -> DelugeError {
        arbitrary()
    }
}

/// A response envelope `{result, error, id}` as the daemon sends it.
#[derive(Debug)]
pub struct TorrentResponse<V> {
    pub result: Option<V>,
    pub id: usize,
    pub error: Option<ErrorValue>,
}

impl<V> TorrentResponse<V> {
    /// `r` is how a call that must return a value reads this envelope: the
    /// classified error when one is present, otherwise the result, and
    /// `EmptyResult` when there is none.
    pub open spec fn is_value_outcome(&self, r: Result<V, DelugeApiError>) -> bool {
        match self.error {
            Some(err) => r matches Err(e) && is_reported_error_of(e, err.message@),
            None => match self.result {
                Some(v) => r == Ok::<V, DelugeApiError>(v),
                None => r matches Err(DelugeApiError::EmptyResult),
            },
        }
    }

    /// Reads the envelope of a call that must return a value.
    pub fn into_result(self) -> (r: Result<V, DelugeApiError>)
        ensures
            self.is_value_outcome(r),
    {
        match self.error {
            Some(err) => Err(DelugeApiError::from(err.message)),
            None => match self.result {
                Some(v) => Ok(v),
                None => Err(DelugeApiError::EmptyResult),
            },
        }
    }

    /// Reads the envelope as `into_result` does, without consuming it.
    pub fn get_ref_result(&self) -> (r: Result<&V, DelugeApiError>)
        ensures
            match self.error {
                Some(err) => r matches Err(e) && is_reported_error_of(e, err.message@),
                None => match self.result {
                    Some(v) => r matches Ok(got) && *got == v,
                    None => r matches Err(DelugeApiError::EmptyResult),
                },
            },
    {
        match &self.error {
            Some(err) => Err(DelugeApiError::from(err.message.clone())),
            None => match &self.result {
                Some(v) => Ok(v),
                None => Err(DelugeApiError::EmptyResult),
            },
        }
    }
}

impl TorrentResponse<()> {
    /// Reads the envelope of a call whose success carries no value: a missing
    /// result is success, a reported error is still classified and returned.
    pub fn into_empty_result(self) -> (r: Result<(), DelugeApiError>)
        ensures
            match self.error {
                Some(err) => r matches Err(e) && is_reported_error_of(e, err.message@),
                None => r is Ok,
            },
    {
        let out = self.into_result();
        match out {
            Ok(_) => Ok(()),
            Err(err) => match err {
                DelugeApiError::EmptyResult => Ok(()),
                _ => Err(err),
            },
        }
    }
}

impl TorrentResponse<String> {
    /// Reads the envelope of a magnet-link add: the daemon's refusal of a
    /// torrent that it already holds is success, with that torrent's id.
    pub fn into_magnet_result(self) -> (r: Result<String, DelugeApiError>)
        ensures
            match self.error {
                Some(err) => match duplicate_torrent_id(err.message@) {
                    Some(id) => r matches Ok(got) && got@ == id,
                    None => r matches Err(e) && is_reported_error_of(e, err.message@),
                },
                None => match self.result {
                    Some(v) => r == Ok::<String, DelugeApiError>(v),
                    None => r matches Err(DelugeApiError::EmptyResult),
                },
            },
    {
        absorb_duplicate(self.into_result())
    }
}

/// Turns a duplicate-torrent refusal into success with the reported id;
/// every other outcome passes through unchanged.
pub fn absorb_duplicate(out: Result<String, DelugeApiError>) -> (r: Result<String, DelugeApiError>)
    ensures
        match out {
            Err(DelugeApiError::Deluge(DelugeError::DuplicateTorrent(id))) => r == Ok::<String, DelugeApiError>(id),
            _ => r == out,
        },
{
    match out {
        Err(DelugeApiError::Deluge(DelugeError::DuplicateTorrent(id))) => Ok(id),
        _ => out,
    }
}

/// Reads the daemon's answer to a path-size query: `-1` means that the size
/// is unknown; any other value is a size, which must be non-negative.
pub fn path_size_from_raw(raw: i64) -> (r: Result<Option<usize>, DelugeApiError>)
    ensures
        raw == -1 ==> r == Ok::<Option<usize>, DelugeApiError>(None),
        0 <= raw <= usize::MAX ==> r == Ok::<Option<usize>, DelugeApiError>(Some(raw as usize)),
        raw < -1 || raw > usize::MAX ==> r matches Err(DelugeApiError::TryInto(_)),
{
    if raw == -1 {
        Ok(None)
    } else {
        match usize::try_from(raw) {
            Ok(size) => Ok(Some(size)),
            Err(e) => Err(DelugeApiError::TryInto(e)),
        }
    }
}

/// A tracker of a torrent: its announce URL and its tier.
#[derive(Debug)]
pub struct TorrentTracker {
    pub url: String,
    pub tier: usize,
}

/// Collects the settings of a torrent file that the daemon is to create.
/// Paths are held as UTF-8 text.
#[derive(Debug)]
pub struct TorrentBuilder {
    path: String,
    tracker: TorrentTracker,
    piece_length: usize,
    comment: Option<String>,
    target: Option<String>,
    webseeds: Option<Vec<String>>,
    private: Option<bool>,
    created_by: Option<String>,
    trackers: Option<Vec<String>>,
}

/// The settings of a torrent file that the daemon is to create, in the
/// order in which the daemon takes them.
#[derive(Debug)]
pub struct Torrent {
    pub path: String,
    pub tracker: TorrentTracker,
    pub piece_length: usize,
    pub comment: Option<String>,
    pub target: Option<String>,
    pub webseeds: Option<Vec<String>>,
    pub private: Option<bool>,
    pub created_by: Option<String>,
    pub trackers: Option<Vec<String>>,
}

impl TorrentBuilder {
    /// The settings that `build` hands out.
    pub closed spec fn spec_torrent(&self) -> Torrent {
        Torrent {
            path: self.path,
            tracker: self.tracker,
            piece_length: self.piece_length,
            comment: self.comment,
            target: self.target,
            webseeds: self.webseeds,
            private: self.private,
            created_by: self.created_by,
            trackers: self.trackers,
        }
    }

    /// A builder with the required settings, and none of the optional ones.
    pub fn new(path: String, tracker: TorrentTracker, piece_length: usize) -> (r: Self)
        ensures
            r.spec_torrent() == (Torrent {
                path,
                tracker,
                piece_length,
                comment: None,
                target: None,
                webseeds: None,
                private: None,
                created_by: None,
                trackers: None,
            }),
    {
        TorrentBuilder {
            path,
            tracker,
            piece_length,
            comment: None,
            target: None,
            webseeds: None,
            private: None,
            created_by: None,
            trackers: None,
        }
    }

    pub fn with_comment(&mut self, comment: String) -> (r: &mut Self)
        ensures
            r.spec_torrent() == (Torrent { comment: Some(comment), ..old(self).spec_torrent() }),
            *final(self) == *final(r),
    {
        self.comment = Some(comment);
        self
    }

    pub fn with_target(&mut self, target: String) -> (r: &mut Self)
        ensures
            r.spec_torrent() == (Torrent { target: Some(target), ..old(self).spec_torrent() }),
            *final(self) == *final(r),
    {
        self.target = Some(target);
        self
    }

    pub fn with_webseeds(&mut self, webseeds: Vec<String>) -> (r: &mut Self)
        ensures
            r.spec_torrent() == (Torrent { webseeds: Some(webseeds), ..old(self).spec_torrent() }),
            *final(self) == *final(r),
    {
        self.webseeds = Some(webseeds);
        self
    }

    pub fn with_author(&mut self, author: String) -> (r: &mut Self)
        ensures
            r.spec_torrent() == (Torrent { created_by: Some(author), ..old(self).spec_torrent() }),
            *final(self) == *final(r),
    {
        self.created_by = Some(author);
        self
    }

    pub fn with_trackers(&mut self, trackers: Vec<String>) -> (r: &mut Self)
        ensures
            r.spec_torrent() == (Torrent { trackers: Some(trackers), ..old(self).spec_torrent() }),
            *final(self) == *final(r),
    {
        self.trackers = Some(trackers);
        self
    }

    /// Marks the torrent private or public.
    pub fn private(&mut self, enable: bool) -> (r: &mut Self)
        ensures
            r.spec_torrent() == (Torrent { private: Some(enable), ..old(self).spec_torrent() }),
            *final(self) == *final(r),
    {
        self.private = Some(enable);
        self
    }

    /// The collected settings.
    pub fn build(self) -> (r: Torrent)
        ensures
            r == self.spec_torrent(),
    {
        Torrent {
            path: self.path,
            tracker: self.tracker,
            piece_length: self.piece_length,
            comment: self.comment,
            target: self.target,
            webseeds: self.webseeds,
            private: self.private,
            created_by: self.created_by,
            trackers: self.trackers,
        }
    }
}

/// An account of the daemon, as listed by it.
#[derive(Debug)]
pub struct Account {
    pub username: String,
    pub password: String,
    pub authlevel: String,
    pub authlevel_int: Option<usize>,
}

/// A daemon host known to the web interface.
#[derive(Debug)]
pub struct Host {
    pub host_id: String,
    pub hostname: String,
    pub port: usize,
    pub username: String,
}

} // verus!
