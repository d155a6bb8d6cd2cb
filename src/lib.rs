//! Client-side request/response layer for the JSON-RPC control API of a
//! torrent daemon: the request envelope builder, the response interpreter,
//! the classifier of daemon error messages and the per-kind option set.
pub mod deluge_interface;
pub mod enum_map;
pub mod error;
pub mod torrent_stuff;

pub use error::{DelugeApiError, DelugeError};

