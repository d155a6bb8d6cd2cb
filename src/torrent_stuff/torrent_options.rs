//! The options that a torrent can be added or updated with, and the set that
//! holds at most one option of each kind.
use std::collections::HashMap;

use vstd::prelude::*;

use crate::enum_map::{EnumMap, SerializableEnum};

verus! {

/// Download priority of one file of a torrent.
#[derive(Clone, Copy, Debug, PartialEq, Eq)]
pub enum TorrentPriorities {
    Skip,
    Low,
    Normal,
    High,
}

impl TorrentPriorities {
    /// The number by which the daemon knows the priority.
    pub open spec fn spec_wire_value(self) -> i8 {
        match self {
            TorrentPriorities::Skip => 0,
            TorrentPriorities::Low => 1,
            TorrentPriorities::Normal => 4,
            TorrentPriorities::High => 7,
        }
    }

    /// The number by which the daemon knows the priority.
    pub fn wire_value(&self) -> (r: i8)
        ensures
            r == self.spec_wire_value(),
    {
        match self {
            TorrentPriorities::Skip => 0,
            TorrentPriorities::Low => 1,
            TorrentPriorities::Normal => 4,
            TorrentPriorities::High => 7,
        }
    }
}

/// The daemon's numbers for a list of priorities, in order.
pub open spec fn wire_values(p: Seq<TorrentPriorities>) -> Seq<i8> {
    p.map_values(|x: TorrentPriorities| x.spec_wire_value())
}

/// A rate or ratio as the bit pattern of an IEEE 754 double-precision
/// number; it travels to the daemon as that number.
#[derive(Clone, Copy, Debug, PartialEq, Eq)]
pub struct FloatBits(pub u64);

/// The wire encoding of an option's payload.
#[derive(Debug)]
pub enum OptionValue {
    Bool(bool),
    Int(i64),
    Float(FloatBits),
    Text(String),
    Priorities(Vec<i8>),
    FileMap(HashMap<i32, String>),
}

/// What an `OptionValue` holds, with its text, lists and maps as values.
pub enum OptionValueModel {
    Bool(bool),
    Int(i64),
    Float(FloatBits),
    Text(Seq<char>),
    Priorities(Seq<i8>),
    FileMap(Map<i32, String>),
}

impl View for OptionValue {
    type V = OptionValueModel;

    open spec fn view(&self) -> OptionValueModel {
        match self {
            OptionValue::Bool(b) => OptionValueModel::Bool(*b),
            OptionValue::Int(n) => OptionValueModel::Int(*n),
            OptionValue::Float(f) => OptionValueModel::Float(*f),
            OptionValue::Text(s) => OptionValueModel::Text(s@),
            OptionValue::Priorities(p) => OptionValueModel::Priorities(p@),
            OptionValue::FileMap(m) => OptionValueModel::FileMap(m@),
        }
    }
}

/// An option of a torrent. Paths are held as UTF-8 text; rates and ratios
/// as the bits of a double-precision number.
#[derive(Debug)]
pub enum TorrentOption {
    AddPaused(bool),
    AutoManaged(bool),
    DownloadLocation(String),
    FilePriorities(Vec<TorrentPriorities>),
    MappedFiles(HashMap<i32, String>),
    MaxConnections(i64),
    MaxDownloadSpeed(FloatBits),
    MaxUploadSlots(i64),
    MaxUploadSpeed(FloatBits),
    MoveCompleted(bool),
    MoveCompletedPath(String),
    Name(String),
    Owner(String),
    PreAllocateStorage(bool),
    PrioritizeFirstLastPieces(bool),
    RemoveAtRatio(bool),
    SeedMode(bool),
    SequentialDownload(bool),
    Shared(bool),
    StopAtRatio(bool),
    StopRatio(FloatBits),
    SuperSeeding(bool),
}

/// Number of kinds of `TorrentOption`.
pub const TORRENT_OPTION_KINDS: usize = 22;

/// The key under which an option of kind `k` travels to the daemon.
pub open spec fn option_key(k: nat) -> Seq<char> {
    if k == 0 {
        "add_paused"@
    } else if k == 1 {
        "auto_managed"@
    } else if k == 2 {
        "download_location"@
    } else if k == 3 {
        "file_priorities"@
    } else if k == 4 {
        "mapped_files"@
    } else if k == 5 {
        "max_connections"@
    } else if k == 6 {
        "max_download_speed"@
    } else if k == 7 {
        "max_upload_slots"@
    } else if k == 8 {
        "max_upload_speed"@
    } else if k == 9 {
        "move_completed"@
    } else if k == 10 {
        "move_completed_path"@
    } else if k == 11 {
        "name"@
    } else if k == 12 {
        "owner"@
    } else if k == 13 {
        "pre_allocate_storage"@
    } else if k == 14 {
        "prioritize_first_last_pieces"@
    } else if k == 15 {
        "remove_at_ratio"@
    } else if k == 16 {
        "seed_mode"@
    } else if k == 17 {
        "sequential_download"@
    } else if k == 18 {
        "shared"@
    } else if k == 19 {
        "stop_at_ratio"@
    } else if k == 20 {
        "stop_ratio"@
    } else {
        "super_seeding"@
    }
}

/// Converts a list of priorities to the daemon's numbers.
fn priorities_wire_values(p: &Vec<TorrentPriorities>) -> (r: Vec<i8>)
    ensures
        r@ == wire_values(p@),
{
    let mut r: Vec<i8> = Vec::new();
    let mut i: usize = 0;
    while i < p.len()
        invariant
            i <= p@.len(),
            r@ == wire_values(p@.take(i as int)),
        decreases p@.len() - i,
    {
        proof {
            assert(p@.take(i + 1) =~= p@.take(i as int).push(p@[i as int]));
        }
        r.push(p[i].wire_value());
        i = i + 1;
    }
    proof {
        assert(p@.take(p@.len() as int) =~= p@);
    }
    r
}

impl SerializableEnum for TorrentOption {
    type V = OptionValue;

    open spec fn spec_kind_count() -> nat {
        TORRENT_OPTION_KINDS as nat
    }

    open spec fn spec_kind(&self) -> nat {
        match self {
            TorrentOption::AddPaused(_) => 0,
            TorrentOption::AutoManaged(_) => 1,
            TorrentOption::DownloadLocation(_) => 2,
            TorrentOption::FilePriorities(_) => 3,
            TorrentOption::MappedFiles(_) => 4,
            TorrentOption::MaxConnections(_) => 5,
            TorrentOption::MaxDownloadSpeed(_) => 6,
            TorrentOption::MaxUploadSlots(_) => 7,
            TorrentOption::MaxUploadSpeed(_) => 8,
            TorrentOption::MoveCompleted(_) => 9,
            TorrentOption::MoveCompletedPath(_) => 10,
            TorrentOption::Name(_) => 11,
            TorrentOption::Owner(_) => 12,
            TorrentOption::PreAllocateStorage(_) => 13,
            TorrentOption::PrioritizeFirstLastPieces(_) => 14,
            TorrentOption::RemoveAtRatio(_) => 15,
            TorrentOption::SeedMode(_) => 16,
            TorrentOption::SequentialDownload(_) => 17,
            TorrentOption::Shared(_) => 18,
            TorrentOption::StopAtRatio(_) => 19,
            TorrentOption::StopRatio(_) => 20,
            TorrentOption::SuperSeeding(_) => 21,
        }
    }

    open spec fn spec_key(kind: nat) -> Seq<char> {
        option_key(kind)
    }

    open spec fn spec_value(&self) -> OptionValueModel {
        match self {
            TorrentOption::AddPaused(v) => OptionValueModel::Bool(*v),
            TorrentOption::AutoManaged(v) => OptionValueModel::Bool(*v),
            TorrentOption::DownloadLocation(v) => OptionValueModel::Text(v@),
            TorrentOption::FilePriorities(v) => OptionValueModel::Priorities(wire_values(v@)),
            TorrentOption::MappedFiles(v) => OptionValueModel::FileMap(v@),
            TorrentOption::MaxConnections(v) => OptionValueModel::Int(*v),
            TorrentOption::MaxDownloadSpeed(v) => OptionValueModel::Float(*v),
            TorrentOption::MaxUploadSlots(v) => OptionValueModel::Int(*v),
            TorrentOption::MaxUploadSpeed(v) => OptionValueModel::Float(*v),
            TorrentOption::MoveCompleted(v) => OptionValueModel::Bool(*v),
            TorrentOption::MoveCompletedPath(v) => OptionValueModel::Text(v@),
            TorrentOption::Name(v) => OptionValueModel::Text(v@),
            TorrentOption::Owner(v) => OptionValueModel::Text(v@),
            TorrentOption::PreAllocateStorage(v) => OptionValueModel::Bool(*v),
            TorrentOption::PrioritizeFirstLastPieces(v) => OptionValueModel::Bool(*v),
            TorrentOption::RemoveAtRatio(v) => OptionValueModel::Bool(*v),
            TorrentOption::SeedMode(v) => OptionValueModel::Bool(*v),
            TorrentOption::SequentialDownload(v) => OptionValueModel::Bool(*v),
            TorrentOption::Shared(v) => OptionValueModel::Bool(*v),
            TorrentOption::StopAtRatio(v) => OptionValueModel::Bool(*v),
            TorrentOption::StopRatio(v) => OptionValueModel::Float(*v),
            TorrentOption::SuperSeeding(v) => OptionValueModel::Bool(*v),
        }
    }

    proof fn lemma_keys_distinct(k1: nat, k2: nat) {
        reveal_strlit("add_paused");
        reveal_strlit("auto_managed");
        reveal_strlit("download_location");
        reveal_strlit("file_priorities");
        reveal_strlit("mapped_files");
        reveal_strlit("max_connections");
        reveal_strlit("max_download_speed");
        reveal_strlit("max_upload_slots");
        reveal_strlit("max_upload_speed");
        reveal_strlit("move_completed");
        reveal_strlit("move_completed_path");
        reveal_strlit("name");
        reveal_strlit("owner");
        reveal_strlit("pre_allocate_storage");
        reveal_strlit("prioritize_first_last_pieces");
        reveal_strlit("remove_at_ratio");
        reveal_strlit("seed_mode");
        reveal_strlit("sequential_download");
        reveal_strlit("shared");
        reveal_strlit("stop_at_ratio");
        reveal_strlit("stop_ratio");
        reveal_strlit("super_seeding");
        let a = option_key(k1);
        let b = option_key(k2);
        // Keys of equal length already differ at one of these positions.
        assert(a.len() != b.len() || a[0] != b[0] || a[1] != b[1] || a[12] != b[12]);
    }

    proof fn lemma_kind_bound(&self) {
    }

    fn kind_count() -> (r: usize) {
        TORRENT_OPTION_KINDS
    }

    fn kind(&self) -> (r: usize) {
        match self {
            TorrentOption::AddPaused(_) => 0,
            TorrentOption::AutoManaged(_) => 1,
            TorrentOption::DownloadLocation(_) => 2,
            TorrentOption::FilePriorities(_) => 3,
            TorrentOption::MappedFiles(_) => 4,
            TorrentOption::MaxConnections(_) => 5,
            TorrentOption::MaxDownloadSpeed(_) => 6,
            TorrentOption::MaxUploadSlots(_) => 7,
            TorrentOption::MaxUploadSpeed(_) => 8,
            TorrentOption::MoveCompleted(_) => 9,
            TorrentOption::MoveCompletedPath(_) => 10,
            TorrentOption::Name(_) => 11,
            TorrentOption::Owner(_) => 12,
            TorrentOption::PreAllocateStorage(_) => 13,
            TorrentOption::PrioritizeFirstLastPieces(_) => 14,
            TorrentOption::RemoveAtRatio(_) => 15,
            TorrentOption::SeedMode(_) => 16,
            TorrentOption::SequentialDownload(_) => 17,
            TorrentOption::Shared(_) => 18,
            TorrentOption::StopAtRatio(_) => 19,
            TorrentOption::StopRatio(_) => 20,
            TorrentOption::SuperSeeding(_) => 21,
        }
    }

    /// The option's name in snake case, as the daemon knows it.
    fn get_key(&self) -> (r: String) {
        match self {
            TorrentOption::AddPaused(_) => String::from_str("add_paused"),
            TorrentOption::AutoManaged(_) => String::from_str("auto_managed"),
            TorrentOption::DownloadLocation(_) => String::from_str("download_location"),
            TorrentOption::FilePriorities(_) => String::from_str("file_priorities"),
            TorrentOption::MappedFiles(_) => String::from_str("mapped_files"),
            TorrentOption::MaxConnections(_) => String::from_str("max_connections"),
            TorrentOption::MaxDownloadSpeed(_) => String::from_str("max_download_speed"),
            TorrentOption::MaxUploadSlots(_) => String::from_str("max_upload_slots"),
            TorrentOption::MaxUploadSpeed(_) => String::from_str("max_upload_speed"),
            TorrentOption::MoveCompleted(_) => String::from_str("move_completed"),
            TorrentOption::MoveCompletedPath(_) => String::from_str("move_completed_path"),
            TorrentOption::Name(_) => String::from_str("name"),
            TorrentOption::Owner(_) => String::from_str("owner"),
            TorrentOption::PreAllocateStorage(_) => String::from_str("pre_allocate_storage"),
            TorrentOption::PrioritizeFirstLastPieces(_) => String::from_str("prioritize_first_last_pieces"),
            TorrentOption::RemoveAtRatio(_) => String::from_str("remove_at_ratio"),
            TorrentOption::SeedMode(_) => String::from_str("seed_mode"),
            TorrentOption::SequentialDownload(_) => String::from_str("sequential_download"),
            TorrentOption::Shared(_) => String::from_str("shared"),
            TorrentOption::StopAtRatio(_) => String::from_str("stop_at_ratio"),
            TorrentOption::StopRatio(_) => String::from_str("stop_ratio"),
            TorrentOption::SuperSeeding(_) => String::from_str("super_seeding"),
        }
    }

    /// The option's payload in its wire encoding.
    fn get_value(&self) -> (r: OptionValue) {
        match self {
            TorrentOption::AddPaused(v) => OptionValue::Bool(*v),
            TorrentOption::AutoManaged(v) => OptionValue::Bool(*v),
            TorrentOption::DownloadLocation(v) => OptionValue::Text(v.clone()),
            TorrentOption::FilePriorities(v) => OptionValue::Priorities(priorities_wire_values(v)),
            TorrentOption::MappedFiles(v) => OptionValue::FileMap(v.clone()),
            TorrentOption::MaxConnections(v) => OptionValue::Int(*v),
            TorrentOption::MaxDownloadSpeed(v) => OptionValue::Float(*v),
            TorrentOption::MaxUploadSlots(v) => OptionValue::Int(*v),
            TorrentOption::MaxUploadSpeed(v) => OptionValue::Float(*v),
            TorrentOption::MoveCompleted(v) => OptionValue::Bool(*v),
            TorrentOption::MoveCompletedPath(v) => OptionValue::Text(v.clone()),
            TorrentOption::Name(v) => OptionValue::Text(v.clone()),
            TorrentOption::Owner(v) => OptionValue::Text(v.clone()),
            TorrentOption::PreAllocateStorage(v) => OptionValue::Bool(*v),
            TorrentOption::PrioritizeFirstLastPieces(v) => OptionValue::Bool(*v),
            TorrentOption::RemoveAtRatio(v) => OptionValue::Bool(*v),
            TorrentOption::SeedMode(v) => OptionValue::Bool(*v),
            TorrentOption::SequentialDownload(v) => OptionValue::Bool(*v),
            TorrentOption::Shared(v) => OptionValue::Bool(*v),
            TorrentOption::StopAtRatio(v) => OptionValue::Bool(*v),
            TorrentOption::StopRatio(v) => OptionValue::Float(*v),
            TorrentOption::SuperSeeding(v) => OptionValue::Bool(*v),
        }
    }
}

/// A set of torrent options with at most one option of each kind.
pub type TorrentOptions = EnumMap<TorrentOption>;

} // verus!
