use std::collections::HashMap;

use deluge_rpc::enum_map::{EnumWrapper, SerializableEnum};
use deluge_rpc::torrent_stuff::{
    FloatBits, OptionValue, TorrentOption, TorrentOptions, TorrentPriorities,
};

fn wire_json(value: &OptionValue) -> serde_json::Value {
    match value {
        OptionValue::Bool(b) => serde_json::Value::Bool(*b),
        OptionValue::Int(n) => serde_json::Value::from(*n),
        OptionValue::Float(bits) => serde_json::Value::from(f64::from_bits(bits.0)),
        OptionValue::Text(s) => serde_json::Value::String(s.clone()),
        OptionValue::Priorities(p) => {
            serde_json::Value::Array(p.iter().map(|x| serde_json::Value::from(*x)).collect())
        }
        OptionValue::FileMap(m) => serde_json::Value::Object(
            m.iter()
                .map(|(k, v)| (k.to_string(), serde_json::Value::String(v.clone())))
                .collect(),
        ),
    }
}

fn options_json(options: &TorrentOptions) -> serde_json::Value {
    let mut map = serde_json::Map::new();
    for (key, value) in options.serialize() {
        map.insert(key, wire_json(&value));
    }
    serde_json::Value::Object(map)
}

#[test]
fn test() {
    let mut options = TorrentOptions::new();
    options.insert(TorrentOption::MaxConnections(32));
    options.insert(TorrentOption::MaxConnections(31));
    options.insert(TorrentOption::MoveCompletedPath("path".to_string()));

    assert_eq!(
        r#"{"max_connections":31,"move_completed_path":"path"}"#,
        format!("{}", options_json(&options))
    );
}

#[test]
fn insert_replaces_same_kind() {
    let mut options = TorrentOptions::new();
    assert!(options.insert(TorrentOption::MaxConnections(32)).is_none());
    assert!(matches!(
        options.insert(TorrentOption::MaxConnections(31)),
        Some(TorrentOption::MaxConnections(32))
    ));
    assert_eq!(options.len(), 1);
    assert!(matches!(
        options.get(TorrentOption::MaxConnections(0)),
        Some(TorrentOption::MaxConnections(31))
    ));
}

#[test]
fn serialized_keys_are_unique_per_kind() {
    let mut options = TorrentOptions::new();
    options.insert(TorrentOption::AddPaused(true));
    options.insert(TorrentOption::Name("a".to_string()));
    options.insert(TorrentOption::AddPaused(false));
    options.insert(TorrentOption::StopRatio(FloatBits(2.0f64.to_bits())));
    options.insert(TorrentOption::Name("b".to_string()));
    let entries = options.serialize();
    assert_eq!(entries.len(), 3);
    assert_eq!(options.len(), 3);
    let keys: Vec<&str> = entries.iter().map(|(k, _)| k.as_str()).collect();
    assert_eq!(keys, vec!["add_paused", "name", "stop_ratio"]);
    assert_eq!(
        format!("{}", options_json(&options)),
        r#"{"add_paused":false,"name":"b","stop_ratio":2.0}"#
    );
}

#[test]
fn remove_takes_stored_value_of_kind() {
    let mut options = TorrentOptions::new();
    options.insert(TorrentOption::Owner("me".to_string()));
    assert!(options.remove(TorrentOption::AutoManaged(true)).is_none());
    assert!(matches!(
        options.remove(TorrentOption::Owner(String::new())),
        Some(TorrentOption::Owner(ref o)) if o == "me"
    ));
    assert_eq!(options.len(), 0);
    assert!(options.get(TorrentOption::Owner(String::new())).is_none());
    assert!(options.serialize().is_empty());
}

#[test]
fn empty_set_serializes_to_empty_object() {
    let options = TorrentOptions::default();
    assert_eq!(format!("{}", options_json(&options)), "{}");
}

#[test]
fn option_keys_are_snake_case_names() {
    assert_eq!(TorrentOption::PrioritizeFirstLastPieces(true).get_key(), "prioritize_first_last_pieces");
    assert_eq!(TorrentOption::PreAllocateStorage(true).get_key(), "pre_allocate_storage");
    assert_eq!(TorrentOption::MaxUploadSpeed(FloatBits(0)).get_key(), "max_upload_speed");
    assert_eq!(TorrentOption::SuperSeeding(false).get_key(), "super_seeding");
    assert_eq!(TorrentOption::MappedFiles(HashMap::new()).get_key(), "mapped_files");
}

#[test]
fn priorities_travel_as_numbers() {
    let mut options = TorrentOptions::new();
    options.insert(TorrentOption::FilePriorities(vec![
        TorrentPriorities::Skip,
        TorrentPriorities::Low,
        TorrentPriorities::Normal,
        TorrentPriorities::High,
    ]));
    assert_eq!(format!("{}", options_json(&options)), r#"{"file_priorities":[0,1,4,7]}"#);
}

#[test]
fn mapped_files_travel_as_object() {
    let mut files = HashMap::new();
    files.insert(3, "a/b.txt".to_string());
    let mut options = TorrentOptions::new();
    options.insert(TorrentOption::MappedFiles(files));
    options.insert(TorrentOption::MaxDownloadSpeed(FloatBits((-1.0f64).to_bits())));
    assert_eq!(
        format!("{}", options_json(&options)),
        r#"{"mapped_files":{"3":"a/b.txt"},"max_download_speed":-1.0}"#
    );
}

#[test]
fn iteration_yields_values_in_kind_order() {
    let mut options = TorrentOptions::new();
    options.insert(TorrentOption::SeedMode(true));
    options.insert(TorrentOption::AddPaused(false));
    options.insert(TorrentOption::MaxUploadSlots(4));
    let mut it = options.iter();
    assert!(matches!(it.next(), Some(TorrentOption::AddPaused(false))));
    assert!(matches!(it.next(), Some(TorrentOption::MaxUploadSlots(4))));
    assert!(matches!(it.next(), Some(TorrentOption::SeedMode(true))));
    assert!(it.next().is_none());
    let mut owned = options.into_iter();
    assert!(matches!(owned.next(), Some(TorrentOption::AddPaused(false))));
    assert!(matches!(owned.next(), Some(TorrentOption::MaxUploadSlots(4))));
    assert!(matches!(owned.next(), Some(TorrentOption::SeedMode(true))));
    assert!(owned.next().is_none());
}

#[test]
fn priority_wire_values() {
    assert_eq!(TorrentPriorities::Skip.wire_value(), 0);
    assert_eq!(TorrentPriorities::Low.wire_value(), 1);
    assert_eq!(TorrentPriorities::Normal.wire_value(), 4);
    assert_eq!(TorrentPriorities::High.wire_value(), 7);
}

#[test]
fn enum_wrapper_gives_back_its_value() {
    let wrapped: EnumWrapper<TorrentOption> = TorrentOption::Shared(true).into();
    assert!(matches!(wrapped.get_ref(), TorrentOption::Shared(true)));
    assert!(matches!(wrapped.into_internal(), TorrentOption::Shared(true)));
}

#[test]
fn enum_wrapper_equality_is_by_kind() {
    let a = EnumWrapper(TorrentOption::MaxConnections(1));
    let b = EnumWrapper(TorrentOption::MaxConnections(2));
    let c = EnumWrapper(TorrentOption::MaxUploadSlots(1));
    assert!(a == b);
    assert!(a != c);
}
