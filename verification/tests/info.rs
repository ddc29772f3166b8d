use mumu_cli::info::{info_from_keyed, info_from_single, info_map, slot_info};
use mumu_cli::{MumuError, PlayerInfo, SlotIndex};

fn player(index: &str, name: &str) -> PlayerInfo {
    PlayerInfo {
        index: index.to_string(),
        name: name.to_string(),
        is_main: true,
        hyperv_enabled: true,
        disk_size_bytes: Some(4067478846),
        created_timestamp: Some(1782734046011375),
        error_code: Some(0),
        ..PlayerInfo::default()
    }
}

#[test]
fn single_bare_object_is_keyed_by_its_index() {
    let map = info_from_single(player("0", "omaggviw@o1")).expect("bare object must map");
    assert_eq!(map.len(), 1);
    assert_eq!(map[&0].name, "omaggviw@o1");
}

#[test]
fn keyed_entries_map_by_numeric_key() {
    let map = info_from_keyed(vec![
        ("0".to_string(), player("0", "a")),
        ("3".to_string(), player("0", "b")),
    ]);
    assert_eq!(map.keys().copied().collect::<Vec<_>>(), vec![0, 3]);
    assert_eq!(map[&3].name, "b");
}

#[test]
fn keyed_entries_drop_unparseable_keys_and_later_entries_win() {
    let map = info_from_keyed(vec![
        ("x".to_string(), player("9", "dropped")),
        ("2".to_string(), player("2", "first")),
        ("+2".to_string(), player("2", "second")),
    ]);
    assert_eq!(map.len(), 1);
    assert_eq!(map[&2].name, "second");
}

#[test]
fn single_with_bad_index_is_an_error() {
    match info_from_single(player("abc", "x")) {
        Err(MumuError::NonZeroExit { code, stderr }) => {
            assert_eq!(code, None);
            assert_eq!(stderr, "info returned unparseable index \"abc\"");
        }
        other => panic!("unexpected {other:?}"),
    }
}

#[test]
fn slot_info_finds_or_reports() {
    let map = info_from_keyed(vec![("4".to_string(), player("4", "four"))]);
    assert_eq!(slot_info(map.clone(), SlotIndex::new(4)).unwrap().name, "four");
    match slot_info(map, SlotIndex::new(7)) {
        Err(MumuError::NonZeroExit { code: None, stderr }) => {
            assert_eq!(stderr, "no info returned for slot 7")
        }
        other => panic!("unexpected {other:?}"),
    }
}

#[test]
fn info_map_prefers_the_keyed_shape() {
    let keyed = vec![("1".to_string(), player("1", "keyed"))];
    let map = info_map(Some(keyed), Ok(player("7", "single"))).unwrap();
    assert_eq!(map.keys().copied().collect::<Vec<_>>(), vec![1]);
}

#[test]
fn info_map_falls_back_to_the_bare_object() {
    let map = info_map(None, Ok(player("7", "single"))).unwrap();
    assert_eq!(map[&7].name, "single");
}

#[test]
fn info_map_reports_undecodable_text() {
    let err = serde_json::from_str::<u8>("not json").unwrap_err();
    assert!(matches!(info_map(None, Err(err)), Err(MumuError::Json(_))));
}
