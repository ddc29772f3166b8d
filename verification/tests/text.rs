use mumu_cli::text::{contains, decimal_string, parse_u32, trim};
use mumu_cli::{Idx, PlayerInfo, Slot, SlotIndex};

#[test]
fn decimal_rendering() {
    assert_eq!(decimal_string(0), "0");
    assert_eq!(decimal_string(10), "10");
    assert_eq!(decimal_string(u64::MAX), u64::MAX.to_string());
}

#[test]
fn parsing_follows_str_parse() {
    for s in ["0", "42", "+7", "007", "4294967295", "4294967296", "", "+", "-1", "1 ", " 1", "x", "١"] {
        assert_eq!(parse_u32(s), s.parse::<u32>().ok(), "on {s:?}");
    }
}

#[test]
fn decimal_then_parse_roundtrips() {
    for n in [0u32, 1, 9, 10, 99, 100, 65535, u32::MAX] {
        assert_eq!(parse_u32(&decimal_string(n as u64)), Some(n));
    }
}

#[test]
fn trimming_follows_str_trim() {
    for s in ["", "  device \n", "\u{3000}x\u{a0}", "\t\r\n", "a b", "offline\u{2028}"] {
        assert_eq!(trim(s), s.trim(), "on {s:?}");
    }
}

#[test]
fn substring_search() {
    assert!(contains("Performing Streamed Install\nSuccess\n", "Success"));
    assert!(!contains("Failure [INSTALL_FAILED]", "Success"));
    assert!(contains("abc", ""));
    assert!(!contains("ab", "abc"));
    assert!(contains("device offline", "offline"));
}

#[test]
fn slot_index_basics() {
    let i = SlotIndex::new(3);
    assert_eq!(i.get(), 3);
    assert_eq!(i.to_string(), "3");
    assert_eq!(i, Idx::<Slot>::from(3u32));
    assert!(SlotIndex::new(1) < SlotIndex::new(2));
    assert_eq!(
        SlotIndex::new(2).partial_cmp(&SlotIndex::new(2)),
        Some(std::cmp::Ordering::Equal)
    );
    assert_eq!(SlotIndex::new(9).cmp(&SlotIndex::new(3)), std::cmp::Ordering::Greater);
    let _marker = Slot::Marker;
    assert_eq!("12".parse::<SlotIndex>().unwrap(), SlotIndex::new(12));
    assert!("x".parse::<SlotIndex>().is_err());
    let j = i;
    assert_eq!(j.clone(), i);
}

#[test]
fn player_info_accessors() {
    let mut p = PlayerInfo::default();
    p.index = "5".to_string();
    p.is_process_started = true;
    assert_eq!(p.slot_index(), SlotIndex::new(5));
    assert!(p.is_running());
    assert!(!p.is_android_ready());
    p.index = "five".to_string();
    assert_eq!(p.slot_index(), SlotIndex::new(0));
}
