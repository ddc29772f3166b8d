//! What `mumu info` reports of one VM slot.
use vstd::prelude::*;

use crate::idx::SlotIndex;
use crate::text::{parse_u32, parse_u32_spec};

verus! {

/// Info returned by `mumu info` for a single VM slot.
#[derive(Debug, Clone, Default)]
pub struct PlayerInfo {
    /// Slot index as a string (as returned by mumu).
    pub index: String,
    pub name: String,
    pub is_process_started: bool,
    pub is_android_started: bool,
    pub is_main: bool,
    pub hyperv_enabled: bool,
    pub vt_enabled: Option<bool>,
    pub pid: Option<u32>,
    pub headless_pid: Option<u32>,
    pub adb_host_ip: Option<String>,
    pub adb_port: Option<u32>,
    pub player_state: Option<String>,
    pub disk_size_bytes: Option<u64>,
    pub created_timestamp: Option<u64>,
    pub launch_time: Option<u64>,
    pub error_code: Option<i32>,
    pub launch_err_code: Option<i32>,
    pub launch_err_msg: Option<String>,
}

/// The slot number that an `index` string names: its value when it parses
/// as a `u32`, else `0`.
pub open spec fn slot_number(index: Seq<char>) -> u32 {
    match parse_u32_spec(index) {
        Some(n) => n,
        None => 0,
    }
}

impl PlayerInfo {
    /// Parses `index` as a [`SlotIndex`]. Returns slot `0` if the string is
    /// malformed.
    pub fn slot_index(&self) -> (r: SlotIndex)
        ensures
            r@ == slot_number(self.index@),
    {
        match parse_u32(self.index.as_str()) {
            Some(n) => SlotIndex::new(n),
            None => SlotIndex::new(0),
        }
    }

    /// `true` when the MuMu process for this slot is running.
    pub fn is_running(&self) -> (r: bool)
        ensures
            r == self.is_process_started,
    {
        self.is_process_started
    }

    /// `true` when Android has finished booting inside the VM.
    pub fn is_android_ready(&self) -> (r: bool)
        ensures
            r == self.is_android_started,
    {
        self.is_android_started
    }
}

/// The slot number of an index is the number it parses to, and `0` when it
/// does not parse; the decimal index of a slot names that slot.
pub proof fn lemma_slot_number(index: Seq<char>, n: u32)
    ensures
        parse_u32_spec(index) == Some(n) ==> slot_number(index) == n,
        parse_u32_spec(index) is None ==> slot_number(index) == 0,
        slot_number(crate::text::decimal(n as nat)) == n,
{
    crate::text::lemma_parse_decimal_roundtrip(n);
}

} // verus!
