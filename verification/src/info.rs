//! The slot map that `mumu info` answers.
//!
//! `info` prints an index-keyed JSON object when it covers several
//! instances, but one bare object when the result is exactly one instance
//! (also for `--vmindex all` on a PC with a single instance). Decoding the
//! JSON text is left to the caller; these functions turn either shape into
//! the slot-keyed map.
use std::collections::BTreeMap;
use vstd::prelude::*;

use crate::error::MumuError;
use crate::idx::SlotIndex;
use crate::player_info::PlayerInfo;
use crate::text::{decimal, parse_u32, parse_u32_spec, push_decimal, push_str};

verus! {

broadcast use {vstd::std_specs::btree::group_btree_axioms, vstd::laws_cmp::group_laws_cmp};

/// The map built from the entries of an index-keyed `info` answer, taken
/// in order: each entry whose key parses as a `u32` is inserted under that
/// number (a later entry replaces an earlier one with the same number), the
/// others are dropped.
pub open spec fn keyed_info_map(entries: Seq<(String, PlayerInfo)>) -> Map<u32, PlayerInfo>
    decreases entries.len(),
{
    if entries.len() == 0 {
        Map::empty()
    } else {
        let m = keyed_info_map(entries.drop_last());
        match parse_u32_spec(entries.last().0@) {
            Some(i) => m.insert(i, entries.last().1),
            None => m,
        }
    }
}

/// The number an entry's whole key names, if it parses as a `u32`.
pub open spec fn entry_number(e: (String, PlayerInfo)) -> Option<u32> {
    parse_u32_spec(e.0@)
}

/// Whether no entry after position `i` names the number `n`.
pub open spec fn last_naming(entries: Seq<(String, PlayerInfo)>, i: int, n: u32) -> bool {
    forall|j: int| i < j < entries.len() ==> entry_number(#[trigger] entries[j]) != Some(n)
}

/// The keyed map files every entry whose whole key parses as a number
/// under that number, unless a later entry names the same number, and it
/// has no other keys.
pub proof fn lemma_keyed_info_map(entries: Seq<(String, PlayerInfo)>)
    ensures
        forall|n: u32|
            #![trigger keyed_info_map(entries).contains_key(n)]
            keyed_info_map(entries).contains_key(n) ==> exists|i: int|
                0 <= i < entries.len() && #[trigger] entry_number(entries[i]) == Some(n),
        forall|i: int|
            0 <= i < entries.len() ==> match #[trigger] entry_number(entries[i]) {
                Some(n) => last_naming(entries, i, n) ==> keyed_info_map(entries).contains_key(n)
                    && keyed_info_map(entries)[n] == entries[i].1,
                None => true,
            },
    decreases entries.len(),
{
    if entries.len() > 0 {
        let prev = entries.drop_last();
        let last = entries.last();
        lemma_keyed_info_map(prev);
        let m = keyed_info_map(entries);
        let pm = keyed_info_map(prev);
        assert forall|n: u32| #[trigger] m.contains_key(n) implies exists|i: int|
            0 <= i < entries.len() && #[trigger] entry_number(entries[i]) == Some(n) by {
            if entry_number(last) == Some(n) {
                assert(entry_number(entries[entries.len() - 1]) == Some(n));
            } else {
                assert(pm.contains_key(n));
                let i = choose|i: int| 0 <= i < prev.len() && #[trigger] entry_number(prev[i]) == Some(n);
                assert(entries[i] == prev[i]);
            }
        }
        assert forall|i: int| 0 <= i < entries.len() implies match #[trigger] entry_number(
            entries[i],
        ) {
            Some(n) => last_naming(entries, i, n) ==> m.contains_key(n) && m[n] == entries[i].1,
            None => true,
        } by {
            if let Some(n) = entry_number(entries[i]) {
                if last_naming(entries, i, n) && i < entries.len() - 1 {
                    assert(entries[i] == prev[i]);
                    assert(entry_number(prev[i]) == Some(n));
                    assert(entry_number(entries[entries.len() - 1]) != Some(n));
                    assert(last_naming(prev, i, n)) by {
                        assert forall|j: int| i < j < prev.len() implies entry_number(
                            #[trigger] prev[j],
                        ) != Some(n) by {
                            assert(prev[j] == entries[j]);
                        }
                    }
                }
            }
        }
    }
}

/// The slot map of an index-keyed `info` answer, whose entries are given in
/// the order they were decoded.
pub fn info_from_keyed(entries: Vec<(String, PlayerInfo)>) -> (r: BTreeMap<u32, PlayerInfo>)
    ensures
        r@ == keyed_info_map(entries@),
{
    let ghost all = entries@;
    let total = entries.len();
    let mut rest = entries;
    let mut m: BTreeMap<u32, PlayerInfo> = BTreeMap::new();
    let mut done: usize = 0;
    while rest.len() > 0
        invariant
            done + rest@.len() == all.len(),
            all.len() == total,
            rest@ == all.skip(done as int),
            m@ == keyed_info_map(all.take(done as int)),
        decreases rest@.len(),
    {
        let (k, v) = rest.remove(0);
        proof {
            assert(all.take(done + 1).drop_last() =~= all.take(done as int));
            assert(all.take(done + 1).last() == all[done as int]);
            assert(all.skip(done + 1) =~= all.skip(done as int).drop_first());
        }
        match parse_u32(k.as_str()) {
            Some(i) => {
                m.insert(i, v);
            },
            None => {},
        }
        done = done + 1;
    }
    assert(all.take(done as int) =~= all);
    m
}

/// What `format!("{:?}", s)` writes for a string slice `s`: the quoted,
/// escaped text.
pub uninterp spec fn debug_string(s: Seq<char>) -> Seq<char>;

/// `<str as Debug>::fmt` from std, through `format!("{:?}", s)`. Claims only
/// that the result is [`debug_string`] of the text.
#[verifier::external_body]
fn debug_quote(s: &str) -> (r: String)
    ensures
        r@ == debug_string(s@),
{
    format!("{:?}", s)
}

/// The message of a bare `info` object whose index does not parse.
pub open spec fn unparseable_index_message(index: Seq<char>) -> Seq<char> {
    "info returned unparseable index "@ + debug_string(index)
}

/// The slot map of a bare single-object `info` answer: keyed by the
/// object's own `index`, or an error when that does not parse.
pub fn info_from_single(one: PlayerInfo) -> (r: Result<BTreeMap<u32, PlayerInfo>, MumuError>)
    ensures
        match parse_u32_spec(one.index@) {
            Some(i) => r matches Ok(m) && m@ == Map::<u32, PlayerInfo>::empty().insert(i, one),
            None => r matches Err(MumuError::NonZeroExit { code, stderr }) && code is None
                && stderr@ == unparseable_index_message(one.index@),
        },
{
    match parse_u32(one.index.as_str()) {
        Some(i) => {
            let mut m: BTreeMap<u32, PlayerInfo> = BTreeMap::new();
            m.insert(i, one);
            Ok(m)
        },
        None => {
            let mut msg = String::new();
            push_str(&mut msg, "info returned unparseable index ");
            let q = debug_quote(one.index.as_str());
            push_str(&mut msg, q.as_str());
            Err(MumuError::NonZeroExit { code: None, stderr: msg })
        },
    }
}

/// The slot map of an `info` answer, given what decoding its JSON text gave
/// in either shape: the index-keyed entries when the text is such a map,
/// else the bare single object, else the decoding error.
pub fn info_map(
    keyed: Option<Vec<(String, PlayerInfo)>>,
    single: Result<PlayerInfo, serde_json::Error>,
) -> (r: Result<BTreeMap<u32, PlayerInfo>, MumuError>)
    ensures
        match keyed {
            Some(entries) => r matches Ok(m) && m@ == keyed_info_map(entries@),
            None => match single {
                Ok(one) => match parse_u32_spec(one.index@) {
                    Some(i) => r matches Ok(m) && m@ == Map::<u32, PlayerInfo>::empty().insert(
                        i,
                        one,
                    ),
                    None => r matches Err(MumuError::NonZeroExit { code, stderr }) && code is None
                        && stderr@ == unparseable_index_message(one.index@),
                },
                Err(e) => r == Err::<BTreeMap<u32, PlayerInfo>, MumuError>(MumuError::Json(e)),
            },
        },
{
    match keyed {
        Some(entries) => Ok(info_from_keyed(entries)),
        None => match single {
            Ok(one) => info_from_single(one),
            Err(e) => Err(MumuError::Json(e)),
        },
    }
}

/// The message when the answer has no entry for the slot asked about.
pub open spec fn missing_slot_message(index: u32) -> Seq<char> {
    "no info returned for slot "@ + decimal(index as nat)
}

/// The entry of slot `index` in an `info` answer, or an error when the
/// answer has none.
pub fn slot_info(info: BTreeMap<u32, PlayerInfo>, index: SlotIndex) -> (r: Result<
    PlayerInfo,
    MumuError,
>)
    ensures
        info@.contains_key(index@) ==> r == Ok::<PlayerInfo, MumuError>(info@[index@]),
        !info@.contains_key(index@) ==> (r matches Err(MumuError::NonZeroExit { code, stderr })
            && code is None && stderr@ == missing_slot_message(index@)),
{
    let mut info = info;
    let k = index.get();
    match info.remove(&k) {
        Some(p) => Ok(p),
        None => {
            let mut msg = String::new();
            push_str(&mut msg, "no info returned for slot ");
            push_decimal(&mut msg, k as u64);
            Err(MumuError::NonZeroExit { code: None, stderr: msg })
        },
    }
}

} // verus!
