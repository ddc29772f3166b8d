//! Which VM slot(s) a command targets.
use vstd::prelude::*;

use crate::idx::SlotIndex;
use crate::text::{decimal, lemma_decimal_digits, parse_u32_spec, push_decimal, push_str};

verus! {

/// Selects which VM slot(s) a command targets.
#[derive(Debug, Clone)]
pub enum VmIndex {
    /// Every slot (`--vmindex all`).
    All,
    /// A single slot by index.
    One(SlotIndex),
    /// An explicit list of slots (`--vmindex 0,2,3`).
    Many(Vec<SlotIndex>),
}

/// The decimal renderings of `nums`, separated by commas.
pub open spec fn comma_joined(nums: Seq<u32>) -> Seq<char>
    decreases nums.len(),
{
    if nums.len() == 0 {
        Seq::empty()
    } else if nums.len() == 1 {
        decimal(nums[0] as nat)
    } else {
        comma_joined(nums.drop_last()) + seq![','] + decimal(nums.last() as nat)
    }
}

/// The raw numbers of a list of slot indices.
pub open spec fn raw_indices(v: Seq<SlotIndex>) -> Seq<u32> {
    v.map_values(|i: SlotIndex| i@)
}

impl VmIndex {
    /// The `--vmindex` argument that selects these slots.
    pub open spec fn arg_spec(&self) -> Seq<char> {
        match self {
            VmIndex::All => "all"@,
            VmIndex::One(i) => decimal(i@ as nat),
            VmIndex::Many(v) => comma_joined(raw_indices(v@)),
        }
    }

    /// Renders the `--vmindex` argument: `all`, one decimal index, or the
    /// decimal indices joined by commas.
    pub fn to_arg(&self) -> (r: String)
        ensures
            r@ == self.arg_spec(),
    {
        match self {
            VmIndex::All => {
                let mut s = String::new();
                push_str(&mut s, "all");
                proof {
                    reveal_strlit("all");
                }
                s
            },
            VmIndex::One(i) => {
                let mut s = String::new();
                push_decimal(&mut s, i.get() as u64);
                s
            },
            VmIndex::Many(v) => {
                let mut s = String::new();
                let mut k: usize = 0;
                while k < v.len()
                    invariant
                        0 <= k <= v@.len(),
                        s@ == comma_joined(raw_indices(v@).take(k as int)),
                    decreases v@.len() - k,
                {
                    let ghost nums = raw_indices(v@);
                    assert(nums.take(k + 1).drop_last() =~= nums.take(k as int));
                    if k > 0 {
                        push_str(&mut s, ",");
                        proof {
                            reveal_strlit(",");
                        }
                    } else {
                        assert(nums.take(k as int) =~= Seq::<u32>::empty());
                    }
                    push_decimal(&mut s, v[k].get() as u64);
                    k = k + 1;
                }
                assert(raw_indices(v@).take(k as int) =~= raw_indices(v@));
                s
            },
        }
    }
}

impl From<SlotIndex> for VmIndex {
    fn from(i: SlotIndex) -> (r: Self)
        ensures
            r == VmIndex::One(i),
    {
        VmIndex::One(i)
    }
}

impl vstd::std_specs::convert::FromSpecImpl<SlotIndex> for VmIndex {
    open spec fn obeys_from_spec() -> bool {
        true
    }

    open spec fn from_spec(i: SlotIndex) -> Self {
        VmIndex::One(i)
    }
}

impl From<Vec<SlotIndex>> for VmIndex {
    fn from(v: Vec<SlotIndex>) -> (r: Self)
        ensures
            r == VmIndex::Many(v),
    {
        VmIndex::Many(v)
    }
}

impl vstd::std_specs::convert::FromSpecImpl<Vec<SlotIndex>> for VmIndex {
    open spec fn obeys_from_spec() -> bool {
        true
    }

    open spec fn from_spec(v: Vec<SlotIndex>) -> Self {
        VmIndex::Many(v)
    }
}

/// The pieces of `s` between commas, as `str::split(',')` gives them.
pub open spec fn split_commas(s: Seq<char>) -> Seq<Seq<char>>
    decreases s.len(),
{
    if s.len() == 0 {
        seq![Seq::<char>::empty()]
    } else {
        let prev = split_commas(s.drop_last());
        if s.last() == ',' {
            prev.push(Seq::<char>::empty())
        } else {
            prev.update(prev.len() - 1, prev.last().push(s.last()))
        }
    }
}

proof fn lemma_split_nonempty(s: Seq<char>)
    ensures
        split_commas(s).len() > 0,
    decreases s.len(),
{
    if s.len() > 0 {
        lemma_split_nonempty(s.drop_last());
    }
}

/// Appending text without commas extends the last piece.
proof fn lemma_split_append_plain(a: Seq<char>, d: Seq<char>)
    requires
        forall|i: int| 0 <= i < d.len() ==> d[i] != ',',
    ensures
        split_commas(a + d) == split_commas(a).update(
            split_commas(a).len() - 1,
            split_commas(a).last() + d,
        ),
    decreases d.len(),
{
    lemma_split_nonempty(a);
    if d.len() == 0 {
        assert(a + d =~= a);
        assert(split_commas(a).last() + d =~= split_commas(a).last());
        assert(split_commas(a).update(split_commas(a).len() - 1, split_commas(a).last())
            =~= split_commas(a));
    } else {
        let d0 = d.drop_last();
        assert forall|i: int| 0 <= i < d0.len() implies d0[i] != ',' by {
            assert(d0[i] == d[i]);
        }
        lemma_split_append_plain(a, d0);
        assert((a + d).drop_last() =~= a + d0);
        assert((a + d).last() == d.last());
        assert(d[d.len() - 1] != ',');
        let prev = split_commas(a + d0);
        assert(prev.len() == split_commas(a).len());
        assert(prev.last() == split_commas(a).last() + d0);
        assert(split_commas(a + d) == prev.update(prev.len() - 1, prev.last().push(d.last())));
        assert((split_commas(a).last() + d0).push(d.last()) =~= split_commas(a).last() + d);
        assert(split_commas(a + d) =~= split_commas(a).update(
            split_commas(a).len() - 1,
            split_commas(a).last() + d,
        ));
    }
}

/// Splitting the `--vmindex` list at its commas and parsing each piece
/// gives back the slot numbers, in order.
pub proof fn lemma_comma_joined_splits_back(nums: Seq<u32>)
    requires
        nums.len() > 0,
    ensures
        split_commas(comma_joined(nums)).len() == nums.len(),
        forall|i: int|
            0 <= i < nums.len() ==> parse_u32_spec(#[trigger] split_commas(comma_joined(nums))[i])
                == Some(nums[i]),
    decreases nums.len(),
{
    let n = nums.last();
    lemma_decimal_digits(n as nat);
    crate::text::lemma_parse_decimal_roundtrip(n);
    let d = decimal(n as nat);
    assert forall|i: int| 0 <= i < d.len() implies d[i] != ',' by {
        assert(crate::text::is_digit(d[i]));
    }
    if nums.len() == 1 {
        lemma_split_append_plain(Seq::<char>::empty(), d);
        assert(Seq::<char>::empty() + d =~= d);
        assert(split_commas(Seq::<char>::empty()) =~= seq![Seq::<char>::empty()]);
        assert(Seq::<char>::empty() + d =~= d);
    } else {
        let prev = nums.drop_last();
        lemma_comma_joined_splits_back(prev);
        let a = comma_joined(prev) + seq![','];
        assert(a.drop_last() =~= comma_joined(prev));
        lemma_split_append_plain(a, d);
        assert(split_commas(a) == split_commas(comma_joined(prev)).push(Seq::<char>::empty()));
        assert(Seq::<char>::empty() + d =~= d);
        assert forall|i: int| 0 <= i < nums.len() implies parse_u32_spec(
            #[trigger] split_commas(comma_joined(nums))[i],
        ) == Some(nums[i]) by {
            if i < nums.len() - 1 {
                assert(nums[i] == prev[i]);
            }
        }
    }
}

impl VmIndex {
    /// The `--vmindex` argument of `VmIndex::Many` names exactly the listed
    /// slots: split at its commas, each piece parses back to the slot in
    /// the same position.
    pub proof fn lemma_many_arg_names_the_slots(v: Vec<SlotIndex>)
        requires
            v@.len() > 0,
        ensures
            split_commas(VmIndex::Many(v).arg_spec()).len() == v@.len(),
            forall|i: int|
                0 <= i < v@.len() ==> parse_u32_spec(
                    #[trigger] split_commas(VmIndex::Many(v).arg_spec())[i],
                ) == Some(v@[i]@),
    {
        lemma_comma_joined_splits_back(raw_indices(v@));
    }
}

impl VmIndex {
    /// `All` is written `all`, and a single slot is written as a number that
    /// parses back to that slot.
    pub proof fn lemma_all_and_one_args(i: SlotIndex)
        ensures
            VmIndex::All.arg_spec() == "all"@,
            parse_u32_spec(VmIndex::One(i).arg_spec()) == Some(i@),
    {
        crate::text::lemma_parse_decimal_roundtrip(i@);
    }
}

} // verus!
