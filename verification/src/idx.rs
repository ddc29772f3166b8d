//! Typed `u32` indices.
use std::cmp::Ordering;
use std::hash::{Hash, Hasher};
use vstd::prelude::*;
use vstd::std_specs::cmp::PartialOrdSpecImpl;

use crate::text::{decimal, decimal_string, parse_u32_spec};

verus! {

/// Marker for MuMu VM slot indices. See [`SlotIndex`]. It only ever stands
/// as a type parameter.
#[derive(Clone, Copy, PartialEq, Eq, PartialOrd, Ord, Hash, Debug)]
pub enum Slot {
    /// The one value of the marker; nothing uses it.
    Marker,
}

/// A MuMu VM slot index. The only way slot numbers enter or leave the API.
pub type SlotIndex = Idx<Slot>;

/// A typed `u32` index. `T` is a phantom marker so that indices into
/// different spaces are distinct types and cannot be mixed.
#[derive(Ord, Debug)]
pub struct Idx<T>(u32, std::marker::PhantomData<T>);

impl<T> View for Idx<T> {
    type V = u32;

    /// The raw number.
    closed spec fn view(&self) -> u32 {
        self.0
    }
}

impl<T> Idx<T> {
    pub fn new(raw: u32) -> (r: Self)
        ensures
            r@ == raw,
    {
        Idx(raw, std::marker::PhantomData)
    }

    /// The raw number, for wire formats and display only.
    pub fn get(self) -> (r: u32)
        ensures
            r == self@,
    {
        self.0
    }

    /// The decimal rendering of the raw number, as `Display` writes it.
    pub fn to_string(&self) -> (r: String)
        ensures
            r@ == decimal(self@ as nat),
    {
        decimal_string(self.0 as u64)
    }
}

impl<T> Clone for Idx<T> {
    fn clone(&self) -> (r: Self)
        ensures
            r == *self,
    {
        *self
    }
}

impl<T> Copy for Idx<T> {

}

impl<T> PartialEq for Idx<T> {
    fn eq(&self, other: &Self) -> (r: bool)
        ensures
            r == (self@ == other@),
    {
        self.0 == other.0
    }
}

impl<T> vstd::std_specs::cmp::PartialEqSpecImpl for Idx<T> {
    open spec fn obeys_eq_spec() -> bool {
        true
    }

    open spec fn eq_spec(&self, other: &Self) -> bool {
        self@ == other@
    }
}

impl<T> Eq for Idx<T> {

}

/// The order of two raw numbers.
pub open spec fn order_of(a: u32, b: u32) -> Ordering {
    if a < b {
        Ordering::Less
    } else if a == b {
        Ordering::Equal
    } else {
        Ordering::Greater
    }
}

impl<T> PartialOrd for Idx<T> {
    fn partial_cmp(&self, other: &Self) -> (r: Option<Ordering>)
        ensures
            r == Some(order_of(self@, other@)),
    {
        if self.0 < other.0 {
            Some(Ordering::Less)
        } else if self.0 == other.0 {
            Some(Ordering::Equal)
        } else {
            Some(Ordering::Greater)
        }
    }
}

impl<T> PartialOrdSpecImpl for Idx<T> {
    open spec fn obeys_partial_cmp_spec() -> bool {
        true
    }

    open spec fn partial_cmp_spec(&self, other: &Self) -> Option<Ordering> {
        Some(order_of(self@, other@))
    }
}

/// `<u32 as Hash>::hash` from std. Nothing is stated of what it feeds the
/// hasher: that rests on the hasher.
#[verifier::external_body]
fn hash_u32<H: Hasher>(v: u32, state: &mut H) {
    v.hash(state);
}

impl<T> Hash for Idx<T> {
    fn hash<H: Hasher>(&self, state: &mut H) {
        hash_u32(self.0, state);
    }
}

impl<T> From<u32> for Idx<T> {
    fn from(raw: u32) -> (r: Self)
        ensures
            r@ == raw,
    {
        Self::new(raw)
    }
}

impl<T> vstd::std_specs::convert::FromSpecImpl<u32> for Idx<T> {
    open spec fn obeys_from_spec() -> bool {
        true
    }

    open spec fn from_spec(raw: u32) -> Self {
        Idx::<T>::spec_new(raw)
    }
}

impl<T> Idx<T> {
    /// The index whose raw number is `raw`.
    pub closed spec fn spec_new(raw: u32) -> Self {
        Idx(raw, std::marker::PhantomData)
    }

    pub broadcast proof fn lemma_spec_new_view(raw: u32)
        ensures
            #[trigger] Self::spec_new(raw)@ == raw,
    {
    }
}

/// `std::num::ParseIntError`, carried opaquely.
#[verifier::external_type_specification]
#[verifier::external_body]
pub struct ExParseIntError(std::num::ParseIntError);

/// `str::parse::<u32>` from std. Claims that it succeeds exactly on the
/// strings that [`parse_u32_spec`] accepts, with the same value: an optional
/// `+`, then ASCII digits only, with a value that fits in `u32`. What is in
/// the error is not stated.
#[verifier::external_body]
fn std_parse_u32(s: &str) -> (r: Result<u32, std::num::ParseIntError>)
    ensures
        r is Ok <==> parse_u32_spec(s@) is Some,
        r matches Ok(v) ==> parse_u32_spec(s@) == Some(v),
{
    s.parse::<u32>()
}

impl<T> std::str::FromStr for Idx<T> {
    type Err = std::num::ParseIntError;

    fn from_str(s: &str) -> (r: Result<Self, std::num::ParseIntError>)
        ensures
            r is Ok <==> parse_u32_spec(s@) is Some,
            r matches Ok(i) ==> parse_u32_spec(s@) == Some(i@),
    {
        match std_parse_u32(s) {
            Ok(v) => Ok(Self::new(v)),
            Err(e) => Err(e),
        }
    }
}

} // verus!
