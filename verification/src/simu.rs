//! Simulated device properties that `mumu simulation` can spoof.
use vstd::prelude::*;

verus! {

/// Simulated device property to spoof.
#[derive(Debug, Clone, Copy, PartialEq, Eq, Structural)]
pub enum SimuKey {
    AndroidId,
    MacAddress,
    Imei,
}

impl SimuKey {
    /// The wire name of the key.
    pub open spec fn wire(self) -> Seq<char> {
        match self {
            SimuKey::AndroidId => "android_id"@,
            SimuKey::MacAddress => "mac_address"@,
            SimuKey::Imei => "imei"@,
        }
    }

    /// The wire name of the key, as `--simu_key` expects it.
    pub fn as_str(self) -> (r: &'static str)
        ensures
            r@ == self.wire(),
    {
        match self {
            SimuKey::AndroidId => "android_id",
            SimuKey::MacAddress => "mac_address",
            SimuKey::Imei => "imei",
        }
    }
}

/// Each `SimuKey` is written as its own name, and no two share a wire value.
pub proof fn lemma_simu_key_wire(a: SimuKey, b: SimuKey)
    ensures
        (a.wire() == b.wire()) <==> (a == b),
        SimuKey::AndroidId.wire() == "android_id"@,
        SimuKey::MacAddress.wire() == "mac_address"@,
        SimuKey::Imei.wire() == "imei"@,
{
    reveal_strlit("android_id");
    reveal_strlit("mac_address");
    reveal_strlit("imei");
    assert("android_id"@.len() == 10);
    assert("mac_address"@.len() == 11);
    assert("imei"@.len() == 4);
    match a {
        SimuKey::AndroidId => {
            match b {
                SimuKey::AndroidId => {},
                SimuKey::MacAddress => {},
                SimuKey::Imei => {},
            }
        },
        SimuKey::MacAddress => {
            match b {
                SimuKey::AndroidId => {},
                SimuKey::MacAddress => {},
                SimuKey::Imei => {},
            }
        },
        SimuKey::Imei => {
            match b {
                SimuKey::AndroidId => {},
                SimuKey::MacAddress => {},
                SimuKey::Imei => {},
            }
        },
    }
}

} // verus!
