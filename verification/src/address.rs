//! Account addresses of the two chains, as their raw bytes.

use vstd::prelude::*;

verus! {

/// Whether two byte strings of 20 bytes are the same.
fn bytes20_equal(a: &[u8; 20], b: &[u8; 20]) -> (r: bool)
    ensures
        r == (a@ == b@),
{
    let mut i: usize = 0;
    while i < 20
        invariant
            i <= 20,
            forall|k: int| 0 <= k < i ==> a@[k] == b@[k],
        decreases 20 - i,
    {
        if a[i] != b[i] {
            return false;
        }
        i += 1;
    }
    assert(a@ =~= b@);
    true
}

/// An account on the EVM chain: 20 bytes.
#[derive(Clone, Copy, Debug, PartialEq, Eq, PartialOrd, Ord, Hash)]
pub struct EthAddress {
    pub bytes: [u8; 20],
}

impl View for EthAddress {
    type V = Seq<u8>;

    open spec fn view(&self) -> Seq<u8> {
        self.bytes@
    }
}

/// The default is the empty address.
impl Default for EthAddress {
    fn default() -> (r: EthAddress)
        ensures
            r.is_empty_spec(),
    {
        EthAddress { bytes: [0u8; 20] }
    }
}

impl EthAddress {
    /// The empty address is the one whose bytes are all zero.
    pub open spec fn is_empty_spec(&self) -> bool {
        forall|i: int| 0 <= i < 20 ==> self.bytes@[i] == 0
    }

    /// The account with the given bytes.
    pub fn from_bytes(bytes: [u8; 20]) -> (r: EthAddress)
        ensures
            r.bytes == bytes,
    {
        EthAddress { bytes }
    }

    /// The address whose bytes are all zero.
    pub fn zero() -> (r: EthAddress)
        ensures
            r.is_empty_spec(),
    {
        EthAddress { bytes: [0u8; 20] }
    }

    /// Whether this is the empty address.
    pub fn is_empty(&self) -> (r: bool)
        ensures
            r == self.is_empty_spec(),
    {
        let mut i: usize = 0;
        while i < 20
            invariant
                i <= 20,
                forall|k: int| 0 <= k < i ==> self.bytes@[k] == 0,
            decreases 20 - i,
        {
            if self.bytes[i] != 0 {
                return false;
            }
            i += 1;
        }
        true
    }

    /// Whether the two addresses are the same account.
    pub fn same_as(&self, other: &EthAddress) -> (r: bool)
        ensures
            r == (self@ == other@),
            r == (*self == *other),
    {
        let r = bytes20_equal(&self.bytes, &other.bytes);
        assert(r ==> self.bytes =~= other.bytes);
        r
    }
}

/// An account on the companion chain: 20 bytes.
#[derive(Clone, Copy, Debug, PartialEq, Eq, PartialOrd, Ord, Hash)]
pub struct CosmosAddress {
    pub bytes: [u8; 20],
}

impl View for CosmosAddress {
    type V = Seq<u8>;

    open spec fn view(&self) -> Seq<u8> {
        self.bytes@
    }
}

/// The default is the address whose bytes are all zero.
impl Default for CosmosAddress {
    fn default() -> (r: CosmosAddress)
        ensures
            forall|i: int| 0 <= i < 20 ==> r.bytes@[i] == 0,
    {
        CosmosAddress { bytes: [0u8; 20] }
    }
}

impl CosmosAddress {
    /// The account with the given bytes.
    pub fn from_bytes(bytes: [u8; 20]) -> (r: CosmosAddress)
        ensures
            r.bytes == bytes,
    {
        CosmosAddress { bytes }
    }

    /// Whether the two addresses are the same account.
    pub fn same_as(&self, other: &CosmosAddress) -> (r: bool)
        ensures
            r == (self@ == other@),
            r == (*self == *other),
    {
        let r = bytes20_equal(&self.bytes, &other.bytes);
        assert(r ==> self.bytes =~= other.bytes);
        r
    }
}

} // verus!
