//! Unsigned integers as big-endian byte strings: the 256-bit word that the
//! bridge carries in its payloads, and the narrowing of a nonce to 64 bits.

use vstd::prelude::*;
use vstd::std_specs::convert::FromSpecImpl;

verus! {

/// The number that a big-endian byte string denotes. The empty string is 0.
pub open spec fn be_value(s: Seq<u8>) -> nat
    decreases s.len(),
{
    if s.len() == 0 {
        0
    } else {
        be_value(s.drop_last()) * 256 + s.last() as nat
    }
}

/// What narrowing a number to 64 bits gives: the number itself where it is
/// below 2^64, and nothing where it is not.
pub open spec fn narrow(n: nat) -> Option<u64> {
    if n <= u64::MAX {
        Some(n as u64)
    } else {
        None
    }
}

/// The 32-byte big-endian rendering of a number below 2^256.
pub open spec fn be_word(n: nat) -> [u8; 32] {
    choose|a: [u8; 32]| be_value(a@) == n
}

/// A prefix of a big-endian string never denotes more than the whole string.
pub proof fn lemma_be_value_prefix(s: Seq<u8>, k: int)
    requires
        0 <= k <= s.len(),
    ensures
        be_value(s.take(k)) <= be_value(s),
    decreases s.len(),
{
    if k == s.len() {
        assert(s.take(k) =~= s);
    } else {
        assert(s.drop_last().take(k) =~= s.take(k));
        lemma_be_value_prefix(s.drop_last(), k);
    }
}

/// Leading zero bytes do not change the number.
pub proof fn lemma_be_value_leading_zeros(s: Seq<u8>, k: int)
    requires
        0 <= k <= s.len(),
        forall|i: int| 0 <= i < k ==> s[i] == 0,
    ensures
        be_value(s) == be_value(s.skip(k)),
    decreases s.len(),
{
    if k < s.len() {
        lemma_be_value_leading_zeros(s.drop_last(), k);
        assert(s.drop_last().skip(k) =~= s.skip(k).drop_last());
    } else if s.len() > 0 {
        lemma_be_value_leading_zeros(s.drop_last(), k - 1);
    }
}

/// Two big-endian strings of one length that denote the same number are the
/// same string.
pub proof fn lemma_be_value_injective(a: Seq<u8>, b: Seq<u8>)
    requires
        a.len() == b.len(),
        be_value(a) == be_value(b),
    ensures
        a == b,
    decreases a.len(),
{
    if a.len() > 0 {
        lemma_be_value_injective(a.drop_last(), b.drop_last());
        assert(b =~= b.drop_last().push(b.last()));
    }
}

/// Narrows an unsigned integer of any width, given as big-endian bytes, to 64
/// bits. It succeeds exactly when the number is below 2^64.
pub fn downcast_nonce_bytes(bytes: &[u8]) -> (r: Option<u64>)
    ensures
        r == narrow(be_value(bytes@)),
{
    let mut acc: u64 = 0;
    let mut i: usize = 0;
    while i < bytes.len()
        invariant
            i <= bytes.len(),
            acc as nat == be_value(bytes@.take(i as int)),
        decreases bytes.len() - i,
    {
        proof {
            assert(bytes@.take(i + 1).drop_last() =~= bytes@.take(i as int));
            lemma_be_value_prefix(bytes@, i + 1);
        }
        if acc > 0x00ff_ffff_ffff_ffff {
            return None;
        }
        acc = acc * 256 + bytes[i] as u64;
        i += 1;
    }
    proof {
        assert(bytes@.take(i as int) =~= bytes@);
    }
    Some(acc)
}

/// A 256-bit unsigned integer, held as its 32 big-endian bytes.
#[derive(Clone, Copy, Debug, PartialEq, Eq, PartialOrd, Ord, Hash)]
pub struct Uint256 {
    pub bytes: [u8; 32],
}

impl View for Uint256 {
    type V = nat;

    open spec fn view(&self) -> nat {
        be_value(self.bytes@)
    }
}

/// The default is zero.
impl Default for Uint256 {
    fn default() -> (r: Uint256)
        ensures
            r@ == 0,
            forall|i: int| 0 <= i < 32 ==> r.bytes@[i] == 0,
    {
        let r = Uint256 { bytes: [0u8; 32] };
        proof {
            lemma_be_value_leading_zeros(r.bytes@, 32);
        }
        r
    }
}

impl Uint256 {
    /// The integer with the given big-endian bytes.
    pub fn from_be_bytes(bytes: [u8; 32]) -> (r: Uint256)
        ensures
            r.bytes == bytes,
            r@ == be_value(bytes@),
    {
        Uint256 { bytes }
    }

    /// The 32 big-endian bytes of the integer.
    pub fn to_be_bytes(&self) -> (r: [u8; 32])
        ensures
            r == self.bytes,
            be_value(r@) == self@,
    {
        self.bytes
    }

    /// Two words are the same word exactly when they denote the same number.
    pub proof fn lemma_equal_values(self, other: Uint256)
        ensures
            self@ == other@ <==> self == other,
    {
        if self@ == other@ {
            lemma_be_value_injective(self.bytes@, other.bytes@);
            assert(self.bytes =~= other.bytes);
        }
    }

    /// Whether this integer is below the other.
    pub fn lt(&self, other: &Uint256) -> (r: bool)
        ensures
            r == (self@ < other@),
    {
        // -1: below so far, 0: equal so far, 1: above so far
        let mut state: i8 = 0;
        let mut i: usize = 0;
        while i < 32
            invariant
                i <= 32,
                -1 <= state <= 1,
                state == 0 ==> be_value(self.bytes@.take(i as int)) == be_value(
                    other.bytes@.take(i as int),
                ),
                state == -1 ==> be_value(self.bytes@.take(i as int)) < be_value(
                    other.bytes@.take(i as int),
                ),
                state == 1 ==> be_value(self.bytes@.take(i as int)) > be_value(
                    other.bytes@.take(i as int),
                ),
            decreases 32 - i,
        {
            proof {
                assert(self.bytes@.take(i + 1).drop_last() =~= self.bytes@.take(i as int));
                assert(other.bytes@.take(i + 1).drop_last() =~= other.bytes@.take(i as int));
            }
            if state == 0 {
                if self.bytes[i] < other.bytes[i] {
                    state = -1;
                } else if self.bytes[i] > other.bytes[i] {
                    state = 1;
                }
            }
            i += 1;
        }
        proof {
            assert(self.bytes@.take(32) =~= self.bytes@);
            assert(other.bytes@.take(32) =~= other.bytes@);
        }
        state == -1
    }

    /// Whether the two integers are the same.
    pub fn same_as(&self, other: &Uint256) -> (r: bool)
        ensures
            r == (self@ == other@),
            r == (*self == *other),
    {
        proof {
            self.lemma_equal_values(*other);
        }
        !self.lt(other) && !other.lt(self)
    }

    /// Narrows the integer to 64 bits; see [`downcast_nonce`].
    pub fn to_u64(&self) -> (r: Option<u64>)
        ensures
            r == narrow(self@),
    {
        downcast_nonce_bytes(self.bytes.as_slice())
    }
}

/// Whether `s` is the 32-byte big-endian rendering of `v`, byte by byte.
pub open spec fn is_u64_word(s: Seq<u8>, v: u64) -> bool {
    &&& s.len() == 32
    &&& forall|i: int| 0 <= i < 24 ==> s[i] == 0
    &&& s[24] == (v / 0x100_0000_0000_0000) as u8
    &&& s[25] == ((v / 0x1_0000_0000_0000) % 256) as u8
    &&& s[26] == ((v / 0x100_0000_0000) % 256) as u8
    &&& s[27] == ((v / 0x1_0000_0000) % 256) as u8
    &&& s[28] == ((v / 0x100_0000) % 256) as u8
    &&& s[29] == ((v / 0x1_0000) % 256) as u8
    &&& s[30] == ((v / 0x100) % 256) as u8
    &&& s[31] == (v % 256) as u8
}

/// The byte-by-byte rendering of a 64-bit number denotes that number.
pub proof fn lemma_u64_word_value(s: Seq<u8>, v: u64)
    requires
        is_u64_word(s, v),
    ensures
        be_value(s) == v,
{
    lemma_be_value_leading_zeros(s, 24);
    let t = s.skip(24);
    let q1 = v / 0x100;
    let q2 = v / 0x1_0000;
    let q3 = v / 0x100_0000;
    let q4 = v / 0x1_0000_0000;
    let q5 = v / 0x100_0000_0000;
    let q6 = v / 0x1_0000_0000_0000;
    let q7 = v / 0x100_0000_0000_0000;
    assert(be_value(t.take(0)) == 0);
    assert(t.take(1).drop_last() =~= t.take(0));
    assert(be_value(t.take(1)) == q7);
    assert(t.take(2).drop_last() =~= t.take(1));
    assert(be_value(t.take(2)) == q6);
    assert(t.take(3).drop_last() =~= t.take(2));
    assert(be_value(t.take(3)) == q5);
    assert(t.take(4).drop_last() =~= t.take(3));
    assert(be_value(t.take(4)) == q4);
    assert(t.take(5).drop_last() =~= t.take(4));
    assert(be_value(t.take(5)) == q3);
    assert(t.take(6).drop_last() =~= t.take(5));
    assert(be_value(t.take(6)) == q2);
    assert(t.take(7).drop_last() =~= t.take(6));
    assert(be_value(t.take(7)) == q1);
}

/// The word that a 64-bit number widens to.
pub open spec fn u64_word(v: u64) -> Uint256 {
    Uint256 { bytes: be_word(v as nat) }
}

/// Every 64-bit number has a 32-byte rendering, which denotes it.
pub proof fn lemma_from_u64_value(v: u64)
    ensures
        u64_word(v)@ == v,
        is_u64_word(u64_word(v).bytes@, v),
{
    let a0 = vstd::array::spec_array_fill_for_copy_type::<u8, 32>(0u8);
    let a1 = vstd::array::spec_array_update(a0, 31, (v % 256) as u8);
    let a2 = vstd::array::spec_array_update(a1, 30, ((v / 0x100) % 256) as u8);
    let a3 = vstd::array::spec_array_update(a2, 29, ((v / 0x1_0000) % 256) as u8);
    let a4 = vstd::array::spec_array_update(a3, 28, ((v / 0x100_0000) % 256) as u8);
    let a5 = vstd::array::spec_array_update(a4, 27, ((v / 0x1_0000_0000) % 256) as u8);
    let a6 = vstd::array::spec_array_update(a5, 26, ((v / 0x100_0000_0000) % 256) as u8);
    let a7 = vstd::array::spec_array_update(a6, 25, ((v / 0x1_0000_0000_0000) % 256) as u8);
    let a8 = vstd::array::spec_array_update(a7, 24, (v / 0x100_0000_0000_0000) as u8);
    lemma_u64_word_value(a8@, v);
    let w = be_word(v as nat);
    lemma_be_value_injective(a8@, w@);
}

impl From<u64> for Uint256 {
    fn from(v: u64) -> (r: Uint256) {
        let mut bytes: [u8; 32] = [0u8; 32];
        bytes[31] = (v % 256) as u8;
        bytes[30] = ((v / 0x100) % 256) as u8;
        bytes[29] = ((v / 0x1_0000) % 256) as u8;
        bytes[28] = ((v / 0x100_0000) % 256) as u8;
        bytes[27] = ((v / 0x1_0000_0000) % 256) as u8;
        bytes[26] = ((v / 0x100_0000_0000) % 256) as u8;
        bytes[25] = ((v / 0x1_0000_0000_0000) % 256) as u8;
        bytes[24] = (v / 0x100_0000_0000_0000) as u8;
        proof {
            lemma_from_u64_value(v);
            assert(bytes =~= be_word(v as nat));
        }
        Uint256 { bytes }
    }
}

impl FromSpecImpl<u64> for Uint256 {
    open spec fn obeys_from_spec() -> bool {
        true
    }

    open spec fn from_spec(v: u64) -> Uint256 {
        u64_word(v)
    }
}

/// Widening a 64-bit number and narrowing it again gives the number back.
pub proof fn lemma_narrow_round_trip(v: u64)
    ensures
        narrow(u64_word(v)@) == Some(v),
{
    lemma_from_u64_value(v);
}

/// Narrows a nonce to 64 bits. It succeeds exactly when the nonce is below
/// 2^64, and then gives the nonce unchanged.
pub fn downcast_nonce(input: Uint256) -> (r: Option<u64>)
    ensures
        r == narrow(input@),
        input@ < 0x1_0000_0000_0000_0000 ==> r == Some(input@ as u64),
        input@ >= 0x1_0000_0000_0000_0000 ==> r is None,
{
    input.to_u64()
}

} // verus!
