//! The validator set that signs checkpoints: its members in their order, the
//! members that count, and the signatures collected from them.

use crate::address::CosmosAddress;
use crate::address::EthAddress;
use crate::uint256::Uint256;
use vstd::prelude::*;

verus! {

/// One validator: its voting power and the account it signs with. A member
/// that has registered no account carries the empty address.
#[derive(Clone, Copy, Debug, PartialEq, Eq)]
pub struct ValsetMember {
    pub power: u64,
    pub eth_address: EthAddress,
}

/// A validator set as the companion chain holds it under one nonce.
#[derive(Clone, Debug, PartialEq, Eq)]
pub struct Valset {
    pub nonce: u64,
    pub members: Vec<ValsetMember>,
}

/// The members that count: those with an account, in their order.
pub open spec fn live_members(members: Seq<ValsetMember>) -> Seq<ValsetMember>
    decreases members.len(),
{
    if members.len() == 0 {
        Seq::empty()
    } else {
        let rest = live_members(members.drop_last());
        if members.last().eth_address.is_empty_spec() {
            rest
        } else {
            rest.push(members.last())
        }
    }
}

/// The accounts of the members, in their order.
pub open spec fn addresses_of(members: Seq<ValsetMember>) -> Seq<EthAddress> {
    members.map_values(|m: ValsetMember| m.eth_address)
}

/// The voting powers of the members, in their order.
pub open spec fn powers_of(members: Seq<ValsetMember>) -> Seq<u64> {
    members.map_values(|m: ValsetMember| m.power)
}

/// No member that counts has the empty address.
pub proof fn lemma_live_members_have_accounts(members: Seq<ValsetMember>, i: int)
    requires
        0 <= i < live_members(members).len(),
    ensures
        !live_members(members)[i].eth_address.is_empty_spec(),
    decreases members.len(),
{
    if members.len() > 0 {
        let rest = live_members(members.drop_last());
        if i < rest.len() {
            lemma_live_members_have_accounts(members.drop_last(), i);
        }
    }
}

/// The members that count among the first `k` are the first of those that
/// count among all.
pub proof fn lemma_live_members_prefix(members: Seq<ValsetMember>, k: int)
    requires
        0 <= k <= members.len(),
    ensures
        live_members(members.take(k)).len() <= live_members(members).len(),
        live_members(members.take(k)) == live_members(members).take(
            live_members(members.take(k)).len() as int,
        ),
    decreases members.len(),
{
    if k == members.len() {
        assert(members.take(k) =~= members);
        assert(live_members(members) =~= live_members(members).take(
            live_members(members).len() as int,
        ));
    } else {
        assert(members.drop_last().take(k) =~= members.take(k));
        lemma_live_members_prefix(members.drop_last(), k);
    }
}

/// Filtering keeps every member with an account, and keeps them in order:
/// the member at index `a` comes out at the position that counts the members
/// with an account before it.
pub proof fn lemma_live_members_keep_order(members: Seq<ValsetMember>, a: int)
    requires
        0 <= a < members.len(),
        !members[a].eth_address.is_empty_spec(),
    ensures
        live_members(members.take(a)).len() < live_members(members).len(),
        live_members(members)[live_members(members.take(a)).len() as int] == members[a],
{
    let upto = members.take(a + 1);
    assert(upto.drop_last() =~= members.take(a));
    let before = live_members(members.take(a));
    lemma_live_members_prefix(members, a + 1);
    let n = before.len() as int;
    assert(live_members(members).take(n + 1)[n] == before.push(members[a])[n]);
}

/// The three parts of one signature.
#[derive(Clone, Copy, Debug, PartialEq, Eq)]
pub struct EthSignature {
    pub v: Uint256,
    pub r: Uint256,
    pub s: Uint256,
}

/// A validator's signature over the checkpoint of the validator set with the
/// given nonce.
#[derive(Clone, Copy, Debug, PartialEq, Eq)]
pub struct ValsetConfirmResponse {
    pub orchestrator: CosmosAddress,
    pub eth_address: EthAddress,
    pub nonce: u64,
    pub eth_signature: EthSignature,
}

/// A validator's signature over the checkpoint of the batch with the given
/// nonce.
#[derive(Clone, Copy, Debug, PartialEq, Eq)]
pub struct BatchConfirmResponse {
    pub nonce: u64,
    pub orchestrator: CosmosAddress,
    pub token_contract: EthAddress,
    pub ethereum_signer: EthAddress,
    pub eth_signature: EthSignature,
}

/// Whether `k` is the first confirmation signed with the account `signer`.
pub open spec fn is_first_by(confirms: Seq<BatchConfirmResponse>, signer: EthAddress, k: int) -> bool {
    &&& 0 <= k < confirms.len()
    &&& confirms[k].ethereum_signer == signer
    &&& forall|j: int| 0 <= j < k ==> (#[trigger] confirms[j]).ethereum_signer != signer
}

/// Whether some confirmation is signed with the account `signer`.
pub open spec fn signed_by(confirms: Seq<BatchConfirmResponse>, signer: EthAddress) -> bool {
    exists|k: int| 0 <= k < confirms.len() && (#[trigger] confirms[k]).ethereum_signer == signer
}

/// The signature of the first confirmation signed with the account `signer`.
pub open spec fn signature_by(confirms: Seq<BatchConfirmResponse>, signer: EthAddress) -> EthSignature {
    confirms[choose|k: int| is_first_by(confirms, signer, k)].eth_signature
}

/// Whether every account in `signers` has signed some confirmation.
pub open spec fn all_signed(confirms: Seq<BatchConfirmResponse>, signers: Seq<EthAddress>) -> bool {
    forall|i: int| 0 <= i < signers.len() ==> signed_by(confirms, #[trigger] signers[i])
}

/// There is at most one first confirmation of a signer.
pub proof fn lemma_first_by_unique(
    confirms: Seq<BatchConfirmResponse>,
    signer: EthAddress,
    a: int,
    b: int,
)
    requires
        is_first_by(confirms, signer, a),
        is_first_by(confirms, signer, b),
    ensures
        a == b,
{
}

/// Looks for the signature of `signer` among the confirmations. The first
/// confirmation signed with that account is the one that counts.
pub fn find_signature(confirms: &[BatchConfirmResponse], signer: &EthAddress) -> (r: Option<
    EthSignature,
>)
    ensures
        r is Some <==> signed_by(confirms@, *signer),
        r is Some ==> r == Some(signature_by(confirms@, *signer)),
{
    let mut i: usize = 0;
    while i < confirms.len()
        invariant
            i <= confirms.len(),
            forall|j: int| 0 <= j < i ==> (#[trigger] confirms@[j]).ethereum_signer != *signer,
        decreases confirms.len() - i,
    {
        if confirms[i].ethereum_signer.same_as(signer) {
            proof {
                let k = choose|k: int| is_first_by(confirms@, *signer, k);
                lemma_first_by_unique(confirms@, *signer, i as int, k);
            }
            return Some(confirms[i].eth_signature);
        }
        i += 1;
    }
    None
}

/// The signatures of a validator set as the contract takes them: three
/// arrays of one length, one entry for each member that counts.
#[derive(Clone, Debug, PartialEq, Eq)]
pub struct SignatureArrays {
    pub v: Vec<Uint256>,
    pub r: Vec<Uint256>,
    pub s: Vec<Uint256>,
}

impl SignatureArrays {
    /// Whether the arrays hold, position by position, the signatures of the
    /// given accounts among the confirmations.
    pub open spec fn holds(&self, confirms: Seq<BatchConfirmResponse>, signers: Seq<EthAddress>) -> bool {
        &&& self.v@.len() == signers.len()
        &&& self.r@.len() == signers.len()
        &&& self.s@.len() == signers.len()
        &&& forall|i: int|
            0 <= i < signers.len() ==> {
                let sig = signature_by(confirms, #[trigger] signers[i]);
                self.v@[i] == sig.v && self.r@[i] == sig.r && self.s@[i] == sig.s
            }
    }
}

impl Valset {
    /// The members that count, in their order.
    pub open spec fn live(&self) -> Seq<ValsetMember> {
        live_members(self.members@)
    }

    /// The accounts of the members that count, in their order.
    pub open spec fn live_addresses(&self) -> Seq<EthAddress> {
        addresses_of(self.live())
    }

    /// The voting powers of the members that count, in their order.
    pub open spec fn live_powers(&self) -> Seq<u64> {
        powers_of(self.live())
    }

    /// Drops the members without an account and gives the accounts and the
    /// powers of the others, in their order.
    pub fn filter_empty_addresses(&self) -> (r: (Vec<EthAddress>, Vec<u64>))
        ensures
            r.0@ == self.live_addresses(),
            r.1@ == self.live_powers(),
    {
        let mut addresses: Vec<EthAddress> = Vec::new();
        let mut powers: Vec<u64> = Vec::new();
        let mut i: usize = 0;
        while i < self.members.len()
            invariant
                i <= self.members.len(),
                addresses@ =~= addresses_of(live_members(self.members@.take(i as int))),
                powers@ =~= powers_of(live_members(self.members@.take(i as int))),
            decreases self.members.len() - i,
        {
            let member = self.members[i];
            proof {
                assert(self.members@.take(i + 1).drop_last() =~= self.members@.take(i as int));
            }
            if !member.eth_address.is_empty() {
                addresses.push(member.eth_address);
                powers.push(member.power);
            }
            i += 1;
        }
        assert(self.members@.take(i as int) =~= self.members@);
        (addresses, powers)
    }

    /// Whether every member that counts has signed some confirmation.
    pub fn is_signed_by_all(&self, confirms: &[BatchConfirmResponse]) -> (r: bool)
        ensures
            r == all_signed(confirms@, self.live_addresses()),
    {
        let (addresses, _powers) = self.filter_empty_addresses();
        let mut i: usize = 0;
        while i < addresses.len()
            invariant
                i <= addresses.len(),
                addresses@ == self.live_addresses(),
                forall|j: int| 0 <= j < i ==> signed_by(confirms@, #[trigger] addresses@[j]),
            decreases addresses.len() - i,
        {
            if find_signature(confirms, &addresses[i]).is_none() {
                return false;
            }
            i += 1;
        }
        true
    }

    /// Puts the signatures of the members that count into the three arrays
    /// that the contract takes, in the order of the members. Every such
    /// member must have signed.
    pub fn assemble(&self, confirms: &[BatchConfirmResponse]) -> (r: SignatureArrays)
        requires
            all_signed(confirms@, self.live_addresses()),
        ensures
            r.holds(confirms@, self.live_addresses()),
            r.v@.len() == self.live().len(),
            r.r@.len() == r.v@.len(),
            r.s@.len() == r.v@.len(),
    {
        let (addresses, _powers) = self.filter_empty_addresses();
        let mut v: Vec<Uint256> = Vec::new();
        let mut r: Vec<Uint256> = Vec::new();
        let mut s: Vec<Uint256> = Vec::new();
        let mut i: usize = 0;
        while i < addresses.len()
            invariant
                i <= addresses.len(),
                all_signed(confirms@, addresses@),
                v@.len() == i,
                r@.len() == i,
                s@.len() == i,
                forall|j: int|
                    0 <= j < i ==> {
                        let sig = signature_by(confirms@, #[trigger] addresses@[j]);
                        v@[j] == sig.v && r@[j] == sig.r && s@[j] == sig.s
                    },
            decreases addresses.len() - i,
        {
            let found = find_signature(confirms, &addresses[i]);
            let sig = found.unwrap();
            v.push(sig.v);
            r.push(sig.r);
            s.push(sig.s);
            i += 1;
        }
        SignatureArrays { v, r, s }
    }
}

} // verus!
