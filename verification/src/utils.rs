//! The checkpoint of a validator set, the lookup of a signature, and the
//! read-only calls that ask the contract for its state.

use crate::abi::abi_encode_call;
use crate::abi::abi_encode_tokens;
use crate::abi::address_views;
use crate::abi::all_encodable;
use crate::abi::encodable;
use crate::abi::encode_call;
use crate::abi::encode_tokens;
use crate::abi::fits_fixed_string;
use crate::abi::keccak256;
use crate::abi::keccak256_digest;
use crate::abi::starts_with_letter;
use crate::abi::token_views;
use crate::abi::uint_views;
use crate::abi::Token;
use crate::abi::TokenView;
use crate::address::CosmosAddress;
use crate::address::EthAddress;
use crate::error::PeggyError;
use crate::uint256::be_value;
pub use crate::uint256::downcast_nonce;
use crate::uint256::downcast_nonce_bytes;
use crate::uint256::lemma_from_u64_value;
use crate::uint256::Uint256;
use crate::valset::Valset;
use crate::valset::ValsetConfirmResponse;
use vstd::prelude::*;

verus! {

/// The numbers of a sequence of 64-bit values.
pub open spec fn u64_views(values: Seq<u64>) -> Seq<nat> {
    Seq::new(values.len(), |i: int| values[i] as nat)
}

/// Widens each value to a 256-bit word.
pub fn widen_all(values: &Vec<u64>) -> (words: Vec<Uint256>)
    ensures
        uint_views(words@) == u64_views(values@),
{
    let mut words: Vec<Uint256> = Vec::new();
    let mut i: usize = 0;
    while i < values.len()
        invariant
            i <= values.len(),
            words@.len() == i,
            forall|j: int| 0 <= j < i ==> (#[trigger] words@[j])@ == values@[j] as nat,
        decreases values.len() - i,
    {
        let word = Uint256::from(values[i]);
        proof {
            lemma_from_u64_value(values@[i as int]);
        }
        words.push(word);
        i += 1;
    }
    words
}

/// The tag that marks the encoding of a validator set.
pub open spec fn checkpoint_tag() -> Seq<char> {
    "checkpoint"@
}

/// What is encoded for the checkpoint of a validator set, in this order:
/// the domain identifier, the tag, the nonce of the set, the accounts of the
/// members that count and their powers.
pub open spec fn checkpoint_tokens(valset: &Valset, peggy_id: Seq<char>) -> Seq<TokenView> {
    seq![
        TokenView::FixedString(peggy_id),
        TokenView::FixedString(checkpoint_tag()),
        TokenView::Uint(valset.nonce as nat),
        TokenView::AddressArray(address_views(valset.live_addresses())),
        TokenView::UintArray(u64_views(valset.live_powers())),
    ]
}

/// The encoding of the checkpoint of a validator set.
pub open spec fn checkpoint_encoding(valset: &Valset, peggy_id: Seq<char>) -> Seq<u8> {
    abi_encode_tokens(checkpoint_tokens(valset, peggy_id))
}

/// The checkpoint of a validator set: the digest that its members sign and
/// that the contract computes again.
pub open spec fn checkpoint_hash(valset: &Valset, peggy_id: Seq<char>) -> Seq<u8> {
    keccak256(checkpoint_encoding(valset, peggy_id))
}

/// The tag fits in a fixed string.
proof fn lemma_checkpoint_tag_fits()
    ensures
        fits_fixed_string(checkpoint_tag()),
{
    reveal_strlit("checkpoint");
    vstd::utf8::is_ascii_chars_encode_utf8(checkpoint_tag());
}

/// Encodes the checkpoint of a validator set under a domain identifier. A
/// domain identifier of more than 32 bytes is refused, since it cannot be
/// encoded as a fixed string.
pub fn get_checkpoint_abi_encode(valset: &Valset, peggy_id: &str) -> (r: Result<
    Vec<u8>,
    PeggyError,
>)
    ensures
        fits_fixed_string(peggy_id@) ==> r is Ok && r->Ok_0@ == checkpoint_encoding(
            valset,
            peggy_id@,
        ),
        !fits_fixed_string(peggy_id@) ==> r == Err::<Vec<u8>, PeggyError>(
            PeggyError::InvalidPeggyId,
        ),
{
    if peggy_id.as_bytes().len() > 32 {
        return Err(PeggyError::InvalidPeggyId);
    }
    let (eth_addresses, powers) = valset.filter_empty_addresses();
    let power_words = widen_all(&powers);
    let nonce_word = Uint256::from(valset.nonce);
    let mut tokens: Vec<Token> = Vec::new();
    tokens.push(Token::FixedString(peggy_id.to_owned()));
    tokens.push(Token::FixedString("checkpoint".to_owned()));
    tokens.push(Token::Uint(nonce_word));
    tokens.push(Token::AddressArray(eth_addresses));
    tokens.push(Token::UintArray(power_words));
    proof {
        lemma_from_u64_value(valset.nonce);
        lemma_checkpoint_tag_fits();
        let views = token_views(tokens@);
        assert(views =~= checkpoint_tokens(valset, peggy_id@));
        assert forall|i: int| 0 <= i < views.len() implies encodable(#[trigger] views[i]) by {}
    }
    Ok(encode_tokens(&tokens))
}

/// Computes the checkpoint of a validator set under a domain identifier: 32
/// bytes. A domain identifier of more than 32 bytes is refused.
pub fn get_checkpoint_hash(valset: &Valset, peggy_id: &str) -> (r: Result<Vec<u8>, PeggyError>)
    ensures
        fits_fixed_string(peggy_id@) ==> r is Ok && r->Ok_0@ == checkpoint_hash(valset, peggy_id@)
            && r->Ok_0@.len() == 32,
        !fits_fixed_string(peggy_id@) ==> r == Err::<Vec<u8>, PeggyError>(
            PeggyError::InvalidPeggyId,
        ),
{
    match get_checkpoint_abi_encode(valset, peggy_id) {
        Ok(encoded) => Ok(keccak256_digest(encoded.as_slice())),
        Err(e) => Err(e),
    }
}

/// The checkpoint is a function of the nonce, the domain identifier and the
/// members that count, in their order: two validator sets that agree on
/// these have one checkpoint, whatever members without an account they hold.
pub proof fn lemma_checkpoint_hash_deterministic(a: &Valset, b: &Valset, peggy_id: Seq<char>)
    requires
        a.nonce == b.nonce,
        a.live() == b.live(),
    ensures
        checkpoint_tokens(a, peggy_id) == checkpoint_tokens(b, peggy_id),
        checkpoint_encoding(a, peggy_id) == checkpoint_encoding(b, peggy_id),
        checkpoint_hash(a, peggy_id) == checkpoint_hash(b, peggy_id),
{
}

/// Whether `k` is the first confirmation that the validator `address` sent.
pub open spec fn is_first_from(
    confirms: Seq<ValsetConfirmResponse>,
    address: CosmosAddress,
    k: int,
) -> bool {
    &&& 0 <= k < confirms.len()
    &&& confirms[k].orchestrator == address
    &&& forall|j: int| 0 <= j < k ==> (#[trigger] confirms[j]).orchestrator != address
}

/// Whether the validator `address` sent some confirmation.
pub open spec fn has_sig_from(confirms: Seq<ValsetConfirmResponse>, address: CosmosAddress) -> bool {
    exists|k: int| 0 <= k < confirms.len() && (#[trigger] confirms[k]).orchestrator == address
}

/// Looks for the signature that the validator `address` sent: the parts v, r
/// and s of its first confirmation, or nothing where it sent none.
pub fn find_sig_for_address(address: CosmosAddress, confirms: &[ValsetConfirmResponse]) -> (r:
    Option<(Uint256, Uint256, Uint256)>)
    ensures
        r is Some <==> has_sig_from(confirms@, address),
        r matches Some(sig) ==> exists|k: int|
            is_first_from(confirms@, address, k) && sig == (
                confirms@[k].eth_signature.v,
                confirms@[k].eth_signature.r,
                confirms@[k].eth_signature.s,
            ),
{
    let mut i: usize = 0;
    while i < confirms.len()
        invariant
            i <= confirms.len(),
            forall|j: int| 0 <= j < i ==> (#[trigger] confirms@[j]).orchestrator != address,
        decreases confirms.len() - i,
    {
        if confirms[i].orchestrator.same_as(&address) {
            let sig = confirms[i].eth_signature;
            assert(is_first_from(confirms@, address, i as int));
            return Some((sig.v, sig.r, sig.s));
        }
        i += 1;
    }
    None
}

/// The signature that the validator `address` sent: the parts v, r and s of
/// its first confirmation. The validator must have sent one.
pub fn get_correct_sig_for_address(address: CosmosAddress, confirms: &[ValsetConfirmResponse]) -> (r:
    (Uint256, Uint256, Uint256))
    requires
        has_sig_from(confirms@, address),
    ensures
        exists|k: int|
            is_first_from(confirms@, address, k) && r == (
                confirms@[k].eth_signature.v,
                confirms@[k].eth_signature.r,
                confirms@[k].eth_signature.s,
            ),
{
    find_sig_for_address(address, confirms).unwrap()
}

/// A read-only call of the contract.
#[derive(Clone, Debug, PartialEq, Eq)]
pub struct CallRequest {
    pub from: Option<EthAddress>,
    pub to: EthAddress,
    pub gas: Option<u64>,
    pub value: u64,
    pub data: Vec<u8>,
}

/// Whether `r` is how the call of `sig` on `tokens` at `contract` ends: the
/// request with the encoded call, without a sender, with all the gas a
/// 64-bit limit lets one ask for less one, and without value; or the refusal
/// of the encoder.
pub open spec fn is_read_call(
    r: Result<CallRequest, PeggyError>,
    contract: EthAddress,
    sig: Seq<char>,
    tokens: Seq<TokenView>,
) -> bool {
    match r {
        Ok(call) => {
            &&& abi_encode_call(sig, tokens) == Some(call.data@)
            &&& call.from is None
            &&& call.to == contract
            &&& call.gas == Some((u64::MAX - 1) as u64)
            &&& call.value == 0
        },
        Err(e) => e == PeggyError::InvalidCall && abi_encode_call(sig, tokens) is None,
    }
}

fn read_call(contract: EthAddress, sig: &str, tokens: Vec<Token>) -> (r: Result<
    CallRequest,
    PeggyError,
>)
    requires
        starts_with_letter(sig@),
        all_encodable(token_views(tokens@)),
    ensures
        is_read_call(r, contract, sig@, token_views(tokens@)),
{
    match encode_call(sig, &tokens) {
        Ok(data) => Ok(CallRequest { from: None, to: contract, gas: Some(u64::MAX - 1), value: 0, data }),
        Err(_) => Err(PeggyError::InvalidCall),
    }
}

/// The call that asks the contract for the nonce of its validator set.
pub fn valset_nonce_request(contract_address: EthAddress) -> (r: Result<CallRequest, PeggyError>)
    ensures
        is_read_call(r, contract_address, "state_lastValsetNonce()"@, Seq::empty()),
{
    let tokens: Vec<Token> = Vec::new();
    proof {
        reveal_strlit("state_lastValsetNonce()");
        assert(token_views(tokens@) =~= Seq::empty());
    }
    read_call(contract_address, "state_lastValsetNonce()", tokens)
}

/// The call that asks the contract for the nonce of the last batch that it
/// has applied for a token.
pub fn tx_batch_nonce_request(
    peggy_contract_address: EthAddress,
    erc20_contract_address: EthAddress,
) -> (r: Result<CallRequest, PeggyError>)
    ensures
        is_read_call(
            r,
            peggy_contract_address,
            "lastBatchNonce(address)"@,
            seq![TokenView::Address(erc20_contract_address@)],
        ),
{
    let mut tokens: Vec<Token> = Vec::new();
    tokens.push(Token::Address(erc20_contract_address));
    proof {
        reveal_strlit("lastBatchNonce(address)");
        assert(token_views(tokens@) =~= seq![TokenView::Address(erc20_contract_address@)]);
    }
    read_call(peggy_contract_address, "lastBatchNonce(address)", tokens)
}

/// The call that asks the contract for its domain identifier. The reply to
/// it is the identifier as it stands.
pub fn peggy_id_request(contract_address: EthAddress) -> (r: Result<CallRequest, PeggyError>)
    ensures
        is_read_call(r, contract_address, "state_peggyId()"@, Seq::empty()),
{
    let tokens: Vec<Token> = Vec::new();
    proof {
        reveal_strlit("state_peggyId()");
        assert(token_views(tokens@) =~= Seq::empty());
    }
    read_call(contract_address, "state_peggyId()", tokens)
}

/// The nonce of the validator set in the contract's reply. The reply must
/// denote a number below 2^64: a larger nonce halts the bridge.
pub fn get_valset_nonce(reply: &[u8]) -> (nonce: u64)
    requires
        be_value(reply@) <= u64::MAX,
    ensures
        nonce == be_value(reply@),
{
    downcast_nonce_bytes(reply).unwrap()
}

/// The nonce of the last applied batch in the contract's reply. The reply
/// must denote a number below 2^64: a larger nonce halts the bridge.
pub fn get_tx_batch_nonce(reply: &[u8]) -> (nonce: u64)
    requires
        be_value(reply@) <= u64::MAX,
    ensures
        nonce == be_value(reply@),
{
    downcast_nonce_bytes(reply).unwrap()
}

} // verus!
