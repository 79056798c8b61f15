//! The arguments of a contract call, and their ABI encoding and hash as the
//! `clarity` and `sha3` crates compute them.

use crate::address::EthAddress;
use crate::uint256::Uint256;
use clarity::abi::AbiToken;
use sha3::Digest;
use vstd::prelude::*;

verus! {

/// One argument of a contract call.
#[derive(Clone, Debug, PartialEq, Eq)]
pub enum Token {
    /// An unsigned integer of up to 256 bits.
    Uint(Uint256),
    /// An account.
    Address(EthAddress),
    /// A string of at most 32 bytes, encoded in place.
    FixedString(String),
    /// An array of unsigned integers of any length.
    UintArray(Vec<Uint256>),
    /// An array of accounts of any length.
    AddressArray(Vec<EthAddress>),
}

/// What a [`Token`] stands for.
pub enum TokenView {
    Uint(nat),
    Address(Seq<u8>),
    FixedString(Seq<char>),
    UintArray(Seq<nat>),
    AddressArray(Seq<Seq<u8>>),
}

/// The numbers that a sequence of words denotes.
pub open spec fn uint_views(words: Seq<Uint256>) -> Seq<nat> {
    Seq::new(words.len(), |i: int| words[i]@)
}

/// The bytes of a sequence of accounts.
pub open spec fn address_views(accounts: Seq<EthAddress>) -> Seq<Seq<u8>> {
    Seq::new(accounts.len(), |i: int| accounts[i]@)
}

impl View for Token {
    type V = TokenView;

    open spec fn view(&self) -> TokenView {
        match self {
            Token::Uint(u) => TokenView::Uint(u@),
            Token::Address(a) => TokenView::Address(a@),
            Token::FixedString(s) => TokenView::FixedString(s@),
            Token::UintArray(v) => TokenView::UintArray(uint_views(v@)),
            Token::AddressArray(v) => TokenView::AddressArray(address_views(v@)),
        }
    }
}

/// What a list of tokens stands for.
pub open spec fn token_views(tokens: Seq<Token>) -> Seq<TokenView> {
    Seq::new(tokens.len(), |i: int| tokens[i]@)
}

/// A fixed string must fit in 32 bytes of UTF-8; every other token can be
/// encoded as it is.
pub open spec fn encodable(token: TokenView) -> bool {
    match token {
        TokenView::FixedString(s) => fits_fixed_string(s),
        _ => true,
    }
}

/// Whether a string takes at most 32 bytes of UTF-8.
pub open spec fn fits_fixed_string(s: Seq<char>) -> bool {
    vstd::utf8::encode_utf8(s).len() <= 32
}

/// Whether every token of a list can be encoded.
pub open spec fn all_encodable(tokens: Seq<TokenView>) -> bool {
    forall|i: int| 0 <= i < tokens.len() ==> encodable(#[trigger] tokens[i])
}

/// The ABI encoding of a list of arguments: what
/// `clarity::abi::encode_tokens` returns for them.
pub uninterp spec fn abi_encode_tokens(tokens: Seq<TokenView>) -> Seq<u8>;

/// The ABI encoding of a call of the function with the given signature on
/// the given arguments: what `clarity::abi::encode_call` returns for them,
/// and nothing where it refuses them.
pub uninterp spec fn abi_encode_call(sig: Seq<char>, tokens: Seq<TokenView>) -> Option<Seq<u8>>;

/// The Keccak-256 digest of a byte string: what `sha3::Keccak256::digest`
/// returns for it.
pub uninterp spec fn keccak256(data: Seq<u8>) -> Seq<u8>;

/// `clarity::Error`: why the encoder refused a call. Nothing is said of it.
#[verifier::external_type_specification]
#[verifier::external_body]
pub struct ExEncodeError(clarity::Error);

/// `clarity::abi::encode_tokens`: the ABI encoding of the arguments, a
/// function of the arguments alone. It panics on a fixed string of more than
/// 32 bytes.
#[verifier::external_body]
pub(crate) fn encode_tokens(tokens: &Vec<Token>) -> (out: Vec<u8>)
    requires
        all_encodable(token_views(tokens@)),
    ensures
        out@ == abi_encode_tokens(token_views(tokens@)),
{
    let list: Vec<AbiToken> = tokens.iter().map(|t| match t {
        Token::Uint(u) => AbiToken::Uint(num256::Uint256::from_be_bytes(&u.bytes)),
        Token::Address(a) => AbiToken::Address(a.bytes.into()),
        Token::FixedString(s) => AbiToken::FixedString(s.clone()),
        Token::UintArray(v) => AbiToken::Dynamic(
            v.iter().map(|u| AbiToken::Uint(num256::Uint256::from_be_bytes(&u.bytes))).collect()),
        Token::AddressArray(v) => AbiToken::Dynamic(
            v.iter().map(|a| AbiToken::Address(a.bytes.into())).collect()),
    }).collect();
    clarity::abi::encode_tokens(&list)
}

/// Whether a signature begins with a letter, as the name of a function does.
pub open spec fn starts_with_letter(sig: Seq<char>) -> bool {
    sig.len() > 0 && (('a' <= sig[0] && sig[0] <= 'z') || ('A' <= sig[0] && sig[0] <= 'Z'))
}

/// `clarity::abi::encode_call`: the method id of the signature followed by
/// the encoding of the arguments, or an error where the signature is
/// malformed or names another number of arguments. Which of the two is a
/// function of the signature and the arguments alone. It panics on a fixed
/// string of more than 32 bytes, and where it counts no name and no argument
/// in the signature, which cannot be where the signature begins with a
/// letter.
#[verifier::external_body]
pub(crate) fn encode_call(sig: &str, tokens: &Vec<Token>) -> (out: Result<Vec<u8>, clarity::Error>)
    requires
        starts_with_letter(sig@),
        all_encodable(token_views(tokens@)),
    ensures
        match out {
            Ok(bytes) => abi_encode_call(sig@, token_views(tokens@)) == Some(bytes@),
            Err(_) => abi_encode_call(sig@, token_views(tokens@)) is None,
        },
{
    let list: Vec<AbiToken> = tokens.iter().map(|t| match t {
        Token::Uint(u) => AbiToken::Uint(num256::Uint256::from_be_bytes(&u.bytes)),
        Token::Address(a) => AbiToken::Address(a.bytes.into()),
        Token::FixedString(s) => AbiToken::FixedString(s.clone()),
        Token::UintArray(v) => AbiToken::Dynamic(
            v.iter().map(|u| AbiToken::Uint(num256::Uint256::from_be_bytes(&u.bytes))).collect()),
        Token::AddressArray(v) => AbiToken::Dynamic(
            v.iter().map(|a| AbiToken::Address(a.bytes.into())).collect()),
    }).collect();
    clarity::abi::encode_call(sig, &list)
}

/// `sha3::Keccak256::digest`: the Keccak-256 digest of the bytes, which is 32
/// bytes long.
#[verifier::external_body]
pub(crate) fn keccak256_digest(data: &[u8]) -> (out: Vec<u8>)
    ensures
        out@ == keccak256(data@),
        out@.len() == 32,
{
    sha3::Keccak256::digest(data).to_vec()
}

} // verus!
