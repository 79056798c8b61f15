use peggy_relay::address::CosmosAddress;
use peggy_relay::address::EthAddress;
use peggy_relay::error::PeggyError;
use peggy_relay::uint256::Uint256;
use peggy_relay::utils::find_sig_for_address;
use peggy_relay::utils::get_checkpoint_abi_encode;
use peggy_relay::utils::get_checkpoint_hash;
use peggy_relay::utils::get_correct_sig_for_address;
use peggy_relay::utils::peggy_id_request;
use peggy_relay::utils::tx_batch_nonce_request;
use peggy_relay::utils::valset_nonce_request;
use peggy_relay::valset::BatchConfirmResponse;
use peggy_relay::valset::EthSignature;
use peggy_relay::valset::find_signature;
use peggy_relay::valset::Valset;
use peggy_relay::valset::ValsetConfirmResponse;
use peggy_relay::valset::ValsetMember;
use sha3::Digest;

fn eth(last: u8) -> EthAddress {
    let mut bytes = [0u8; 20];
    bytes[19] = last;
    EthAddress::from_bytes(bytes)
}

fn cosmos(last: u8) -> CosmosAddress {
    let mut bytes = [0u8; 20];
    bytes[19] = last;
    CosmosAddress::from_bytes(bytes)
}

fn member(last: u8, power: u64) -> ValsetMember {
    ValsetMember { power, eth_address: eth(last) }
}

fn scenario_valset() -> Valset {
    Valset { nonce: 5, members: vec![member(0x0a, 10), member(0, 0), member(0x0b, 20)] }
}

fn slot(last: u8) -> [u8; 32] {
    let mut bytes = [0u8; 32];
    bytes[31] = last;
    bytes
}

fn text_slot(text: &str) -> [u8; 32] {
    let mut bytes = [0u8; 32];
    bytes[..text.len()].copy_from_slice(text.as_bytes());
    bytes
}

/// The ABI encoding of ("peggy-test", "checkpoint", 5, [0xA, 0xB], [10, 20]),
/// slot by slot.
fn scenario_encoding() -> Vec<u8> {
    let mut second_offset = [0u8; 32];
    second_offset[30] = 1;
    let slots: Vec<[u8; 32]> = vec![
        text_slot("peggy-test"),
        text_slot("checkpoint"),
        slot(5),
        slot(160),
        second_offset,
        slot(2),
        slot(0x0a),
        slot(0x0b),
        slot(2),
        slot(10),
        slot(20),
    ];
    slots.concat()
}

fn sig(n: u64) -> EthSignature {
    EthSignature { v: Uint256::from(27 + n), r: Uint256::from(1000 + n), s: Uint256::from(2000 + n) }
}

#[test]
fn filter_drops_the_empty_address_and_keeps_the_order() {
    let (addresses, powers) = scenario_valset().filter_empty_addresses();
    assert_eq!(addresses, vec![eth(0x0a), eth(0x0b)]);
    assert_eq!(powers, vec![10, 20]);
}

#[test]
fn filter_of_nothing_and_of_only_empty_addresses() {
    let none = Valset { nonce: 1, members: vec![] };
    assert_eq!(none.filter_empty_addresses(), (vec![], vec![]));
    let empty = Valset { nonce: 1, members: vec![member(0, 5), member(0, 6)] };
    assert_eq!(empty.filter_empty_addresses(), (vec![], vec![]));
    assert!(EthAddress::zero().is_empty());
    assert!(!eth(1).is_empty());
    let mut high = [0u8; 20];
    high[0] = 1;
    assert!(!EthAddress::from_bytes(high).is_empty());
}

#[test]
fn checkpoint_encoding_of_the_scenario() {
    let encoded = get_checkpoint_abi_encode(&scenario_valset(), "peggy-test").unwrap();
    assert_eq!(encoded.len(), 352);
    assert_eq!(encoded, scenario_encoding());
}

#[test]
fn checkpoint_hash_of_the_scenario() {
    let hash = get_checkpoint_hash(&scenario_valset(), "peggy-test").unwrap();
    assert_eq!(hash.len(), 32);
    let expected = sha3::Keccak256::digest(scenario_encoding()).to_vec();
    assert_eq!(hash, expected);
    assert_eq!(hash, clarity::abi::get_hash(&scenario_encoding()).to_vec());
    let digest: Vec<u8> = vec![
        166, 219, 134, 135, 148, 255, 1, 168, 31, 32, 203, 222, 76, 175, 194, 192, 137, 35, 201,
        11, 30, 248, 222, 167, 204, 116, 219, 75, 1, 193, 20, 74,
    ];
    assert_eq!(hash, digest);
    assert_ne!(hash, scenario_encoding()[..32].to_vec());
}

#[test]
fn checkpoint_hash_is_deterministic() {
    let first = get_checkpoint_hash(&scenario_valset(), "peggy-test").unwrap();
    let second = get_checkpoint_hash(&scenario_valset(), "peggy-test").unwrap();
    assert_eq!(first, second);
}

#[test]
fn checkpoint_hash_ignores_members_without_an_account() {
    let filtered = Valset { nonce: 5, members: vec![member(0x0a, 10), member(0x0b, 20)] };
    let padded = Valset {
        nonce: 5,
        members: vec![member(0, 1), member(0x0a, 10), member(0, 2), member(0x0b, 20), member(0, 3)],
    };
    let expected = get_checkpoint_hash(&scenario_valset(), "peggy-test").unwrap();
    assert_eq!(get_checkpoint_hash(&filtered, "peggy-test").unwrap(), expected);
    assert_eq!(get_checkpoint_hash(&padded, "peggy-test").unwrap(), expected);
}

#[test]
fn checkpoint_hash_depends_on_order_nonce_and_domain() {
    let expected = get_checkpoint_hash(&scenario_valset(), "peggy-test").unwrap();
    let swapped = Valset { nonce: 5, members: vec![member(0x0b, 20), member(0x0a, 10)] };
    assert_ne!(get_checkpoint_hash(&swapped, "peggy-test").unwrap(), expected);
    let later = Valset { nonce: 6, ..scenario_valset() };
    assert_ne!(get_checkpoint_hash(&later, "peggy-test").unwrap(), expected);
    assert_ne!(get_checkpoint_hash(&scenario_valset(), "peggy-tesu").unwrap(), expected);
}

#[test]
fn a_domain_identifier_of_more_than_32_bytes_is_refused() {
    let exact = "0123456789abcdef0123456789abcdef";
    assert_eq!(exact.len(), 32);
    assert!(get_checkpoint_abi_encode(&scenario_valset(), exact).is_ok());
    let long = "0123456789abcdef0123456789abcdef0";
    assert_eq!(get_checkpoint_abi_encode(&scenario_valset(), long), Err(PeggyError::InvalidPeggyId));
    assert_eq!(get_checkpoint_hash(&scenario_valset(), long), Err(PeggyError::InvalidPeggyId));
    // eleven characters of three bytes each
    let wide = "\u{20ac}\u{20ac}\u{20ac}\u{20ac}\u{20ac}\u{20ac}\u{20ac}\u{20ac}\u{20ac}\u{20ac}\u{20ac}";
    assert_eq!(get_checkpoint_hash(&scenario_valset(), wide), Err(PeggyError::InvalidPeggyId));
}

#[test]
fn the_first_confirmation_of_a_validator_counts() {
    let confirms = vec![
        ValsetConfirmResponse { orchestrator: cosmos(1), eth_address: eth(1), nonce: 5, eth_signature: sig(1) },
        ValsetConfirmResponse { orchestrator: cosmos(2), eth_address: eth(2), nonce: 5, eth_signature: sig(2) },
        ValsetConfirmResponse { orchestrator: cosmos(2), eth_address: eth(2), nonce: 5, eth_signature: sig(3) },
    ];
    assert_eq!(
        get_correct_sig_for_address(cosmos(2), &confirms),
        (Uint256::from(29u64), Uint256::from(1002u64), Uint256::from(2002u64))
    );
    assert_eq!(
        find_sig_for_address(cosmos(1), &confirms),
        Some((Uint256::from(28u64), Uint256::from(1001u64), Uint256::from(2001u64)))
    );
    assert_eq!(find_sig_for_address(cosmos(3), &confirms), None);
    assert_eq!(find_sig_for_address(cosmos(1), &[]), None);
}

fn batch_confirm(signer: u8, n: u64) -> BatchConfirmResponse {
    BatchConfirmResponse {
        nonce: 7,
        orchestrator: cosmos(signer),
        token_contract: eth(0xee),
        ethereum_signer: eth(signer),
        eth_signature: sig(n),
    }
}

#[test]
fn signatures_come_out_in_the_order_of_the_filtered_members() {
    let confirms = vec![batch_confirm(0x0b, 2), batch_confirm(0x0c, 3), batch_confirm(0x0a, 1), batch_confirm(0x0a, 9)];
    let valset = scenario_valset();
    assert!(valset.is_signed_by_all(&confirms));
    let arrays = valset.assemble(&confirms);
    assert_eq!(arrays.v, vec![Uint256::from(28u64), Uint256::from(29u64)]);
    assert_eq!(arrays.r, vec![Uint256::from(1001u64), Uint256::from(1002u64)]);
    assert_eq!(arrays.s, vec![Uint256::from(2001u64), Uint256::from(2002u64)]);
    let (addresses, _) = valset.filter_empty_addresses();
    assert_eq!(arrays.v.len(), addresses.len());
    assert_eq!(arrays.r.len(), addresses.len());
    assert_eq!(arrays.s.len(), addresses.len());
}

#[test]
fn a_missing_signature_is_seen_before_assembly() {
    let confirms = vec![batch_confirm(0x0a, 1)];
    assert!(!scenario_valset().is_signed_by_all(&confirms));
    assert_eq!(find_signature(&confirms, &eth(0x0b)), None);
    assert_eq!(find_signature(&confirms, &eth(0x0a)), Some(sig(1)));
    // a member without an account needs no signature
    let lonely = Valset { nonce: 1, members: vec![member(0, 100)] };
    assert!(lonely.is_signed_by_all(&[]));
    let arrays = lonely.assemble(&[]);
    assert!(arrays.v.is_empty() && arrays.r.is_empty() && arrays.s.is_empty());
}

#[test]
fn read_calls_carry_the_method_id_and_the_arguments() {
    let contract = eth(0x77);
    let call = valset_nonce_request(contract).unwrap();
    assert_eq!(call.data, clarity::abi::derive_method_id("state_lastValsetNonce()").unwrap().to_vec());
    assert_eq!(call.from, None);
    assert_eq!(call.to, contract);
    assert_eq!(call.gas, Some(18446744073709551614u64));
    assert_eq!(call.value, 0);

    let call = peggy_id_request(contract).unwrap();
    assert_eq!(call.data, clarity::abi::derive_method_id("state_peggyId()").unwrap().to_vec());
    assert_eq!(call.to, contract);

    let call = tx_batch_nonce_request(contract, eth(0xee)).unwrap();
    let mut expected = clarity::abi::derive_method_id("lastBatchNonce(address)").unwrap().to_vec();
    expected.extend_from_slice(&slot(0xee));
    assert_eq!(call.data, expected);
    assert_eq!(call.data.len(), 36);
    assert_eq!(call.to, contract);
    assert_eq!(call.gas, Some(u64::MAX - 1));
}
