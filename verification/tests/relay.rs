use clarity::abi::AbiToken;
use peggy_relay::address::CosmosAddress;
use peggy_relay::address::EthAddress;
use peggy_relay::submit_batch::is_too_expensive;
use peggy_relay::submit_batch::send_eth_transaction_batch;
use peggy_relay::submit_batch::BatchRelay;
use peggy_relay::submit_batch::BatchTransaction;
use peggy_relay::submit_batch::Outcome;
use peggy_relay::submit_batch::Probe;
use peggy_relay::submit_batch::RelayAction;
use peggy_relay::submit_batch::RelayEvent;
use peggy_relay::submit_batch::RelayState;
use peggy_relay::submit_batch::Timeout;
use peggy_relay::submit_batch::TransactionBatch;
use peggy_relay::submit_batch::TransportError;
use peggy_relay::submit_batch::BATCH_GAS_LIMIT;
use peggy_relay::uint256::Uint256;
use peggy_relay::valset::BatchConfirmResponse;
use peggy_relay::valset::EthSignature;
use peggy_relay::valset::Valset;
use peggy_relay::valset::ValsetMember;

fn eth(last: u8) -> EthAddress {
    let mut bytes = [0u8; 20];
    bytes[19] = last;
    EthAddress::from_bytes(bytes)
}

fn cosmos(last: u8) -> CosmosAddress {
    let mut bytes = [0u8; 20];
    bytes[19] = last;
    CosmosAddress::from_bytes(bytes)
}

fn valset() -> Valset {
    Valset {
        nonce: 5,
        members: vec![
            ValsetMember { power: 10, eth_address: eth(0x0a) },
            ValsetMember { power: 0, eth_address: eth(0) },
            ValsetMember { power: 20, eth_address: eth(0x0b) },
        ],
    }
}

fn batch(nonce: u64) -> TransactionBatch {
    TransactionBatch {
        nonce,
        token_contract: eth(0xee),
        transactions: vec![
            BatchTransaction { amount: Uint256::from(100u64), destination: eth(0x21) },
            BatchTransaction { amount: Uint256::from(250u64), destination: eth(0x22) },
            BatchTransaction { amount: Uint256::from(7u64), destination: eth(0x23) },
        ],
    }
}

fn confirm(signer: u8, n: u64) -> BatchConfirmResponse {
    BatchConfirmResponse {
        nonce: 7,
        orchestrator: cosmos(signer),
        token_contract: eth(0xee),
        ethereum_signer: eth(signer),
        eth_signature: EthSignature {
            v: Uint256::from(27 + n),
            r: Uint256::from(1000 + n),
            s: Uint256::from(2000 + n),
        },
    }
}

fn confirms() -> Vec<BatchConfirmResponse> {
    vec![confirm(0x0b, 1), confirm(0x0a, 0)]
}

fn timeout() -> Timeout {
    Timeout { secs: 30, nanos: 500 }
}

fn built(nonce: u64) -> BatchRelay {
    send_eth_transaction_batch(
        &valset(),
        &batch(nonce),
        &confirms(),
        timeout(),
        eth(0x77),
        eth(0x99),
        Uint256::from(41u64),
    )
    .unwrap()
}

fn outside_address(last: u8) -> AbiToken {
    AbiToken::Address(clarity::Address::from(eth(last).bytes))
}

fn outside_uint(n: u64) -> AbiToken {
    AbiToken::Uint(clarity::Uint256::from(n))
}

const SUBMIT_BATCH: &str =
    "submitBatch(address[],uint256[],uint256,uint8[],bytes32[],bytes32[],uint256[],address[],uint256,address)";

#[test]
fn the_payload_is_the_contract_call_in_the_order_of_its_arguments() {
    let relay = built(7);
    let tokens = vec![
        AbiToken::Dynamic(vec![outside_address(0x0a), outside_address(0x0b)]),
        AbiToken::Dynamic(vec![outside_uint(10), outside_uint(20)]),
        outside_uint(5),
        AbiToken::Dynamic(vec![outside_uint(27), outside_uint(28)]),
        AbiToken::Dynamic(vec![outside_uint(1000), outside_uint(1001)]),
        AbiToken::Dynamic(vec![outside_uint(2000), outside_uint(2001)]),
        AbiToken::Dynamic(vec![outside_uint(100), outside_uint(250), outside_uint(7)]),
        AbiToken::Dynamic(vec![outside_address(0x21), outside_address(0x22), outside_address(0x23)]),
        outside_uint(7),
        outside_address(0xee),
    ];
    let expected = clarity::abi::encode_call(SUBMIT_BATCH, &tokens).unwrap();
    assert_eq!(relay.payload, expected);
    assert_eq!(relay.payload[..4], clarity::abi::derive_method_id(SUBMIT_BATCH).unwrap());
    // ten heads, seven arrays with their lengths and 2 + 2 + 2 + 2 + 2 + 3 + 3 entries
    assert_eq!(relay.payload.len(), 4 + 32 * (10 + 7 + 16));
    // a signature part is encoded as its 32 bytes, as a `bytes32` is
    let r_part: Vec<u8> = Uint256::from(1000u64).to_be_bytes().to_vec();
    let as_bytes = clarity::abi::encode_tokens(&[AbiToken::Bytes(r_part)]);
    assert_eq!(as_bytes, clarity::abi::encode_tokens(&[outside_uint(1000)]));
}

#[test]
fn a_built_submission_has_done_nothing_yet() {
    let relay = built(7);
    assert_eq!(relay.state, RelayState::Built);
    assert_eq!(relay.probe, Probe::NotRun);
    assert_eq!(relay.batch_nonce, 7);
    assert_eq!(relay.token_contract, eth(0xee));
    assert_eq!(relay.peggy_contract, eth(0x77));
    assert_eq!(relay.sender, eth(0x99));
    assert_eq!(relay.account_nonce, Uint256::from(41u64));
    assert_eq!(relay.timeout, timeout());
    assert_eq!(relay.pending(), RelayAction::ReadBatchNonce);
    let mut query = clarity::abi::derive_method_id("lastBatchNonce(address)").unwrap().to_vec();
    query.extend_from_slice(&[0u8; 31]);
    query.push(0xee);
    assert_eq!(relay.nonce_query.data, query);
    assert_eq!(relay.nonce_query.to, eth(0x77));
    assert_eq!(relay.nonce_query.from, None);
    assert_eq!(relay.nonce_query.gas, Some(u64::MAX - 1));
    assert_eq!(relay.nonce_query.value, 0);
}

#[test]
fn a_batch_that_is_already_recorded_is_not_sent() {
    let mut relay = built(7);
    let action = relay.step(RelayEvent::BatchNonce(Ok(7)));
    assert_eq!(action, RelayAction::Finish(Outcome::ShortCircuitSuccess));
    assert_eq!(relay.state, RelayState::Done(Outcome::ShortCircuitSuccess));
    assert!(Outcome::ShortCircuitSuccess.is_applied());
    assert!(!Outcome::ShortCircuitSuccess.is_error());
    // nothing that comes later makes it send
    let later = [
        RelayEvent::GasPrice(Ok(Uint256::from(1u64))),
        RelayEvent::GasEstimate(Ok(Uint256::from(1u64))),
        RelayEvent::Sent(Ok(Uint256::from(1u64))),
        RelayEvent::Confirmation(Ok(())),
        RelayEvent::BatchNonce(Ok(0)),
    ];
    for event in later {
        assert_eq!(relay.step(event), RelayAction::Finish(Outcome::ShortCircuitSuccess));
    }
}

#[test]
fn a_later_batch_on_the_contract_ends_the_submission_too() {
    let mut relay = built(7);
    assert_eq!(relay.step(RelayEvent::BatchNonce(Ok(8))), RelayAction::Finish(Outcome::ShortCircuitSuccess));
    let mut relay = built(7);
    assert_eq!(relay.step(RelayEvent::BatchNonce(Ok(u64::MAX))), RelayAction::Finish(Outcome::ShortCircuitSuccess));
    let mut relay = built(7);
    assert_eq!(relay.step(RelayEvent::BatchNonce(Ok(6))), RelayAction::QueryGasPrice);
}

fn run_to_send(relay: &mut BatchRelay, recorded: u64, estimate: Result<Uint256, TransportError>) -> RelayAction {
    assert_eq!(relay.step(RelayEvent::BatchNonce(Ok(recorded))), RelayAction::QueryGasPrice);
    assert_eq!(relay.state, RelayState::PrecheckPassed);
    assert_eq!(
        relay.step(RelayEvent::GasPrice(Ok(Uint256::from(3u64)))),
        RelayAction::EstimateGas { from: eth(0x99), to: eth(0x77), value: 0 }
    );
    assert_eq!(relay.state, RelayState::Priced);
    relay.step(RelayEvent::GasEstimate(estimate))
}

fn the_send() -> RelayAction {
    RelayAction::Send { to: eth(0x77), value: 0, gas_limit: 1_000_000, nonce: Uint256::from(41u64) }
}

#[test]
fn a_submission_from_the_first_reading_to_the_last() {
    let mut relay = built(7);
    assert_eq!(run_to_send(&mut relay, 6, Ok(Uint256::from(400_000u64))), the_send());
    assert_eq!(relay.state, RelayState::Probed);
    assert_eq!(relay.probe, Probe::Normal);
    let tx = Uint256::from(0xabcdefu64);
    assert_eq!(
        relay.step(RelayEvent::Sent(Ok(tx))),
        RelayAction::AwaitConfirmation { tx, timeout: Timeout { secs: 30, nanos: 500 } }
    );
    assert_eq!(relay.state, RelayState::Submitted(tx));
    assert_eq!(relay.step(RelayEvent::Confirmation(Ok(()))), RelayAction::ReadBatchNonce);
    assert_eq!(relay.state, RelayState::Confirmed);
    assert_eq!(relay.step(RelayEvent::BatchNonce(Ok(7))), RelayAction::Finish(Outcome::Verified));
    assert_eq!(relay.state, RelayState::Done(Outcome::Verified));
    assert!(Outcome::Verified.is_applied());
    assert!(!Outcome::Verified.is_error());
}

#[test]
fn submitting_again_after_a_success_sends_nothing() {
    let mut first = built(7);
    run_to_send(&mut first, 6, Ok(Uint256::from(400_000u64)));
    first.step(RelayEvent::Sent(Ok(Uint256::from(1u64))));
    first.step(RelayEvent::Confirmation(Ok(())));
    let recorded = 7;
    assert_eq!(first.step(RelayEvent::BatchNonce(Ok(recorded))), RelayAction::Finish(Outcome::Verified));

    let mut second = built(7);
    let mut actions = vec![second.pending()];
    actions.push(second.step(RelayEvent::BatchNonce(Ok(recorded))));
    assert_eq!(actions, vec![RelayAction::ReadBatchNonce, RelayAction::Finish(Outcome::ShortCircuitSuccess)]);
    assert!(!actions.iter().any(|action| matches!(action, RelayAction::Send { .. })));
}

#[test]
fn a_high_or_missing_estimate_does_not_stop_the_submission() {
    let mut relay = built(7);
    assert_eq!(run_to_send(&mut relay, 0, Ok(Uint256::from(1_000_001u64))), the_send());
    assert_eq!(relay.probe, Probe::TooExpensive);

    let mut relay = built(7);
    assert_eq!(run_to_send(&mut relay, 0, Ok(Uint256::from(1_000_000u64))), the_send());
    assert_eq!(relay.probe, Probe::Normal);

    let mut relay = built(7);
    assert_eq!(run_to_send(&mut relay, 0, Ok(Uint256::from_be_bytes([0xff; 32]))), the_send());
    assert_eq!(relay.probe, Probe::TooExpensive);

    let mut relay = built(7);
    assert_eq!(run_to_send(&mut relay, 0, Err(TransportError::Failed)), the_send());
    assert_eq!(relay.probe, Probe::Failed);
    assert_eq!(relay.state, RelayState::Probed);
}

#[test]
fn the_gas_limit_is_a_million() {
    assert_eq!(BATCH_GAS_LIMIT, 1_000_000);
    assert!(!is_too_expensive(&Uint256::from(0u64)));
    assert!(!is_too_expensive(&Uint256::from(1_000_000u64)));
    assert!(is_too_expensive(&Uint256::from(1_000_001u64)));
    let mut wide = [0u8; 32];
    wide[0] = 1;
    assert!(is_too_expensive(&Uint256::from_be_bytes(wide)));
}

#[test]
fn a_refused_send_is_a_lost_race_and_no_error() {
    let mut relay = built(7);
    run_to_send(&mut relay, 6, Ok(Uint256::from(400_000u64)));
    assert_eq!(relay.step(RelayEvent::Sent(Err(TransportError::Failed))), RelayAction::Finish(Outcome::SendRefused));
    assert!(!Outcome::SendRefused.is_error());
    assert!(!Outcome::SendRefused.is_applied());
}

#[test]
fn another_nonce_after_the_confirmation_is_a_lost_race_and_no_error() {
    for recorded in [6u64, 8, 0, u64::MAX] {
        let mut relay = built(7);
        run_to_send(&mut relay, 6, Ok(Uint256::from(400_000u64)));
        relay.step(RelayEvent::Sent(Ok(Uint256::from(1u64))));
        relay.step(RelayEvent::Confirmation(Ok(())));
        assert_eq!(relay.step(RelayEvent::BatchNonce(Ok(recorded))), RelayAction::Finish(Outcome::NotApplied));
    }
    assert!(!Outcome::NotApplied.is_error());
    assert!(!Outcome::NotApplied.is_applied());
}

#[test]
fn a_failed_wait_is_an_error() {
    for error in [TransportError::Timeout, TransportError::Failed] {
        let mut relay = built(7);
        run_to_send(&mut relay, 6, Ok(Uint256::from(400_000u64)));
        relay.step(RelayEvent::Sent(Ok(Uint256::from(1u64))));
        assert_eq!(
            relay.step(RelayEvent::Confirmation(Err(error))),
            RelayAction::Finish(Outcome::ConfirmFailed(error))
        );
        assert!(Outcome::ConfirmFailed(error).is_error());
    }
}

#[test]
fn a_failed_query_is_an_error() {
    let mut relay = built(7);
    assert_eq!(
        relay.step(RelayEvent::BatchNonce(Err(TransportError::Failed))),
        RelayAction::Finish(Outcome::QueryFailed(TransportError::Failed))
    );

    let mut relay = built(7);
    relay.step(RelayEvent::BatchNonce(Ok(1)));
    assert_eq!(
        relay.step(RelayEvent::GasPrice(Err(TransportError::Timeout))),
        RelayAction::Finish(Outcome::QueryFailed(TransportError::Timeout))
    );

    let mut relay = built(7);
    run_to_send(&mut relay, 6, Ok(Uint256::from(400_000u64)));
    relay.step(RelayEvent::Sent(Ok(Uint256::from(1u64))));
    relay.step(RelayEvent::Confirmation(Ok(())));
    assert_eq!(
        relay.step(RelayEvent::BatchNonce(Err(TransportError::Failed))),
        RelayAction::Finish(Outcome::QueryFailed(TransportError::Failed))
    );
    assert!(Outcome::QueryFailed(TransportError::Failed).is_error());
}

#[test]
fn an_event_that_was_not_asked_for_ends_the_submission() {
    let mut relay = built(7);
    assert_eq!(
        relay.step(RelayEvent::Sent(Ok(Uint256::from(1u64)))),
        RelayAction::Finish(Outcome::UnexpectedEvent)
    );
    assert!(Outcome::UnexpectedEvent.is_error());

    // a second answer to the send does not send again
    let mut relay = built(7);
    run_to_send(&mut relay, 6, Ok(Uint256::from(400_000u64)));
    assert_eq!(
        relay.step(RelayEvent::GasEstimate(Ok(Uint256::from(1u64)))),
        RelayAction::Finish(Outcome::UnexpectedEvent)
    );
    assert_eq!(relay.step(RelayEvent::Sent(Ok(Uint256::from(1u64)))), RelayAction::Finish(Outcome::UnexpectedEvent));
}

#[test]
fn the_payouts_of_a_batch_in_their_order() {
    let (amounts, destinations) = batch(7).get_checkpoint_values();
    assert_eq!(amounts, vec![Uint256::from(100u64), Uint256::from(250u64), Uint256::from(7u64)]);
    assert_eq!(destinations, vec![eth(0x21), eth(0x22), eth(0x23)]);
    let empty = TransactionBatch { nonce: 1, token_contract: eth(1), transactions: vec![] };
    assert_eq!(empty.get_checkpoint_values(), (vec![], vec![]));
}
