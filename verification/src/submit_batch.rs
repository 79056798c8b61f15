//! Submitting a batch of payouts to the contract exactly once, whoever else
//! is trying to do the same: the call is built, the contract is asked
//! whether the batch is already applied, the call is probed, sent and
//! awaited, and the contract is asked again.
//!
//! The protocol is a state machine. [`send_eth_transaction_batch`] builds it;
//! the caller performs the action that [`BatchRelay::pending`] names and
//! hands what came of it to [`BatchRelay::step`], until the action is
//! [`RelayAction::Finish`].

use crate::abi::abi_encode_call;
use crate::abi::address_views;
use crate::abi::all_encodable;
use crate::abi::encodable;
use crate::abi::encode_call;
use crate::abi::token_views;
use crate::abi::uint_views;
use crate::abi::Token;
use crate::abi::TokenView;
use crate::address::EthAddress;
use crate::error::PeggyError;
use crate::uint256::lemma_from_u64_value;
use crate::uint256::Uint256;
use crate::utils::is_read_call;
use crate::utils::tx_batch_nonce_request;
use crate::utils::u64_views;
use crate::utils::widen_all;
use crate::utils::CallRequest;
use crate::valset::all_signed;
use crate::valset::signature_by;
use crate::valset::BatchConfirmResponse;
use crate::valset::Valset;
use vstd::prelude::*;

verus! {

/// The gas that a batch submission may use, and the estimate above which a
/// submission is suspected to revert.
pub const BATCH_GAS_LIMIT: u64 = 1_000_000;

/// One payout of a batch.
#[derive(Clone, Copy, Debug, PartialEq, Eq)]
pub struct BatchTransaction {
    pub amount: Uint256,
    pub destination: EthAddress,
}

/// A batch of payouts of one token, which the companion chain has
/// authorised under one nonce.
#[derive(Clone, Debug, PartialEq, Eq)]
pub struct TransactionBatch {
    pub nonce: u64,
    pub token_contract: EthAddress,
    pub transactions: Vec<BatchTransaction>,
}

/// The amounts of the payouts, in their order.
pub open spec fn amounts_of(transactions: Seq<BatchTransaction>) -> Seq<Uint256> {
    Seq::new(transactions.len(), |i: int| transactions[i].amount)
}

/// The destinations of the payouts, in their order.
pub open spec fn destinations_of(transactions: Seq<BatchTransaction>) -> Seq<EthAddress> {
    Seq::new(transactions.len(), |i: int| transactions[i].destination)
}

impl TransactionBatch {
    /// The amounts and the destinations of the payouts, in their order.
    pub fn get_checkpoint_values(&self) -> (r: (Vec<Uint256>, Vec<EthAddress>))
        ensures
            r.0@ == amounts_of(self.transactions@),
            r.1@ == destinations_of(self.transactions@),
    {
        let mut amounts: Vec<Uint256> = Vec::new();
        let mut destinations: Vec<EthAddress> = Vec::new();
        let mut i: usize = 0;
        while i < self.transactions.len()
            invariant
                i <= self.transactions.len(),
                amounts@.len() == i,
                destinations@.len() == i,
                forall|j: int| 0 <= j < i ==> amounts@[j] == (#[trigger] self.transactions@[j]).amount,
                forall|j: int|
                    0 <= j < i ==> destinations@[j] == (#[trigger] self.transactions@[j]).destination,
            decreases self.transactions.len() - i,
        {
            let transaction = self.transactions[i];
            amounts.push(transaction.amount);
            destinations.push(transaction.destination);
            i += 1;
        }
        (amounts, destinations)
    }
}

/// The signature of the contract function that applies a batch.
pub open spec fn submit_batch_sig() -> Seq<char> {
    "submitBatch(address[],uint256[],uint256,uint8[],bytes32[],bytes32[],uint256[],address[],uint256,address)"@
}

/// The signature of the contract function that tells the nonce of the last
/// batch applied for a token.
pub open spec fn last_batch_nonce_sig() -> Seq<char> {
    "lastBatchNonce(address)"@
}

/// The arguments of a batch submission, in the order in which the contract
/// takes them: the accounts and powers of the members that count, the nonce
/// of the validator set, the parts v, r and s of their signatures in the
/// same order, the amounts and destinations of the payouts, the nonce of the
/// batch and the token. A part of a signature is a word of 32 bytes, which
/// is encoded as the bytes themselves.
pub open spec fn submit_batch_tokens(
    valset: &Valset,
    confirms: Seq<BatchConfirmResponse>,
    batch: &TransactionBatch,
) -> Seq<TokenView> {
    let signers = valset.live_addresses();
    seq![
        TokenView::AddressArray(address_views(signers)),
        TokenView::UintArray(u64_views(valset.live_powers())),
        TokenView::Uint(valset.nonce as nat),
        TokenView::UintArray(Seq::new(signers.len(), |i: int| signature_by(confirms, signers[i]).v@)),
        TokenView::UintArray(Seq::new(signers.len(), |i: int| signature_by(confirms, signers[i]).r@)),
        TokenView::UintArray(Seq::new(signers.len(), |i: int| signature_by(confirms, signers[i]).s@)),
        TokenView::UintArray(uint_views(amounts_of(batch.transactions@))),
        TokenView::AddressArray(address_views(destinations_of(batch.transactions@))),
        TokenView::Uint(batch.nonce as nat),
        TokenView::Address(batch.token_contract@),
    ]
}

/// How the transport failed.
#[derive(Clone, Copy, Debug, PartialEq, Eq, Structural)]
pub enum TransportError {
    /// No answer came within the time allowed.
    Timeout,
    /// The node could not be reached or refused the request.
    Failed,
}

/// How a submission ended.
#[derive(Clone, Copy, Debug, PartialEq, Eq, Structural)]
pub enum Outcome {
    /// The contract had the batch, or a later one, before anything was sent.
    ShortCircuitSuccess,
    /// The contract has the batch after the transaction was confirmed.
    Verified,
    /// The node refused the transaction: somebody else was probably first.
    SendRefused,
    /// The transaction was confirmed, but the contract does not stand at
    /// this batch: somebody else was first, or the call reverted.
    NotApplied,
    /// Waiting for the confirmation failed or ran out of time.
    ConfirmFailed(TransportError),
    /// Reading the contract's nonce or the gas price failed.
    QueryFailed(TransportError),
    /// The caller handed over something that was not asked for.
    UnexpectedEvent,
}

impl Outcome {
    /// A race that was lost is no error: the batch is applied, or a later
    /// attempt will apply it.
    pub open spec fn is_error_spec(&self) -> bool {
        self is ConfirmFailed || self is QueryFailed || self is UnexpectedEvent
    }

    /// Whether the submission ended with an error that the caller must see.
    pub fn is_error(&self) -> (r: bool)
        ensures
            r == self.is_error_spec(),
    {
        match self {
            Outcome::ConfirmFailed(_) => true,
            Outcome::QueryFailed(_) => true,
            Outcome::UnexpectedEvent => true,
            _ => false,
        }
    }

    /// Whether the contract is known to have the batch.
    pub fn is_applied(&self) -> (r: bool)
        ensures
            r == (self is ShortCircuitSuccess || self is Verified),
    {
        match self {
            Outcome::ShortCircuitSuccess => true,
            Outcome::Verified => true,
            _ => false,
        }
    }
}

/// What the gas estimate said of the call.
#[derive(Clone, Copy, Debug, PartialEq, Eq, Structural)]
pub enum Probe {
    NotRun,
    /// The estimate is within the gas limit.
    Normal,
    /// The estimate is above the gas limit: the call will probably revert.
    TooExpensive,
    /// No estimate could be had.
    Failed,
}

/// How long to wait for a confirmation.
#[derive(Clone, Copy, Debug, PartialEq, Eq, Structural)]
pub struct Timeout {
    pub secs: u64,
    pub nanos: u32,
}

/// Where a submission stands.
#[derive(Clone, Copy, Debug, PartialEq, Eq)]
pub enum RelayState {
    /// The call is built; the contract's nonce is being read.
    Built,
    /// The contract stands below the batch; the gas price is being asked.
    PrecheckPassed,
    /// The gas price is known; the gas estimate is being asked.
    Priced,
    /// The estimate was seen; the transaction is being sent.
    Probed,
    /// The transaction with this id was sent; its confirmation is awaited.
    Submitted(Uint256),
    /// The transaction is confirmed; the contract's nonce is being read
    /// again.
    Confirmed,
    /// The submission has ended.
    Done(Outcome),
}

/// What the caller is to do next.
#[derive(Clone, Copy, Debug, PartialEq, Eq)]
pub enum RelayAction {
    /// Make the read-only call `nonce_query` and hand back the nonce.
    ReadBatchNonce,
    /// Ask the node for the gas price.
    QueryGasPrice,
    /// Ask for a gas estimate of the call with the payload.
    EstimateGas { from: EthAddress, to: EthAddress, value: u64 },
    /// Sign and send the call with the payload, under this gas limit and
    /// this nonce of the sender's account.
    Send { to: EthAddress, value: u64, gas_limit: u64, nonce: Uint256 },
    /// Wait for the transaction to be confirmed, no longer than the timeout.
    AwaitConfirmation { tx: Uint256, timeout: Timeout },
    /// Stop: this is how the submission ended.
    Finish(Outcome),
}

/// What came of an action.
#[derive(Clone, Copy, Debug, PartialEq, Eq)]
pub enum RelayEvent {
    /// The nonce that the contract has recorded for the token.
    BatchNonce(Result<u64, TransportError>),
    GasPrice(Result<Uint256, TransportError>),
    GasEstimate(Result<Uint256, TransportError>),
    /// The id of the transaction that was sent.
    Sent(Result<Uint256, TransportError>),
    Confirmation(Result<(), TransportError>),
}

/// One submission of one batch.
#[derive(Clone, Debug, PartialEq, Eq)]
pub struct BatchRelay {
    pub state: RelayState,
    pub probe: Probe,
    pub batch_nonce: u64,
    pub token_contract: EthAddress,
    pub peggy_contract: EthAddress,
    pub sender: EthAddress,
    pub account_nonce: Uint256,
    pub timeout: Timeout,
    /// The encoded call that applies the batch.
    pub payload: Vec<u8>,
    /// The read-only call that asks for the contract's nonce.
    pub nonce_query: CallRequest,
}

/// Whether a gas estimate is above the limit.
pub fn is_too_expensive(gas: &Uint256) -> (r: bool)
    ensures
        r == (gas@ > BATCH_GAS_LIMIT),
{
    let limit = Uint256::from(BATCH_GAS_LIMIT);
    proof {
        lemma_from_u64_value(BATCH_GAS_LIMIT);
    }
    limit.lt(gas)
}

impl BatchRelay {
    /// The submission in another state.
    pub open spec fn at(self, state: RelayState) -> BatchRelay {
        BatchRelay { state, ..self }
    }

    /// The submission, ended.
    pub open spec fn done(self, outcome: Outcome) -> BatchRelay {
        BatchRelay { state: RelayState::Done(outcome), ..self }
    }

    /// The action that the submission waits for in its state.
    pub open spec fn pending_spec(self) -> RelayAction {
        match self.state {
            RelayState::Built => RelayAction::ReadBatchNonce,
            RelayState::PrecheckPassed => RelayAction::QueryGasPrice,
            RelayState::Priced => RelayAction::EstimateGas {
                from: self.sender,
                to: self.peggy_contract,
                value: 0,
            },
            RelayState::Probed => RelayAction::Send {
                to: self.peggy_contract,
                value: 0,
                gas_limit: BATCH_GAS_LIMIT,
                nonce: self.account_nonce,
            },
            RelayState::Submitted(tx) => RelayAction::AwaitConfirmation { tx, timeout: self.timeout },
            RelayState::Confirmed => RelayAction::ReadBatchNonce,
            RelayState::Done(outcome) => RelayAction::Finish(outcome),
        }
    }

    /// The submission after an event.
    ///
    /// Before anything is sent, a contract that stands at the batch or
    /// beyond ends the submission with success. A gas estimate never stops
    /// it, whatever it says. A refused send ends it without error. After the
    /// confirmation, the contract either stands at the batch, or the race
    /// was lost. A failed query or wait ends it with that error. An ended
    /// submission stays as it is, and an event that was not asked for ends
    /// it.
    pub open spec fn after(self, event: RelayEvent) -> BatchRelay {
        match self.state {
            RelayState::Built => match event {
                RelayEvent::BatchNonce(Ok(recorded)) => if recorded >= self.batch_nonce {
                    self.done(Outcome::ShortCircuitSuccess)
                } else {
                    self.at(RelayState::PrecheckPassed)
                },
                RelayEvent::BatchNonce(Err(e)) => self.done(Outcome::QueryFailed(e)),
                _ => self.done(Outcome::UnexpectedEvent),
            },
            RelayState::PrecheckPassed => match event {
                RelayEvent::GasPrice(Ok(_)) => self.at(RelayState::Priced),
                RelayEvent::GasPrice(Err(e)) => self.done(Outcome::QueryFailed(e)),
                _ => self.done(Outcome::UnexpectedEvent),
            },
            RelayState::Priced => match event {
                RelayEvent::GasEstimate(Ok(gas)) => BatchRelay {
                    state: RelayState::Probed,
                    probe: if gas@ > BATCH_GAS_LIMIT {
                        Probe::TooExpensive
                    } else {
                        Probe::Normal
                    },
                    ..self
                },
                RelayEvent::GasEstimate(Err(_)) => BatchRelay {
                    state: RelayState::Probed,
                    probe: Probe::Failed,
                    ..self
                },
                _ => self.done(Outcome::UnexpectedEvent),
            },
            RelayState::Probed => match event {
                RelayEvent::Sent(Ok(tx)) => self.at(RelayState::Submitted(tx)),
                RelayEvent::Sent(Err(_)) => self.done(Outcome::SendRefused),
                _ => self.done(Outcome::UnexpectedEvent),
            },
            RelayState::Submitted(_) => match event {
                RelayEvent::Confirmation(Ok(_)) => self.at(RelayState::Confirmed),
                RelayEvent::Confirmation(Err(e)) => self.done(Outcome::ConfirmFailed(e)),
                _ => self.done(Outcome::UnexpectedEvent),
            },
            RelayState::Confirmed => match event {
                RelayEvent::BatchNonce(Ok(recorded)) => if recorded == self.batch_nonce {
                    self.done(Outcome::Verified)
                } else {
                    self.done(Outcome::NotApplied)
                },
                RelayEvent::BatchNonce(Err(e)) => self.done(Outcome::QueryFailed(e)),
                _ => self.done(Outcome::UnexpectedEvent),
            },
            RelayState::Done(_) => self,
        }
    }

    /// The action that the submission waits for.
    pub fn pending(&self) -> (action: RelayAction)
        ensures
            action == self.pending_spec(),
    {
        match self.state {
            RelayState::Built => RelayAction::ReadBatchNonce,
            RelayState::PrecheckPassed => RelayAction::QueryGasPrice,
            RelayState::Priced => RelayAction::EstimateGas {
                from: self.sender,
                to: self.peggy_contract,
                value: 0,
            },
            RelayState::Probed => RelayAction::Send {
                to: self.peggy_contract,
                value: 0,
                gas_limit: BATCH_GAS_LIMIT,
                nonce: self.account_nonce,
            },
            RelayState::Submitted(tx) => RelayAction::AwaitConfirmation { tx, timeout: self.timeout },
            RelayState::Confirmed => RelayAction::ReadBatchNonce,
            RelayState::Done(outcome) => RelayAction::Finish(outcome),
        }
    }

    /// Takes what came of the pending action, moves the submission on and
    /// gives the next action.
    pub fn step(&mut self, event: RelayEvent) -> (action: RelayAction)
        ensures
            *final(self) == old(self).after(event),
            action == final(self).pending_spec(),
    {
        let unexpected = RelayState::Done(Outcome::UnexpectedEvent);
        match self.state {
            RelayState::Built => {
                self.state = match event {
                    RelayEvent::BatchNonce(Ok(recorded)) => if recorded >= self.batch_nonce {
                        RelayState::Done(Outcome::ShortCircuitSuccess)
                    } else {
                        RelayState::PrecheckPassed
                    },
                    RelayEvent::BatchNonce(Err(e)) => RelayState::Done(Outcome::QueryFailed(e)),
                    _ => unexpected,
                };
            },
            RelayState::PrecheckPassed => {
                self.state = match event {
                    RelayEvent::GasPrice(Ok(_)) => RelayState::Priced,
                    RelayEvent::GasPrice(Err(e)) => RelayState::Done(Outcome::QueryFailed(e)),
                    _ => unexpected,
                };
            },
            RelayState::Priced => {
                match event {
                    RelayEvent::GasEstimate(Ok(gas)) => {
                        self.probe = if is_too_expensive(&gas) {
                            Probe::TooExpensive
                        } else {
                            Probe::Normal
                        };
                        self.state = RelayState::Probed;
                    },
                    RelayEvent::GasEstimate(Err(_)) => {
                        self.probe = Probe::Failed;
                        self.state = RelayState::Probed;
                    },
                    _ => {
                        self.state = unexpected;
                    },
                }
            },
            RelayState::Probed => {
                self.state = match event {
                    RelayEvent::Sent(Ok(tx)) => RelayState::Submitted(tx),
                    RelayEvent::Sent(Err(_)) => RelayState::Done(Outcome::SendRefused),
                    _ => unexpected,
                };
            },
            RelayState::Submitted(_) => {
                self.state = match event {
                    RelayEvent::Confirmation(Ok(_)) => RelayState::Confirmed,
                    RelayEvent::Confirmation(Err(e)) => RelayState::Done(Outcome::ConfirmFailed(e)),
                    _ => unexpected,
                };
            },
            RelayState::Confirmed => {
                self.state = match event {
                    RelayEvent::BatchNonce(Ok(recorded)) => if recorded == self.batch_nonce {
                        RelayState::Done(Outcome::Verified)
                    } else {
                        RelayState::Done(Outcome::NotApplied)
                    },
                    RelayEvent::BatchNonce(Err(e)) => RelayState::Done(Outcome::QueryFailed(e)),
                    _ => unexpected,
                };
            },
            RelayState::Done(_) => {},
        }
        self.pending()
    }
}

/// The submission after a sequence of events, one after the other.
pub open spec fn run(relay: BatchRelay, events: Seq<RelayEvent>) -> BatchRelay
    decreases events.len(),
{
    if events.len() == 0 {
        relay
    } else {
        run(relay.after(events.first()), events.drop_first())
    }
}

/// How many times a run asks the caller to send the transaction: at its
/// start and after each of its events.
pub open spec fn sends_in_run(relay: BatchRelay, events: Seq<RelayEvent>) -> nat
    decreases events.len(),
{
    let here: nat = if relay.pending_spec() is Send {
        1
    } else {
        0
    };
    if events.len() == 0 {
        here
    } else {
        here + sends_in_run(relay.after(events.first()), events.drop_first())
    }
}

/// How far a submission has come.
pub open spec fn progress(state: RelayState) -> nat {
    match state {
        RelayState::Built => 0,
        RelayState::PrecheckPassed => 1,
        RelayState::Priced => 2,
        RelayState::Probed => 3,
        RelayState::Submitted(_) => 4,
        RelayState::Confirmed => 5,
        RelayState::Done(_) => 6,
    }
}

/// An event moves a submission forward, or leaves it ended; it changes
/// nothing of it but the state and what the probe said.
pub proof fn lemma_step_moves_forward(relay: BatchRelay, event: RelayEvent)
    ensures
        relay.state is Done ==> relay.after(event) == relay,
        !(relay.state is Done) ==> progress(relay.after(event).state) > progress(relay.state),
        relay.after(event) == (BatchRelay {
            state: relay.after(event).state,
            probe: relay.after(event).probe,
            ..relay
        }),
{
}

/// Whatever the caller hands over, a submission asks for the transaction to
/// be sent at most once, and never once it is past that point.
pub proof fn lemma_at_most_one_send(relay: BatchRelay, events: Seq<RelayEvent>)
    ensures
        sends_in_run(relay, events) <= 1,
        progress(relay.state) > 3 ==> sends_in_run(relay, events) == 0,
    decreases events.len(),
{
    if events.len() > 0 {
        lemma_step_moves_forward(relay, events.first());
        lemma_at_most_one_send(relay.after(events.first()), events.drop_first());
    }
}

/// A submission that finds the contract at its batch or beyond before
/// anything is sent ends with success and sends nothing, whatever comes
/// after.
pub proof fn lemma_precheck_short_circuits(relay: BatchRelay, recorded: u64, later: Seq<RelayEvent>)
    requires
        relay.state == RelayState::Built,
        recorded >= relay.batch_nonce,
    ensures
        relay.after(RelayEvent::BatchNonce(Ok(recorded))).state == RelayState::Done(
            Outcome::ShortCircuitSuccess,
        ),
        run(relay, seq![RelayEvent::BatchNonce(Ok(recorded))] + later).state == RelayState::Done(
            Outcome::ShortCircuitSuccess,
        ),
        sends_in_run(relay, seq![RelayEvent::BatchNonce(Ok(recorded))] + later) == 0,
{
    let first = RelayEvent::BatchNonce(Ok(recorded));
    let events = seq![first] + later;
    let ended = relay.after(first);
    assert(events.drop_first() =~= later);
    lemma_at_most_one_send(ended, later);
    lemma_run_of_ended(ended, later);
}

/// An ended submission stays as it is.
pub proof fn lemma_run_of_ended(relay: BatchRelay, events: Seq<RelayEvent>)
    requires
        relay.state is Done,
    ensures
        run(relay, events) == relay,
    decreases events.len(),
{
    if events.len() > 0 {
        lemma_run_of_ended(relay.after(events.first()), events.drop_first());
    }
}

/// Submitting a batch twice. Where the first submission ended with the
/// contract at the batch, and the contract's nonce has not gone back since,
/// a second submission of a batch with that nonce ends at its first reading
/// of the contract, with success, and sends nothing.
pub proof fn lemma_resubmission_sends_nothing(
    first: BatchRelay,
    recorded_first: u64,
    second: BatchRelay,
    recorded_second: u64,
    later: Seq<RelayEvent>,
)
    requires
        first.state == RelayState::Confirmed,
        first.after(RelayEvent::BatchNonce(Ok(recorded_first))).state == RelayState::Done(
            Outcome::Verified,
        ),
        second.state == RelayState::Built,
        second.batch_nonce == first.batch_nonce,
        recorded_second >= recorded_first,
    ensures
        run(second, seq![RelayEvent::BatchNonce(Ok(recorded_second))] + later).state
            == RelayState::Done(Outcome::ShortCircuitSuccess),
        sends_in_run(second, seq![RelayEvent::BatchNonce(Ok(recorded_second))] + later) == 0,
{
    lemma_precheck_short_circuits(second, recorded_second, later);
}

/// Whether `relay` is the submission of `batch` as it stands when it is
/// built: nothing done yet, and the two calls encoded.
pub open spec fn is_built(
    relay: BatchRelay,
    current_valset: &Valset,
    batch: &TransactionBatch,
    confirms: Seq<BatchConfirmResponse>,
    timeout: Timeout,
    peggy_contract_address: EthAddress,
    our_eth_address: EthAddress,
    nonce: Uint256,
) -> bool {
    &&& relay.state == RelayState::Built
    &&& relay.probe == Probe::NotRun
    &&& relay.batch_nonce == batch.nonce
    &&& relay.token_contract == batch.token_contract
    &&& relay.peggy_contract == peggy_contract_address
    &&& relay.sender == our_eth_address
    &&& relay.account_nonce == nonce
    &&& relay.timeout == timeout
    &&& abi_encode_call(submit_batch_sig(), submit_batch_tokens(current_valset, confirms, batch))
        == Some(relay.payload@)
    &&& is_read_call(
        Ok(relay.nonce_query),
        peggy_contract_address,
        last_batch_nonce_sig(),
        seq![TokenView::Address(batch.token_contract@)],
    )
}

/// Builds the submission of a batch under the current validator set: the
/// call that applies the batch, with the signatures in the order of the
/// members that count, and the call that reads the contract's nonce. Every
/// member that counts must have signed. Nothing is sent: the submission
/// starts in [`RelayState::Built`]. It fails only where the encoder refuses
/// one of the two calls.
pub fn send_eth_transaction_batch(
    current_valset: &Valset,
    batch: &TransactionBatch,
    confirms: &[BatchConfirmResponse],
    timeout: Timeout,
    peggy_contract_address: EthAddress,
    our_eth_address: EthAddress,
    nonce: Uint256,
) -> (r: Result<BatchRelay, PeggyError>)
    requires
        all_signed(confirms@, current_valset.live_addresses()),
    ensures
        match r {
            Ok(relay) => is_built(
                relay,
                current_valset,
                batch,
                confirms@,
                timeout,
                peggy_contract_address,
                our_eth_address,
                nonce,
            ),
            Err(e) => {
                &&& e == PeggyError::InvalidCall
                &&& (abi_encode_call(
                    submit_batch_sig(),
                    submit_batch_tokens(current_valset, confirms@, batch),
                ) is None || abi_encode_call(
                    last_batch_nonce_sig(),
                    seq![TokenView::Address(batch.token_contract@)],
                ) is None)
            },
        },
{
    let (current_addresses, current_powers) = current_valset.filter_empty_addresses();
    let sig_arrays = current_valset.assemble(confirms);
    let (amounts, destinations) = batch.get_checkpoint_values();
    let power_words = widen_all(&current_powers);
    let valset_nonce = Uint256::from(current_valset.nonce);
    let batch_nonce = Uint256::from(batch.nonce);
    let mut tokens: Vec<Token> = Vec::new();
    tokens.push(Token::AddressArray(current_addresses));
    tokens.push(Token::UintArray(power_words));
    tokens.push(Token::Uint(valset_nonce));
    tokens.push(Token::UintArray(sig_arrays.v));
    tokens.push(Token::UintArray(sig_arrays.r));
    tokens.push(Token::UintArray(sig_arrays.s));
    tokens.push(Token::UintArray(amounts));
    tokens.push(Token::AddressArray(destinations));
    tokens.push(Token::Uint(batch_nonce));
    tokens.push(Token::Address(batch.token_contract));
    proof {
        reveal_strlit(
            "submitBatch(address[],uint256[],uint256,uint8[],bytes32[],bytes32[],uint256[],address[],uint256,address)",
        );
        lemma_from_u64_value(current_valset.nonce);
        lemma_from_u64_value(batch.nonce);
        let views = token_views(tokens@);
        let expected = submit_batch_tokens(current_valset, confirms@, batch);
        assert(views[3] == expected[3]) by {
            assert(uint_views(sig_arrays.v@) =~= expected[3]->UintArray_0);
        }
        assert(views[4] == expected[4]) by {
            assert(uint_views(sig_arrays.r@) =~= expected[4]->UintArray_0);
        }
        assert(views[5] == expected[5]) by {
            assert(uint_views(sig_arrays.s@) =~= expected[5]->UintArray_0);
        }
        assert(views =~= expected);
        assert forall|i: int| 0 <= i < views.len() implies encodable(#[trigger] views[i]) by {}
    }
    let payload = match encode_call(
        "submitBatch(address[],uint256[],uint256,uint8[],bytes32[],bytes32[],uint256[],address[],uint256,address)",
        &tokens,
    ) {
        Ok(payload) => payload,
        Err(_) => {
            return Err(PeggyError::InvalidCall);
        },
    };
    let nonce_query = match tx_batch_nonce_request(peggy_contract_address, batch.token_contract) {
        Ok(query) => query,
        Err(e) => {
            return Err(e);
        },
    };
    Ok(
        BatchRelay {
            state: RelayState::Built,
            probe: Probe::NotRun,
            batch_nonce: batch.nonce,
            token_contract: batch.token_contract,
            peggy_contract: peggy_contract_address,
            sender: our_eth_address,
            account_nonce: nonce,
            timeout,
            payload,
            nonce_query,
        },
    )
}

} // verus!
