//! The messages that an orchestrator sends to the companion chain, and the
//! claims that are made of the events seen on the EVM chain.

use crate::address::CosmosAddress;
use crate::address::EthAddress;
use crate::uint256::downcast_nonce;
use crate::uint256::lemma_from_u64_value;
use crate::uint256::u64_word;
use crate::uint256::Uint256;
use std::cmp::Ordering;
use vstd::prelude::*;
use vstd::seq_lib::to_multiset_insert;
use vstd::std_specs::cmp::PartialEqSpecImpl;
use vstd::std_specs::cmp::PartialOrdSpecImpl;

verus! {

/// The nonce that stands for "none" in a message that is no claim: the
/// largest nonce that a claim can carry, so that no claim comes after such a
/// message. It only serves to give every message a place in an order; it is
/// no event.
pub const NO_EVENT_NONCE: u64 = u64::MAX;

/// An amount of a token of the companion chain.
#[derive(Clone, Debug, PartialEq, Eq, PartialOrd, Hash, Default)]
pub struct Coin {
    pub amount: Uint256,
    pub denom: String,
}

/// An amount of a token of the EVM chain.
#[derive(Clone, Copy, Debug, PartialEq, Eq, PartialOrd, Hash, Default)]
pub struct ERC20Token {
    pub amount: Uint256,
    pub token_contract_address: EthAddress,
}

/// A deposit on the EVM chain for an account of the companion chain.
#[derive(Clone, Debug, PartialEq, Eq)]
pub struct SendToCosmosEvent {
    pub erc20: EthAddress,
    pub sender: EthAddress,
    pub destination: CosmosAddress,
    pub amount: Uint256,
    pub event_nonce: Uint256,
    pub tx_hash: String,
}

/// A deposit on the EVM chain for a minter.
#[derive(Clone, Debug, PartialEq, Eq)]
pub struct SendToMinterEvent {
    pub erc20: EthAddress,
    pub sender: EthAddress,
    pub destination: String,
    pub amount: Uint256,
    pub event_nonce: Uint256,
    pub tx_hash: String,
}

/// The execution of a batch on the EVM chain.
#[derive(Clone, Debug, PartialEq, Eq)]
pub struct TransactionBatchExecutedEvent {
    pub batch_nonce: Uint256,
    pub erc20: EthAddress,
    pub event_nonce: Uint256,
    pub sender: EthAddress,
    pub tx_hash: String,
}

/// This message sets both the Cosmos and Ethereum address being delegated
/// for orchestrator operations.
#[derive(Clone, Debug, PartialEq, Eq, PartialOrd, Hash, Default)]
pub struct SetOrchestratorAddressMsg {
    /// the Ethereum address being delegated to
    pub eth_address: EthAddress,
    /// the valoper address
    pub validator: String,
    /// the Cosmos address being delegated to
    pub orchestrator: CosmosAddress,
}

/// A validator set confirmation signature.
#[derive(Clone, Debug, PartialEq, Eq, PartialOrd, Hash, Default)]
pub struct ValsetConfirmMsg {
    pub orchestrator: CosmosAddress,
    pub eth_address: EthAddress,
    pub nonce: Uint256,
    pub eth_signature: String,
}

/// Moves funds from the companion chain to the EVM chain.
#[derive(Clone, Debug, PartialEq, Eq, PartialOrd, Hash, Default)]
pub struct SendToEthMsg {
    pub sender: CosmosAddress,
    pub eth_dest: EthAddress,
    pub amount: Coin,
    pub bridge_fee: Coin,
}

/// Moves funds from the companion chain to a minter.
#[derive(Clone, Debug, PartialEq, Eq, PartialOrd, Hash, Default)]
pub struct SendToMinterMsg {
    pub sender: CosmosAddress,
    pub minter_dest: String,
    pub amount: Coin,
}

/// Asks the companion chain to make a batch of the payouts of one token.
#[derive(Clone, Debug, PartialEq, Eq, PartialOrd, Hash, Default)]
pub struct RequestBatchMsg {
    pub orchestrator: CosmosAddress,
    pub denom: String,
}

/// Asks the minter to make a batch.
#[derive(Clone, Debug, PartialEq, Eq, PartialOrd, Hash, Default)]
pub struct RequestMinterBatchMsg {
    pub requester: CosmosAddress,
}

/// A batch confirmation signature.
#[derive(Clone, Debug, PartialEq, Eq, PartialOrd, Hash, Default)]
pub struct ConfirmBatchMsg {
    pub nonce: Uint256,
    pub orchestrator: CosmosAddress,
    pub token_contract: EthAddress,
    pub eth_signer: EthAddress,
    /// a hex encoded string representing the Ethereum signature
    pub eth_signature: String,
}

/// A deposit, as one entry of a message that carries several claims. It
/// keeps the nonce of the event as wide as it came.
#[derive(Clone, Copy, Debug, PartialEq, Eq, PartialOrd, Hash, Default)]
pub struct EthereumBridgeDepositClaim {
    pub event_nonce: Uint256,
    pub erc20_token: ERC20Token,
    pub ethereum_sender: EthAddress,
    pub cosmos_receiver: CosmosAddress,
}

impl EthereumBridgeDepositClaim {
    /// The entry for a deposit.
    pub fn from_event(input: SendToCosmosEvent) -> (claim: Self)
        ensures
            claim == (EthereumBridgeDepositClaim {
                erc20_token: ERC20Token {
                    amount: input.amount,
                    token_contract_address: input.erc20,
                },
                ethereum_sender: input.sender,
                cosmos_receiver: input.destination,
                event_nonce: input.event_nonce,
            }),
    {
        EthereumBridgeDepositClaim {
            erc20_token: ERC20Token { amount: input.amount, token_contract_address: input.erc20 },
            ethereum_sender: input.sender,
            cosmos_receiver: input.destination,
            event_nonce: input.event_nonce,
        }
    }

    /// The entry as a claim of either kind.
    pub fn into_enum(self) -> (claim: EthereumBridgeClaim)
        ensures
            claim == EthereumBridgeClaim::EthereumBridgeDepositClaim(self),
    {
        EthereumBridgeClaim::EthereumBridgeDepositClaim(self)
    }
}

/// An executed batch, as one entry of a message that carries several
/// claims. It keeps the nonces of the event as wide as they came.
#[derive(Clone, Copy, Debug, PartialEq, Eq, PartialOrd, Hash, Default)]
pub struct EthereumBridgeWithdrawBatchClaim {
    pub batch_nonce: Uint256,
    pub event_nonce: Uint256,
    pub erc20_token: EthAddress,
    pub sender: EthAddress,
}

impl EthereumBridgeWithdrawBatchClaim {
    /// The entry for an executed batch.
    pub fn from_event(input: TransactionBatchExecutedEvent) -> (claim: Self)
        ensures
            claim == (EthereumBridgeWithdrawBatchClaim {
                batch_nonce: input.batch_nonce,
                event_nonce: input.event_nonce,
                erc20_token: input.erc20,
                sender: input.sender,
            }),
    {
        EthereumBridgeWithdrawBatchClaim {
            batch_nonce: input.batch_nonce,
            event_nonce: input.event_nonce,
            erc20_token: input.erc20,
            sender: input.sender,
        }
    }

    /// The entry as a claim of either kind.
    pub fn into_enum(self) -> (claim: EthereumBridgeClaim)
        ensures
            claim == EthereumBridgeClaim::EthereumBridgeWithdrawBatchClaim(self),
    {
        EthereumBridgeClaim::EthereumBridgeWithdrawBatchClaim(self)
    }
}

/// One entry of a message that carries several claims.
#[derive(Clone, Copy, Debug, PartialEq, Eq, PartialOrd, Hash)]
pub enum EthereumBridgeClaim {
    EthereumBridgeDepositClaim(EthereumBridgeDepositClaim),
    EthereumBridgeWithdrawBatchClaim(EthereumBridgeWithdrawBatchClaim),
}

/// Several claims about one bridge contract in one message.
#[derive(Clone, Debug, PartialEq, Eq, PartialOrd, Hash, Default)]
pub struct CreateEthereumClaimsMsg {
    pub ethereum_chain_id: Uint256,
    pub bridge_contract_address: EthAddress,
    pub orchestrator: CosmosAddress,
    pub deposits: Vec<EthereumBridgeClaim>,
    pub withdraws: Vec<EthereumBridgeClaim>,
}

/// Narrows a nonce that is known to be below 2^64 and widens it again: the
/// word is the one that went in.
fn renarrow(nonce: Uint256) -> (r: Uint256)
    requires
        nonce@ <= u64::MAX,
    ensures
        r == nonce,
{
    let narrowed = downcast_nonce(nonce).unwrap();
    let r = Uint256::from(narrowed);
    proof {
        lemma_from_u64_value(narrowed);
        r.lemma_equal_values(nonce);
    }
    r
}

/// The claim that a batch was executed on the EVM chain.
#[derive(Clone, Debug, PartialEq, Eq, PartialOrd, Hash, Default)]
pub struct WithdrawClaimMsg {
    pub event_nonce: Uint256,
    pub batch_nonce: Uint256,
    pub token_contract: EthAddress,
    pub orchestrator: CosmosAddress,
    pub tx_sender: EthAddress,
    pub tx_hash: String,
}

impl WithdrawClaimMsg {
    /// The claim for an executed batch, sent by the orchestrator `sender`.
    /// Both nonces must be below 2^64: a larger nonce halts the bridge.
    pub fn from_event(input: TransactionBatchExecutedEvent, sender: CosmosAddress) -> (claim: Self)
        requires
            input.event_nonce@ <= u64::MAX,
            input.batch_nonce@ <= u64::MAX,
        ensures
            claim == (WithdrawClaimMsg {
                event_nonce: input.event_nonce,
                batch_nonce: input.batch_nonce,
                token_contract: input.erc20,
                orchestrator: sender,
                tx_sender: input.sender,
                tx_hash: input.tx_hash,
            }),
    {
        WithdrawClaimMsg {
            event_nonce: renarrow(input.event_nonce),
            batch_nonce: renarrow(input.batch_nonce),
            token_contract: input.erc20,
            orchestrator: sender,
            tx_sender: input.sender,
            tx_hash: input.tx_hash,
        }
    }
}

/// The claim that a deposit for the companion chain was made on the EVM
/// chain.
#[derive(Clone, Debug, PartialEq, Eq, PartialOrd, Hash, Default)]
pub struct DepositClaimMsg {
    pub event_nonce: Uint256,
    pub token_contract: EthAddress,
    pub amount: Uint256,
    pub ethereum_sender: EthAddress,
    pub cosmos_receiver: CosmosAddress,
    pub orchestrator: CosmosAddress,
    pub tx_hash: String,
}

impl DepositClaimMsg {
    /// The claim for a deposit, sent by the orchestrator `sender`. The
    /// nonce must be below 2^64: a larger nonce halts the bridge.
    pub fn from_event(input: SendToCosmosEvent, sender: CosmosAddress) -> (claim: Self)
        requires
            input.event_nonce@ <= u64::MAX,
        ensures
            claim == (DepositClaimMsg {
                event_nonce: input.event_nonce,
                amount: input.amount,
                token_contract: input.erc20,
                ethereum_sender: input.sender,
                cosmos_receiver: input.destination,
                orchestrator: sender,
                tx_hash: input.tx_hash,
            }),
    {
        DepositClaimMsg {
            event_nonce: renarrow(input.event_nonce),
            amount: input.amount,
            token_contract: input.erc20,
            ethereum_sender: input.sender,
            cosmos_receiver: input.destination,
            orchestrator: sender,
            tx_hash: input.tx_hash,
        }
    }
}

/// The claim that a deposit for a minter was made on the EVM chain.
#[derive(Clone, Debug, PartialEq, Eq, PartialOrd, Hash, Default)]
pub struct SendToMinterClaimMsg {
    pub event_nonce: Uint256,
    pub token_contract: EthAddress,
    pub amount: Uint256,
    pub ethereum_sender: EthAddress,
    pub minter_receiver: String,
    pub orchestrator: CosmosAddress,
    pub tx_hash: String,
}

impl SendToMinterClaimMsg {
    /// The claim for a deposit to a minter, sent by the orchestrator
    /// `sender`. The nonce must be below 2^64: a larger nonce halts the
    /// bridge.
    pub fn from_event(input: SendToMinterEvent, sender: CosmosAddress) -> (claim: Self)
        requires
            input.event_nonce@ <= u64::MAX,
        ensures
            claim == (SendToMinterClaimMsg {
                event_nonce: input.event_nonce,
                amount: input.amount,
                token_contract: input.erc20,
                ethereum_sender: input.sender,
                minter_receiver: input.destination,
                orchestrator: sender,
                tx_hash: input.tx_hash,
            }),
    {
        SendToMinterClaimMsg {
            event_nonce: renarrow(input.event_nonce),
            amount: input.amount,
            token_contract: input.erc20,
            ethereum_sender: input.sender,
            minter_receiver: input.destination,
            orchestrator: sender,
            tx_hash: input.tx_hash,
        }
    }
}

/// Any message to the companion chain.
#[derive(Clone, Debug, Eq)]
pub enum PeggyMsg {
    SetOrchestratorAddressMsg(SetOrchestratorAddressMsg),
    ValsetConfirmMsg(ValsetConfirmMsg),
    SendToEthMsg(SendToEthMsg),
    RequestBatchMsg(RequestBatchMsg),
    ConfirmBatchMsg(ConfirmBatchMsg),
    CreateEthereumClaimsMsg(CreateEthereumClaimsMsg),
    DepositClaimMsg(DepositClaimMsg),
    SendToMinterClaimMsg(SendToMinterClaimMsg),
    WithdrawClaimMsg(WithdrawClaimMsg),
    SendToMinterMsg(SendToMinterMsg),
    RequestMinterBatchMsg(RequestMinterBatchMsg),
}

impl PeggyMsg {
    /// Whether the message claims that an event happened on the EVM chain.
    pub open spec fn is_claim_spec(&self) -> bool {
        self is DepositClaimMsg || self is SendToMinterClaimMsg || self is WithdrawClaimMsg
    }

    /// Whether the message claims that an event happened on the EVM chain.
    pub fn is_claim(&self) -> (r: bool)
        ensures
            r == self.is_claim_spec(),
    {
        match self {
            PeggyMsg::DepositClaimMsg(_) => true,
            PeggyMsg::SendToMinterClaimMsg(_) => true,
            PeggyMsg::WithdrawClaimMsg(_) => true,
            _ => false,
        }
    }

    /// The nonce of the event that a claim is about; for a message that is
    /// no claim, [`NO_EVENT_NONCE`].
    pub open spec fn event_nonce_spec(&self) -> Uint256 {
        match self {
            PeggyMsg::DepositClaimMsg(msg) => msg.event_nonce,
            PeggyMsg::SendToMinterClaimMsg(msg) => msg.event_nonce,
            PeggyMsg::WithdrawClaimMsg(msg) => msg.event_nonce,
            _ => u64_word(NO_EVENT_NONCE),
        }
    }

    /// The nonce of the event that a claim is about; for a message that is
    /// no claim, [`NO_EVENT_NONCE`].
    pub fn event_nonce(&self) -> (nonce: Uint256)
        ensures
            nonce == self.event_nonce_spec(),
    {
        match self {
            PeggyMsg::DepositClaimMsg(msg) => msg.event_nonce,
            PeggyMsg::SendToMinterClaimMsg(msg) => msg.event_nonce,
            PeggyMsg::WithdrawClaimMsg(msg) => msg.event_nonce,
            _ => Uint256::from(NO_EVENT_NONCE),
        }
    }
}

/// Every message that is no claim has one and the same nonce, whatever it
/// holds, and no nonce below 2^64 is above it: such a message never comes
/// before a claim that a claim builder has made.
pub proof fn lemma_sentinel_is_maximal(msg: PeggyMsg, n: Uint256)
    requires
        !msg.is_claim_spec(),
        n@ <= u64::MAX,
    ensures
        msg.event_nonce_spec() == u64_word(NO_EVENT_NONCE),
        msg.event_nonce_spec()@ == u64::MAX,
        msg.event_nonce_spec()@ >= n@,
{
    lemma_from_u64_value(NO_EVENT_NONCE);
}

/// Two messages are equal where their event nonces are: the order of
/// messages looks at nothing else.
impl PartialEq for PeggyMsg {
    fn eq(&self, other: &Self) -> (r: bool) {
        self.event_nonce().same_as(&other.event_nonce())
    }
}

impl PartialEqSpecImpl for PeggyMsg {
    open spec fn obeys_eq_spec() -> bool {
        true
    }

    open spec fn eq_spec(&self, other: &Self) -> bool {
        self.event_nonce_spec() == other.event_nonce_spec()
    }
}

/// Messages are ordered by their event nonces, smallest first.
impl PartialOrd for PeggyMsg {
    fn partial_cmp(&self, other: &Self) -> (r: Option<Ordering>) {
        let mine = self.event_nonce();
        let theirs = other.event_nonce();
        if mine.lt(&theirs) {
            Some(Ordering::Less)
        } else if theirs.lt(&mine) {
            Some(Ordering::Greater)
        } else {
            proof {
                mine.lemma_equal_values(theirs);
            }
            Some(Ordering::Equal)
        }
    }
}

impl PartialOrdSpecImpl for PeggyMsg {
    open spec fn obeys_partial_cmp_spec() -> bool {
        true
    }

    open spec fn partial_cmp_spec(&self, other: &Self) -> Option<Ordering> {
        if self.event_nonce_spec()@ < other.event_nonce_spec()@ {
            Some(Ordering::Less)
        } else if other.event_nonce_spec()@ < self.event_nonce_spec()@ {
            Some(Ordering::Greater)
        } else {
            Some(Ordering::Equal)
        }
    }
}

/// An event seen on the EVM chain.
#[derive(Clone, Debug, PartialEq, Eq)]
pub enum BridgeEvent {
    SendToCosmos(SendToCosmosEvent),
    SendToMinter(SendToMinterEvent),
    TransactionBatchExecuted(TransactionBatchExecutedEvent),
}

impl BridgeEvent {
    /// The nonce of the event.
    pub open spec fn event_nonce_spec(&self) -> Uint256 {
        match self {
            BridgeEvent::SendToCosmos(event) => event.event_nonce,
            BridgeEvent::SendToMinter(event) => event.event_nonce,
            BridgeEvent::TransactionBatchExecuted(event) => event.event_nonce,
        }
    }

    /// Whether every nonce of the event is below 2^64, so that a claim can
    /// carry it.
    pub open spec fn narrowable(&self) -> bool {
        match self {
            BridgeEvent::SendToCosmos(event) => event.event_nonce@ <= u64::MAX,
            BridgeEvent::SendToMinter(event) => event.event_nonce@ <= u64::MAX,
            BridgeEvent::TransactionBatchExecuted(event) => event.event_nonce@ <= u64::MAX
                && event.batch_nonce@ <= u64::MAX,
        }
    }

    /// The claim that the orchestrator makes of the event.
    pub open spec fn claim(self, orchestrator: CosmosAddress) -> PeggyMsg {
        match self {
            BridgeEvent::SendToCosmos(event) => PeggyMsg::DepositClaimMsg(
                DepositClaimMsg {
                    event_nonce: event.event_nonce,
                    amount: event.amount,
                    token_contract: event.erc20,
                    ethereum_sender: event.sender,
                    cosmos_receiver: event.destination,
                    orchestrator,
                    tx_hash: event.tx_hash,
                },
            ),
            BridgeEvent::SendToMinter(event) => PeggyMsg::SendToMinterClaimMsg(
                SendToMinterClaimMsg {
                    event_nonce: event.event_nonce,
                    amount: event.amount,
                    token_contract: event.erc20,
                    ethereum_sender: event.sender,
                    minter_receiver: event.destination,
                    orchestrator,
                    tx_hash: event.tx_hash,
                },
            ),
            BridgeEvent::TransactionBatchExecuted(event) => PeggyMsg::WithdrawClaimMsg(
                WithdrawClaimMsg {
                    event_nonce: event.event_nonce,
                    batch_nonce: event.batch_nonce,
                    token_contract: event.erc20,
                    orchestrator,
                    tx_sender: event.sender,
                    tx_hash: event.tx_hash,
                },
            ),
        }
    }

    /// Whether every nonce of the event is below 2^64.
    pub fn is_narrowable(&self) -> (r: bool)
        ensures
            r == self.narrowable(),
    {
        match self {
            BridgeEvent::SendToCosmos(event) => downcast_nonce(event.event_nonce).is_some(),
            BridgeEvent::SendToMinter(event) => downcast_nonce(event.event_nonce).is_some(),
            BridgeEvent::TransactionBatchExecuted(event) => downcast_nonce(
                event.event_nonce,
            ).is_some() && downcast_nonce(event.batch_nonce).is_some(),
        }
    }
}

/// Translates an event into the claim that the orchestrator makes of it.
/// The claim carries the nonces of the event; every nonce must be below
/// 2^64, since a larger nonce halts the bridge.
pub fn translate(event: BridgeEvent, orchestrator: CosmosAddress) -> (msg: PeggyMsg)
    requires
        event.narrowable(),
    ensures
        msg == event.claim(orchestrator),
        msg.event_nonce_spec() == event.event_nonce_spec(),
{
    match event {
        BridgeEvent::SendToCosmos(event) => PeggyMsg::DepositClaimMsg(
            DepositClaimMsg::from_event(event, orchestrator),
        ),
        BridgeEvent::SendToMinter(event) => PeggyMsg::SendToMinterClaimMsg(
            SendToMinterClaimMsg::from_event(event, orchestrator),
        ),
        BridgeEvent::TransactionBatchExecuted(event) => PeggyMsg::WithdrawClaimMsg(
            WithdrawClaimMsg::from_event(event, orchestrator),
        ),
    }
}

/// The claims of a sequence of events, one for one.
pub open spec fn claims_of(events: Seq<BridgeEvent>, orchestrator: CosmosAddress) -> Seq<PeggyMsg> {
    Seq::new(events.len(), |i: int| events[i].claim(orchestrator))
}

/// Whether no message comes before one with a smaller event nonce.
pub open spec fn sorted_by_event_nonce(msgs: Seq<PeggyMsg>) -> bool {
    forall|i: int, j: int|
        0 <= i <= j < msgs.len() ==> (#[trigger] msgs[i]).event_nonce_spec()@ <= (
        #[trigger] msgs[j]).event_nonce_spec()@
}

/// Translates the events into the stream of claims that the companion chain
/// takes: one claim for each event, sorted by event nonce, smallest first.
/// Every nonce must be below 2^64.
pub fn translate_all(events: Vec<BridgeEvent>, orchestrator: CosmosAddress) -> (claims: Vec<
    PeggyMsg,
>)
    requires
        forall|i: int| 0 <= i < events@.len() ==> (#[trigger] events@[i]).narrowable(),
    ensures
        claims@.len() == events@.len(),
        sorted_by_event_nonce(claims@),
        claims@.to_multiset() == claims_of(events@, orchestrator).to_multiset(),
{
    let ghost all = events@;
    let mut events = events;
    let mut claims: Vec<PeggyMsg> = Vec::new();
    assert(claims_of(all.skip(all.len() as int), orchestrator) =~= claims@);
    while events.len() > 0
        invariant
            events@.len() <= all.len(),
            events@ == all.take(events@.len() as int),
            claims@.len() + events@.len() == all.len(),
            sorted_by_event_nonce(claims@),
            claims@.to_multiset() == claims_of(
                all.skip(events@.len() as int),
                orchestrator,
            ).to_multiset(),
            forall|i: int| 0 <= i < all.len() ==> (#[trigger] all[i]).narrowable(),
        decreases events@.len(),
    {
        let ghost before = claims@;
        let ghost k = events@.len() - 1;
        let event = events.pop().unwrap();
        let msg = translate(event, orchestrator);
        let nonce = msg.event_nonce();
        let mut pos: usize = 0;
        let mut searching = true;
        while searching && pos < claims.len()
            invariant
                pos <= claims@.len(),
                claims@ == before,
                forall|j: int|
                    0 <= j < pos ==> (#[trigger] claims@[j]).event_nonce_spec()@ < nonce@,
                !searching ==> pos < claims@.len() && claims@[pos as int].event_nonce_spec()@
                    >= nonce@,
            decreases claims@.len() - pos + (if searching { 1int } else { 0int }),
        {
            if claims[pos].event_nonce().lt(&nonce) {
                pos += 1;
            } else {
                searching = false;
            }
        }
        claims.insert(pos, msg);
        proof {
            to_multiset_insert(before, pos as int, msg);
            let done = claims_of(all.skip(k + 1), orchestrator);
            let now = claims_of(all.skip(k), orchestrator);
            assert(now =~= done.insert(0, msg));
            to_multiset_insert(done, 0, msg);
            assert forall|i: int, j: int| 0 <= i <= j < claims@.len() implies (
            #[trigger] claims@[i]).event_nonce_spec()@ <= (#[trigger] claims@[j]).event_nonce_spec()@ by {}
        }
    }
    claims
}

} // verus!
