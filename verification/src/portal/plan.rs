//! The instructions that the portal hands to the platform, and the shape of
//! the contracts of its executions.

use crate::error::ContractError;
use crate::host::{
    attribute, views, AttributeView, Coin, CoinView, Env, Message, MessageView, Response,
    ResponseView,
};
use crate::platform::{encode_token_init, record_init_json, token_init_json};
use crate::portal::cosmos_msg::{
    CosmosCoin, CosmosCoinView, MsgInstantiateContract2, MsgInstantiateContract2View,
};
use crate::portal::ledger::{table, Ledger, PositionView};
use crate::portal::state::{
    LiquidStakingDataView, PortalEnv, PortalEnvView, SagaScratch, SagaScratchView,
};
use crate::text::decimal_chars;
use cosmwasm_std::StdError;
use vstd::prelude::*;
use vstd::string::*;

verus! {

/// The type by which the platform routes the creation of an actor at a
/// predictable address.
pub open spec fn creation_type_url() -> Seq<char> {
    "/cosmwasm.wasm.v1.MsgInstantiateContract2"@
}

/// The label of the position record.
pub open spec fn record_label() -> Seq<char> {
    "Liquid Staking Contract Record"@
}

/// The symbol of the position record.
pub open spec fn record_symbol() -> Seq<char> {
    "SLCR"@
}

/// The label of a delegation holder.
pub open spec fn holder_label() -> Seq<char> {
    "Liquid Staking Contract Delegator"@
}

/// The label of a claim token.
pub open spec fn token_label() -> Seq<char> {
    "Liquid Staking Contract Token"@
}

/// The symbol of a claim token.
pub open spec fn token_symbol() -> Seq<char> {
    "LSCT"@
}

/// The number of decimals of a claim token.
pub open spec fn token_decimals() -> u8 {
    6
}

/// The instruction that creates an actor at a predictable address, with the
/// portal as sender and as admin.
pub open spec fn creation(
    contract: Seq<char>,
    code_id: u64,
    label: Seq<char>,
    msg: Seq<u8>,
    funds: Seq<CosmosCoinView>,
    salt: Seq<u8>,
) -> MessageView {
    MessageView::Stargate {
        type_url: creation_type_url(),
        value: MsgInstantiateContract2View {
            sender: contract,
            admin: contract,
            code_id,
            label,
            msg,
            funds,
            salt,
            fix_msg: false,
        },
    }
}

/// The instruction that creates an actor at an address that the platform
/// picks, with the portal as admin.
pub open spec fn deferred_creation(
    contract: Seq<char>,
    code_id: u64,
    label: Seq<char>,
    msg: Seq<u8>,
    funds: Seq<CoinView>,
) -> MessageView {
    MessageView::Instantiate { admin: contract, code_id, msg, funds, label }
}

/// The instruction that calls the actor at `contract_addr` without funds.
pub open spec fn call(contract_addr: Seq<char>, msg: Seq<u8>) -> MessageView {
    MessageView::Execute { contract_addr, msg, funds: Seq::empty() }
}

/// A coin as the creation message carries it.
pub open spec fn forwarded(fund: CoinView) -> CosmosCoinView {
    CosmosCoinView { denom: fund.denom, amount: decimal_chars(fund.amount) }
}

/// The attributes that describe the execution `action`.
pub open spec fn execution_attributes(action: Seq<char>) -> Seq<AttributeView> {
    seq![attribute("method"@, "execute"@), attribute("action"@, action)]
}

/// Builds the instruction that creates an actor at a predictable address.
pub(crate) fn creation_message(
    env: &Env,
    code_id: u64,
    label: &str,
    msg: Vec<u8>,
    funds: Vec<CosmosCoin>,
    salt: Vec<u8>,
) -> (message: Message)
    ensures
        message@ == creation(env.contract_address@, code_id, label@, msg@, views(funds@), salt@),
{
    Message::Stargate {
        type_url: "/cosmwasm.wasm.v1.MsgInstantiateContract2".to_owned(),
        value: MsgInstantiateContract2 {
            sender: env.contract_address.clone(),
            admin: env.contract_address.clone(),
            code_id,
            label: label.to_owned(),
            msg,
            funds,
            salt,
            fix_msg: false,
        },
    }
}

/// Builds the instruction that calls an actor without funds.
pub(crate) fn call_message(contract_addr: &str, msg: Vec<u8>) -> (message: Message)
    ensures
        message@ == call(contract_addr@, msg@),
{
    let message = Message::Execute { contract_addr: contract_addr.to_owned(), msg, funds: Vec::new() };
    assert(views(Seq::<Coin>::empty()) =~= Seq::<CoinView>::empty());
    message
}

/// A copy of `bytes`.
pub(crate) fn copy_bytes(bytes: &Vec<u8>) -> (copy: Vec<u8>)
    ensures
        copy@ == bytes@,
{
    let mut copy: Vec<u8> = Vec::new();
    let mut at: usize = 0;
    while at < bytes.len()
        invariant
            at <= bytes.len(),
            copy@ == bytes@.take(at as int),
        decreases bytes.len() - at,
    {
        copy.push(bytes[at]);
        assert(copy@ =~= bytes@.take(at + 1));
        at += 1;
    }
    assert(bytes@.take(at as int) =~= bytes@);
    copy
}

/// The payload that the platform's encoder produced. Should the encoder fail,
/// the failure is reported as `Encoding`.
pub(crate) fn encoded(
    outcome: Result<Vec<u8>, StdError>,
) -> (payload: Result<Vec<u8>, ContractError>)
    ensures
        outcome is Ok <==> payload is Ok,
        payload matches Ok(bytes) ==> outcome matches Ok(given) && bytes@ == given@,
        payload matches Err(e) ==> e == ContractError::Encoding,
{
    match outcome {
        Ok(bytes) => Ok(bytes),
        Err(_) => Err(ContractError::Encoding),
    }
}

/// The payload that creates the claim token of a position: `amount` of it,
/// all held by `owner`.
pub open spec fn token_payload(owner: Seq<char>, amount: nat) -> Seq<u8> {
    token_init_json(token_label(), token_symbol(), token_decimals(), owner, amount as u128)
}

/// Encodes the payload that creates the claim token of a position.
pub(crate) fn encode_token_payload(
    owner: &str,
    amount: u128,
) -> (payload: Result<Vec<u8>, ContractError>)
    ensures
        payload matches Ok(bytes) && bytes@ == token_payload(owner@, amount as nat),
{
    encoded(encode_token_init("Liquid Staking Contract Token", "LSCT", 6, owner, amount))
}

/// Everything the portal keeps: its configuration, the positions in the order
/// in which they were recorded, and the saga's scratch record.
#[verifier::ext_equal]
pub struct PortalView {
    pub env: PortalEnvView,
    pub history: Seq<PositionView>,
    pub scratch: SagaScratchView,
}

/// The portal's state, from the three parts that hold it.
pub open spec fn portal_view(
    portal_env: PortalEnv,
    ledger: Ledger,
    scratch: SagaScratch,
) -> PortalView {
    PortalView { env: portal_env@, history: ledger.history(), scratch: scratch@ }
}

/// Whether an execution did what its model says: the same state and the same
/// instructions, or the same error.
pub open spec fn refines(
    model: Result<(PortalView, ResponseView), ContractError>,
    result: Result<Response, ContractError>,
    after: PortalView,
) -> bool {
    match model {
        Ok((next, plan)) => result matches Ok(response) && response@ == plan && after == next,
        Err(e) => result matches Err(found) && found == e,
    }
}

/// The attributes that describe the continuation `action`.
pub open spec fn continuation_attributes(action: Seq<char>) -> Seq<AttributeView> {
    seq![attribute("method"@, "reply"@), attribute("action"@, action)]
}

/// The payload that creates the position record, with the portal as minter.
pub open spec fn record_payload(contract: Seq<char>) -> Seq<u8> {
    record_init_json(record_label(), record_symbol(), contract)
}

/// The ledger's table in a state of the portal.
pub open spec fn table_of(state: PortalView) -> Map<(Seq<char>, nat), LiquidStakingDataView> {
    table(state.history)
}

} // verus!
