//! The portal's entry points: setting it up, carrying out a request,
//! resuming on a continuation, and answering a query.

use crate::error::ContractError;
use crate::host::{
    attribute, plain, tagged, views, Coin, CoinView, Env, EnvView, Message, MessageInfo,
    MessageInfoView, Reply, Response, ResponseView,
};
use crate::platform::encode_record_init;
use crate::portal::address::{instantiate_salt, record_salt};
use crate::portal::cosmos_msg::{CosmosCoin, CosmosCoinView};
use crate::portal::ledger::{ids_of, Ledger};
use crate::portal::msg::{
    AllResponse, DataResponse, EnvResponse, ExecuteMsg, ExecuteMsgView, InstantiateMsg, QueryMsg,
    QueryResponse,
};
use crate::portal::payout::{
    execute_undelegate, execute_withdraw_all_reward, load_ls_data, resolved, undelegated, withdrawn,
};
use crate::portal::plan::{
    creation, creation_message, deferred_creation, encoded, portal_view, record_label,
    record_payload, refines, PortalView,
};
use crate::portal::saga::{
    continued, delegated, execute_delegate_and_tokenize, on_holder_created, on_record_created,
    on_token_created, outcome_view,
};
use crate::portal::state::{
    actors_view, LiquidStakingData, LiquidStakingDataView, PortalEnv, PortalEnvView, SagaScratch,
};
use vstd::prelude::*;
use vstd::string::*;

verus! {

/// The tag of the continuation that follows the creation of a delegation holder.
pub const EXEC_DELEGATE_AND_TOKENIZE_CALLBACK_ID_1: u64 = 1;

/// The tag of the continuation that follows the creation of a claim token.
pub const EXEC_DELEGATE_AND_TOKENIZE_CALLBACK_ID_2: u64 = 2;

/// The tag of the continuation that follows the creation of the position record.
pub const INSTANTIATE_CALLBACK_ID: u64 = 3;

/// The configuration that setting the portal up writes. The record's address
/// is the predicted one, or empty until the record's creation reports it.
pub open spec fn initial_env(msg: InstantiateMsg, record: Option<Seq<char>>) -> PortalEnvView {
    PortalEnvView {
        cw20_code_id: msg.cw20_code_id,
        cw721_address: match record {
            Some(address) => address,
            None => Seq::empty(),
        },
        delegator_code_id: msg.delegator_code_id,
    }
}

/// What setting the portal up hands to the platform: the creation of the
/// position record, at the predicted address or tagged so that its success
/// reports the address.
pub open spec fn instantiate_plan(
    contract: Seq<char>,
    sender: Seq<char>,
    msg: InstantiateMsg,
    record: Option<Seq<char>>,
    record_init: Seq<u8>,
) -> ResponseView {
    match record {
        Some(address) => ResponseView {
            messages: seq![
                plain(
                    creation(
                        contract,
                        msg.cw721_code_id,
                        record_label(),
                        record_init,
                        Seq::empty(),
                        record_salt(),
                    ),
                ),
            ],
            attributes: seq![
                attribute("method"@, "instantiate"@),
                attribute("owner"@, sender),
                attribute("cw721_address"@, address),
            ],
        },
        None => ResponseView {
            messages: seq![
                tagged(
                    INSTANTIATE_CALLBACK_ID,
                    deferred_creation(
                        contract,
                        msg.cw721_code_id,
                        record_label(),
                        record_init,
                        Seq::empty(),
                    ),
                ),
            ],
            attributes: seq![attribute("method"@, "instantiate"@), attribute("owner"@, sender)],
        },
    }
}

/// The text of an address that may be absent.
pub open spec fn address_view(address: Option<String>) -> Option<Seq<char>> {
    match address {
        Some(text) => Some(text@),
        None => None,
    }
}

/// Writes the portal's configuration and asks for the position record to be
/// created, given the payload of its creation.
pub fn assemble_instantiate(
    env: &Env,
    info: &MessageInfo,
    msg: InstantiateMsg,
    record: Option<String>,
    record_init: Vec<u8>,
) -> (outcome: (PortalEnv, Response))
    ensures
        outcome.0@ == initial_env(msg, address_view(record)),
        outcome.1@ == instantiate_plan(
            env.contract_address@,
            info.sender@,
            msg,
            address_view(record),
            record_init@,
        ),
{
    let ghost plan = instantiate_plan(
        env.contract_address@,
        info.sender@,
        msg,
        address_view(record),
        record_init@,
    );
    match record {
        Some(address) => {
            let no_funds: Vec<CosmosCoin> = Vec::new();
            assert(views(no_funds@) =~= Seq::<CosmosCoinView>::empty());
            let creation = creation_message(
                env,
                msg.cw721_code_id,
                "Liquid Staking Contract Record",
                record_init,
                no_funds,
                instantiate_salt(),
            );
            let response = Response::new().add_message(creation).add_attribute(
                "method",
                "instantiate",
            ).add_attribute("owner", info.sender.as_str()).add_attribute(
                "cw721_address",
                address.as_str(),
            );
            assert(response@.messages =~= plan.messages);
            assert(response@.attributes =~= plan.attributes);
            let portal_env = PortalEnv {
                cw20_code_id: msg.cw20_code_id,
                cw721_address: address,
                delegator_code_id: msg.delegator_code_id,
            };
            (portal_env, response)
        },
        None => {
            let no_funds: Vec<Coin> = Vec::new();
            assert(views(no_funds@) =~= Seq::<CoinView>::empty());
            let creation = Message::Instantiate {
                admin: env.contract_address.clone(),
                code_id: msg.cw721_code_id,
                msg: record_init,
                funds: no_funds,
                label: "Liquid Staking Contract Record".to_owned(),
            };
            let response = Response::new().add_submessage(
                INSTANTIATE_CALLBACK_ID,
                creation,
            ).add_attribute("method", "instantiate").add_attribute("owner", info.sender.as_str());
            assert(response@.messages =~= plan.messages);
            assert(response@.attributes =~= plan.attributes);
            let portal_env = PortalEnv {
                cw20_code_id: msg.cw20_code_id,
                cw721_address: String::new(),
                delegator_code_id: msg.delegator_code_id,
            };
            (portal_env, response)
        },
    }
}

/// Sets the portal up: writes its configuration and asks for the position
/// record to be created with the portal as its minter. With a predicted
/// `record` address the record is created at that address and the address is
/// configured at once; without, the record's creation is tagged and its
/// continuation configures the address. Setting the portal up always
/// succeeds.
pub fn instantiate(
    env: &Env,
    info: &MessageInfo,
    msg: InstantiateMsg,
    record: Option<String>,
) -> (result: Result<(PortalEnv, Response), ContractError>)
    ensures
        result matches Ok(outcome) && outcome.0@ == initial_env(msg, address_view(record))
            && outcome.1@ == instantiate_plan(
            env.contract_address@,
            info.sender@,
            msg,
            address_view(record),
            record_payload(env.contract_address@),
        ),
{
    let payload = encoded(
        encode_record_init(
            "Liquid Staking Contract Record",
            "SLCR",
            env.contract_address.as_str(),
        ),
    );
    match payload {
        Err(e) => Err(e),
        Ok(record_init) => Ok(assemble_instantiate(env, info, msg, record, record_init)),
    }
}

/// What the platform answered to the questions that a request raises, asked
/// before the execution starts.
#[derive(Debug, PartialEq, Eq)]
pub struct Answers {
    /// For a delegation: the addresses that the platform predicts for the
    /// claim token and the holder of the validator's next position, where the
    /// platform predicts addresses.
    pub predicted: Option<LiquidStakingData>,
    /// For a payout: the ids of the positions that the caller owns, as the
    /// position record reports them.
    pub owned: Vec<String>,
}

/// The portal's step on a request: the state that follows and what is handed
/// to the platform, or the error that aborts the execution.
pub open spec fn executed(
    state: PortalView,
    env: EnvView,
    info: MessageInfoView,
    msg: ExecuteMsgView,
    predicted: Option<LiquidStakingDataView>,
    owned: Seq<Seq<char>>,
) -> Result<(PortalView, ResponseView), ContractError> {
    match msg {
        ExecuteMsgView::DelegateAndTokenize { validator } => delegated(
            state,
            env,
            info,
            validator,
            predicted,
        ),
        ExecuteMsgView::WithdrawAllReward => withdrawn(state, info.sender, owned),
        ExecuteMsgView::Undelegate { id, amount } => undelegated(state, info.sender, id, amount),
    }
}

/// The execution entry point: carries out the request `msg` of the caller
/// `info.sender`.
///
/// The step taken is `executed`. Whenever an error is returned, ledger and
/// scratch record are as they were.
pub fn execute(
    portal_env: &PortalEnv,
    ledger: &mut Ledger,
    scratch: &mut SagaScratch,
    env: &Env,
    info: &MessageInfo,
    msg: ExecuteMsg,
    answers: Answers,
) -> (result: Result<Response, ContractError>)
    requires
        old(ledger).wf(),
    ensures
        final(ledger).wf(),
        refines(
            executed(
                portal_view(*portal_env, *old(ledger), *old(scratch)),
                env@,
                info@,
                msg@,
                actors_view(answers.predicted),
                views(answers.owned@),
            ),
            result,
            portal_view(*portal_env, *final(ledger), *final(scratch)),
        ),
        result is Err ==> *final(ledger) == *old(ledger) && *final(scratch) == *old(scratch),
{
    match msg {
        ExecuteMsg::DelegateAndTokenize { validator } => execute_delegate_and_tokenize(
            portal_env,
            ledger,
            scratch,
            env,
            info,
            validator,
            answers.predicted,
        ),
        ExecuteMsg::WithdrawAllReward {  } => execute_withdraw_all_reward(
            ledger,
            info,
            &answers.owned,
        ),
        ExecuteMsg::Undelegate { id, amount } => execute_undelegate(
            ledger,
            info,
            id.as_str(),
            amount,
        ),
    }
}

/// The continuation entry point: resumes the execution that issued the
/// instruction whose outcome `msg` carries.
///
/// The step taken is `continued`. Whenever an error is returned,
/// configuration, ledger and scratch record are as they were.
pub fn reply(
    portal_env: &mut PortalEnv,
    ledger: &mut Ledger,
    scratch: &mut SagaScratch,
    env: &Env,
    msg: &Reply,
) -> (result: Result<Response, ContractError>)
    requires
        old(ledger).wf(),
    ensures
        final(ledger).wf(),
        refines(
            continued(
                portal_view(*old(portal_env), *old(ledger), *old(scratch)),
                env.contract_address@,
                msg.id,
                outcome_view(msg.result),
            ),
            result,
            portal_view(*final(portal_env), *final(ledger), *final(scratch)),
        ),
        result is Err ==> *final(portal_env) == *old(portal_env) && *final(ledger) == *old(ledger)
            && *final(scratch) == *old(scratch),
{
    let id = msg.id;
    if id != EXEC_DELEGATE_AND_TOKENIZE_CALLBACK_ID_1 && id
        != EXEC_DELEGATE_AND_TOKENIZE_CALLBACK_ID_2 && id != INSTANTIATE_CALLBACK_ID {
        return Err(ContractError::MalformedContinuation);
    }
    match &msg.result {
        Err(_) => Err(ContractError::UpstreamFailure),
        Ok(events) => {
            if id == INSTANTIATE_CALLBACK_ID {
                on_record_created(portal_env, events)
            } else if id == EXEC_DELEGATE_AND_TOKENIZE_CALLBACK_ID_1 {
                on_holder_created(portal_env, scratch, env, events)
            } else {
                on_token_created(portal_env, ledger, scratch, events)
            }
        },
    }
}

/// Answers the query for the portal's configuration.
pub fn query_env(portal_env: &PortalEnv) -> (answer: EnvResponse)
    ensures
        answer.cw20_code_id == portal_env.cw20_code_id,
        answer.cw721_address@ == portal_env.cw721_address@,
        answer.delegator_code_id == portal_env.delegator_code_id,
{
    EnvResponse {
        cw20_code_id: portal_env.cw20_code_id,
        cw721_address: portal_env.cw721_address.clone(),
        delegator_code_id: portal_env.delegator_code_id,
    }
}

/// Answers the query for the position `id`.
pub fn query_data(ledger: &Ledger, id: &str) -> (answer: Result<DataResponse, ContractError>)
    requires
        ledger.wf(),
    ensures
        match resolved(ledger@, id@) {
            Ok(data) => answer matches Ok(found) && found.token_address@ == data.token_address
                && found.delegator_address@ == data.delegator_address,
            Err(e) => answer matches Err(found) && found == e,
        },
{
    match load_ls_data(ledger, id) {
        Ok(data) => Ok(
            DataResponse {
                token_address: data.token_address,
                delegator_address: data.delegator_address,
            },
        ),
        Err(e) => Err(e),
    }
}

/// Answers the query for the ids of all positions, in the order in which the
/// positions were recorded.
pub fn query_all(ledger: &Ledger) -> (answer: AllResponse)
    ensures
        views(answer.data@) == ids_of(ledger.history()),
{
    AllResponse { data: ledger.ids() }
}

/// Whether `answer` is the answer to the query `msg` in the given state.
pub open spec fn answers_query(
    portal_env: PortalEnv,
    ledger: Ledger,
    msg: QueryMsg,
    answer: Result<QueryResponse, ContractError>,
) -> bool {
    match msg {
        QueryMsg::Env {  } => answer matches Ok(QueryResponse::Env(found)) && found.cw20_code_id
            == portal_env.cw20_code_id && found.cw721_address@ == portal_env.cw721_address@
            && found.delegator_code_id == portal_env.delegator_code_id,
        QueryMsg::Data { id } => match resolved(ledger@, id@) {
            Ok(data) => answer matches Ok(QueryResponse::Data(found)) && found.token_address@
                == data.token_address && found.delegator_address@ == data.delegator_address,
            Err(e) => answer matches Err(found) && found == e,
        },
        QueryMsg::All {  } => answer matches Ok(QueryResponse::All(found)) && views(found.data@)
            == ids_of(ledger.history()),
    }
}

/// The query entry point.
pub fn query(
    portal_env: &PortalEnv,
    ledger: &Ledger,
    msg: QueryMsg,
) -> (answer: Result<QueryResponse, ContractError>)
    requires
        ledger.wf(),
    ensures
        answers_query(*portal_env, *ledger, msg, answer),
{
    match msg {
        QueryMsg::Env {  } => Ok(QueryResponse::Env(query_env(portal_env))),
        QueryMsg::Data { id } => match query_data(ledger, id.as_str()) {
            Ok(data) => Ok(QueryResponse::Data(data)),
            Err(e) => Err(e),
        },
        QueryMsg::All {  } => Ok(QueryResponse::All(query_all(ledger))),
    }
}

} // verus!
