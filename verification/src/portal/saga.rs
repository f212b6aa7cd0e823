//! Creating a position: in one step where addresses can be predicted, and as
//! a saga over continuations where they are learned from receipts.

use crate::delegator::msg::{instantiate_json, InstantiateMsg as HolderInstantiateMsg};
use crate::error::ContractError;
use crate::host::{
    attribute, find_in_receipt, plain, receipt_value, tagged, views, Coin, CoinView, Env, EnvView,
    Event, EventView, Message, MessageInfo, MessageInfoView, Response, ResponseView,
};
use crate::platform::{encode_record_mint, record_mint_json};
use crate::portal::address::{position_salt, salt_of_position};
use crate::portal::contract::{
    EXEC_DELEGATE_AND_TOKENIZE_CALLBACK_ID_1, EXEC_DELEGATE_AND_TOKENIZE_CALLBACK_ID_2,
    INSTANTIATE_CALLBACK_ID,
};
use crate::portal::cosmos_msg::{CosmosCoin, CosmosCoinView};
use crate::portal::ledger::{count_of, dense, lemma_dense_push, Ledger, PositionView};
use crate::portal::plan::{
    call, call_message, continuation_attributes, copy_bytes, creation, creation_message,
    deferred_creation, encode_token_payload, encoded, execution_attributes, forwarded, holder_label,
    portal_view, refines, token_label, token_payload, PortalView,
};
use crate::portal::state::{
    actors_view, LiquidStakingData, LiquidStakingDataView, PortalEnv, PortalEnvView, SagaScratch,
    SagaScratchView,
};
use crate::text::{decimal, parse_amount, position_id, position_id_chars, reported_amount};
use vstd::prelude::*;
use vstd::string::*;

verus! {

/// What creating a position in one step hands to the platform: the creation
/// of the holder with the attached coin, the creation of the claim token, and
/// the minting of the position's record, in this order.
pub open spec fn one_shot_plan(
    portal_env: PortalEnvView,
    contract: Seq<char>,
    fund: CoinView,
    salt: Seq<u8>,
    holder_init: Seq<u8>,
    token_init: Seq<u8>,
    mint: Seq<u8>,
) -> ResponseView {
    ResponseView {
        messages: seq![
            plain(
                creation(
                    contract,
                    portal_env.delegator_code_id,
                    holder_label(),
                    holder_init,
                    seq![forwarded(fund)],
                    salt,
                ),
            ),
            plain(
                creation(
                    contract,
                    portal_env.cw20_code_id,
                    token_label(),
                    token_init,
                    Seq::empty(),
                    salt,
                ),
            ),
            plain(call(portal_env.cw721_address, mint)),
        ],
        attributes: execution_attributes("delegate_and_tokenize"@),
    }
}

/// Creating a position in one step, given the salt and the payloads of the
/// instructions: the history that follows and what is handed to the platform,
/// or the error that aborts the execution.
///
/// A request without funds is refused, then actors of which an address is
/// missing, then a validator whose indexes are used up. Otherwise the position
/// is recorded under the validator's next index with both actors.
pub open spec fn recorded_at_once(
    portal_env: PortalEnvView,
    history: Seq<PositionView>,
    contract: Seq<char>,
    funds: Seq<CoinView>,
    validator: Seq<char>,
    actors: LiquidStakingDataView,
    salt: Seq<u8>,
    holder_init: Seq<u8>,
    token_init: Seq<u8>,
    mint: Seq<u8>,
) -> Result<(Seq<PositionView>, ResponseView), ContractError> {
    let index = count_of(history, validator);
    if funds.len() == 0 {
        Err(ContractError::NoFunds)
    } else if actors.token_address.len() == 0 || actors.delegator_address.len() == 0 {
        Err(ContractError::NotFound)
    } else if index > u32::MAX {
        Err(ContractError::LedgerFull)
    } else {
        Ok(
            (
                history.push(PositionView { validator, index, data: actors }),
                one_shot_plan(portal_env, contract, funds[0], salt, holder_init, token_init, mint),
            ),
        )
    }
}

/// Records the next position of `validator` with the predicted `actors` and
/// hands back the three instructions that create it, given the salt and the
/// payloads of the instructions. The ledger changes only on success.
pub fn assemble_delegate_and_tokenize(
    portal_env: &PortalEnv,
    ledger: &mut Ledger,
    env: &Env,
    info: &MessageInfo,
    validator: String,
    actors: LiquidStakingData,
    salt: Vec<u8>,
    holder_init: Vec<u8>,
    token_init: Vec<u8>,
    mint: Vec<u8>,
) -> (result: Result<Response, ContractError>)
    requires
        old(ledger).wf(),
    ensures
        final(ledger).wf(),
        match recorded_at_once(
            portal_env@,
            old(ledger).history(),
            env.contract_address@,
            views(info.funds@),
            validator@,
            actors@,
            salt@,
            holder_init@,
            token_init@,
            mint@,
        ) {
            Ok((history, plan)) => result matches Ok(response) && response@ == plan
                && final(ledger).history() == history,
            Err(e) => result matches Err(found) && found == e && *final(ledger) == *old(ledger),
        },
{
    if info.funds.len() == 0 {
        return Err(ContractError::NoFunds);
    }
    if actors.token_address.as_str().is_empty() || actors.delegator_address.as_str().is_empty() {
        return Err(ContractError::NotFound);
    }
    let ghost plan = one_shot_plan(
        portal_env@,
        env.contract_address@,
        info.funds@[0]@,
        salt@,
        holder_init@,
        token_init@,
        mint@,
    );
    match ledger.append(validator, actors) {
        Err(e) => Err(e),
        Ok(_) => {
            let fund = &info.funds[0];
            let mut funds: Vec<CosmosCoin> = Vec::new();
            funds.push(CosmosCoin { denom: fund.denom.clone(), amount: decimal(fund.amount) });
            assert(views(funds@) =~= seq![forwarded(fund@)]);
            let holder = creation_message(
                env,
                portal_env.delegator_code_id,
                "Liquid Staking Contract Delegator",
                holder_init,
                funds,
                copy_bytes(&salt),
            );
            let no_funds: Vec<CosmosCoin> = Vec::new();
            assert(views(no_funds@) =~= Seq::<CosmosCoinView>::empty());
            let token = creation_message(
                env,
                portal_env.cw20_code_id,
                "Liquid Staking Contract Token",
                token_init,
                no_funds,
                salt,
            );
            let record = call_message(portal_env.cw721_address.as_str(), mint);
            let response = Response::new().add_message(holder).add_message(token).add_message(
                record,
            ).add_attribute("method", "execute").add_attribute("action", "delegate_and_tokenize");
            assert(response@.messages =~= plan.messages);
            assert(response@.attributes =~= plan.attributes);
            Ok(response)
        },
    }
}

/// What starting the saga hands to the platform when addresses are learned
/// from receipts: the creation of the holder with the attached coin, tagged so
/// that its success resumes the saga.
pub open spec fn holder_request(
    portal_env: PortalEnvView,
    contract: Seq<char>,
    fund: CoinView,
    holder_init: Seq<u8>,
) -> ResponseView {
    ResponseView {
        messages: seq![
            tagged(
                EXEC_DELEGATE_AND_TOKENIZE_CALLBACK_ID_1,
                deferred_creation(
                    contract,
                    portal_env.delegator_code_id,
                    holder_label(),
                    holder_init,
                    seq![fund],
                ),
            ),
        ],
        attributes: execution_attributes("delegate_and_tokenize"@),
    }
}

/// Starting the saga, given the payload of the holder's creation: the scratch
/// record that follows and what is handed to the platform. A request without
/// funds is refused.
pub open spec fn saga_started(
    portal_env: PortalEnvView,
    contract: Seq<char>,
    info: MessageInfoView,
    validator: Seq<char>,
    holder_init: Seq<u8>,
) -> Result<(SagaScratchView, ResponseView), ContractError> {
    if info.funds.len() == 0 {
        Err(ContractError::NoFunds)
    } else {
        Ok(
            (
                SagaScratchView::AwaitingHolder { owner: info.sender, validator },
                holder_request(portal_env, contract, info.funds[0], holder_init),
            ),
        )
    }
}

/// Creating a position for the caller: the state that follows and what is
/// handed to the platform, or the error that aborts the execution.
///
/// With `predicted` actors the position is recorded under the validator's next
/// index and the instructions that create its holder and its claim token and
/// mint its record are handed over at once. Without them the scratch record
/// is overwritten and the creation of the holder is asked for. Either way a
/// request without funds is refused.
pub open spec fn delegated(
    state: PortalView,
    env: EnvView,
    info: MessageInfoView,
    validator: Seq<char>,
    predicted: Option<LiquidStakingDataView>,
) -> Result<(PortalView, ResponseView), ContractError> {
    let id = position_id_chars(validator, count_of(state.history, validator));
    match predicted {
        Some(actors) => match recorded_at_once(
            state.env,
            state.history,
            env.contract_address,
            info.funds,
            validator,
            actors,
            position_salt(env.contract_canonical, id),
            instantiate_json(validator),
            token_payload(info.sender, info.funds[0].amount),
            record_mint_json(id, info.sender),
        ) {
            Ok((history, plan)) => Ok((PortalView { history, ..state }, plan)),
            Err(e) => Err(e),
        },
        None => match saga_started(
            state.env,
            env.contract_address,
            info,
            validator,
            instantiate_json(validator),
        ) {
            Ok((scratch, plan)) => Ok((PortalView { scratch, ..state }, plan)),
            Err(e) => Err(e),
        },
    }
}

/// Starts the saga for `validator` on behalf of the caller: overwrites the
/// scratch record, whatever it held, and asks for the holder to be created,
/// given the payload of its creation. The scratch record changes only on
/// success.
pub fn begin_delegate_and_tokenize(
    portal_env: &PortalEnv,
    scratch: &mut SagaScratch,
    env: &Env,
    info: &MessageInfo,
    validator: String,
    holder_init: Vec<u8>,
) -> (result: Result<Response, ContractError>)
    ensures
        match saga_started(
            portal_env@,
            env.contract_address@,
            info@,
            validator@,
            holder_init@,
        ) {
            Ok((next, plan)) => result matches Ok(response) && response@ == plan
                && final(scratch)@ == next,
            Err(e) => result matches Err(found) && found == e && *final(scratch) == *old(scratch),
        },
{
    if info.funds.len() == 0 {
        return Err(ContractError::NoFunds);
    }
    let mut funds: Vec<Coin> = Vec::new();
    funds.push(info.funds[0].copy());
    assert(views(funds@) =~= seq![info.funds@[0]@]);
    let creation = Message::Instantiate {
        admin: env.contract_address.clone(),
        code_id: portal_env.delegator_code_id,
        msg: holder_init,
        funds,
        label: "Liquid Staking Contract Delegator".to_owned(),
    };
    *scratch = SagaScratch::AwaitingHolder { owner: info.sender.clone(), validator };
    let response = Response::new().add_submessage(
        EXEC_DELEGATE_AND_TOKENIZE_CALLBACK_ID_1,
        creation,
    ).add_attribute("method", "execute").add_attribute("action", "delegate_and_tokenize");
    let ghost plan = holder_request(
        portal_env@,
        env.contract_address@,
        info.funds@[0]@,
        holder_init@,
    );
    assert(response@.messages =~= plan.messages);
    assert(response@.attributes =~= plan.attributes);
    Ok(response)
}

/// Delegates the attached coin to `validator` and mints the claim on it.
///
/// With `predicted` actors the position is created in one step: it is
/// recorded under the validator's next index and the three instructions that
/// create it are handed back. Without them the saga starts: the scratch
/// record is overwritten and the creation of the holder is asked for.
///
/// The step taken is `delegated`. An error leaves ledger and scratch as they
/// were.
pub fn execute_delegate_and_tokenize(
    portal_env: &PortalEnv,
    ledger: &mut Ledger,
    scratch: &mut SagaScratch,
    env: &Env,
    info: &MessageInfo,
    validator: String,
    predicted: Option<LiquidStakingData>,
) -> (result: Result<Response, ContractError>)
    requires
        old(ledger).wf(),
    ensures
        final(ledger).wf(),
        refines(
            delegated(
                portal_view(*portal_env, *old(ledger), *old(scratch)),
                env@,
                info@,
                validator@,
                actors_view(predicted),
            ),
            result,
            portal_view(*portal_env, *final(ledger), *final(scratch)),
        ),
        result is Err ==> *final(ledger) == *old(ledger) && *final(scratch) == *old(scratch),
{
    if info.funds.len() == 0 {
        return Err(ContractError::NoFunds);
    }
    let holder_init = match (HolderInstantiateMsg { validator: validator.clone() }).to_json() {
        Ok(bytes) => bytes,
        Err(e) => {
            return Err(e);
        },
    };
    match predicted {
        None => begin_delegate_and_tokenize(portal_env, scratch, env, info, validator, holder_init),
        Some(actors) => {
            if actors.token_address.as_str().is_empty()
                || actors.delegator_address.as_str().is_empty() {
                return Err(ContractError::NotFound);
            }
            let count = ledger.position_count(validator.as_str());
            if count > 0xffff_ffff {
                return Err(ContractError::LedgerFull);
            }
            let id = position_id(validator.as_str(), count as u32);
            let salt = salt_of_position(env.contract_canonical.as_slice(), id.as_str());
            let token_init = match encode_token_payload(info.sender.as_str(), info.funds[0].amount) {
                Ok(bytes) => bytes,
                Err(e) => {
                    return Err(e);
                },
            };
            let mint = match encoded(encode_record_mint(id.as_str(), info.sender.as_str())) {
                Ok(bytes) => bytes,
                Err(e) => {
                    return Err(e);
                },
            };
            assemble_delegate_and_tokenize(
                portal_env,
                ledger,
                env,
                info,
                validator,
                actors,
                salt,
                holder_init,
                token_init,
                mint,
            )
        },
    }
}

/// The address of the actor whose creation a receipt reports. An empty text
/// is no address: a receipt that reports one reports none.
pub open spec fn created_address(events: Seq<EventView>) -> Option<Seq<char>> {
    match receipt_value(events, "instantiate"@, "_contract_address"@, 0) {
        Some(address) => if address.len() > 0 {
            Some(address)
        } else {
            None
        },
        None => None,
    }
}

/// What a holder's creation receipt reports: the holder's address and the
/// amount that it delegated. A receipt that lacks either is malformed; an
/// amount that is no number fails to parse.
pub open spec fn observed_holder(
    events: Seq<EventView>,
) -> Result<(Seq<char>, nat), ContractError> {
    match created_address(events) {
        None => Err(ContractError::MalformedContinuation),
        Some(address) => match receipt_value(events, "delegate"@, "amount"@, 0) {
            None => Err(ContractError::MalformedContinuation),
            Some(text) => match reported_amount(text) {
                None => Err(ContractError::ParseFailure),
                Some(amount) => Ok((address, amount)),
            },
        },
    }
}

/// What the continuation after the holder's creation hands to the platform:
/// the creation of the claim token, tagged so that its success resumes the saga.
pub open spec fn token_request(
    portal_env: PortalEnvView,
    contract: Seq<char>,
    token_init: Seq<u8>,
) -> ResponseView {
    ResponseView {
        messages: seq![
            tagged(
                EXEC_DELEGATE_AND_TOKENIZE_CALLBACK_ID_2,
                deferred_creation(
                    contract,
                    portal_env.cw20_code_id,
                    token_label(),
                    token_init,
                    Seq::empty(),
                ),
            ),
        ],
        attributes: continuation_attributes("holder_created"@),
    }
}

/// What the continuation after the token's creation hands to the platform: the
/// minting of the position's record.
pub open spec fn mint_request(portal_env: PortalEnvView, mint: Seq<u8>) -> ResponseView {
    ResponseView {
        messages: seq![plain(call(portal_env.cw721_address, mint))],
        attributes: continuation_attributes("token_created"@),
    }
}

/// The saga's step after the holder was created at `holder` and delegated
/// `amount`: the scratch record takes the holder's address and the claim
/// token is asked for, with the payload `token_init`. Any state but waiting
/// for the holder makes the continuation unexpected, and so does a holder
/// without address.
pub open spec fn holder_created(
    state: PortalView,
    contract: Seq<char>,
    holder: Seq<char>,
    token_init: Seq<u8>,
) -> Result<(PortalView, ResponseView), ContractError> {
    match state.scratch {
        SagaScratchView::AwaitingHolder { owner, validator } => if holder.len() == 0 {
            Err(ContractError::MalformedContinuation)
        } else {
            Ok(
                (
                    PortalView {
                        scratch: SagaScratchView::AwaitingToken {
                            owner,
                            validator,
                            delegator_address: holder,
                        },
                        ..state
                    },
                    token_request(state.env, contract, token_init),
                ),
            )
        },
        _ => Err(ContractError::MalformedContinuation),
    }
}

/// The saga's last step, after the claim token was created at `token`: the
/// position is recorded under the validator's next index with both actors,
/// the scratch record is given up and the position's record is minted, with
/// the payload `mint`. Any state but waiting for the token makes the
/// continuation unexpected, and so does a token or a holder without address.
pub open spec fn token_created(
    state: PortalView,
    token: Seq<char>,
    mint: Seq<u8>,
) -> Result<(PortalView, ResponseView), ContractError> {
    match state.scratch {
        SagaScratchView::AwaitingToken { owner, validator, delegator_address } => {
            let index = count_of(state.history, validator);
            if token.len() == 0 || delegator_address.len() == 0 {
                Err(ContractError::MalformedContinuation)
            } else if index > u32::MAX {
                Err(ContractError::LedgerFull)
            } else {
                Ok(
                    (
                        PortalView {
                            history: state.history.push(
                                PositionView {
                                    validator,
                                    index,
                                    data: LiquidStakingDataView {
                                        token_address: token,
                                        delegator_address,
                                    },
                                },
                            ),
                            scratch: SagaScratchView::Idle,
                            ..state
                        },
                        mint_request(state.env, mint),
                    ),
                )
            }
        },
        _ => Err(ContractError::MalformedContinuation),
    }
}

/// What the continuation after the record's creation hands to the platform:
/// nothing but the report of the address.
pub open spec fn record_report(record: Seq<char>) -> ResponseView {
    ResponseView {
        messages: Seq::empty(),
        attributes: continuation_attributes("record_created"@).push(
            attribute("cw721_address"@, record),
        ),
    }
}

/// The step after the position record was created at `record`: the
/// configuration takes the address, once. A second such continuation is
/// unexpected, and so is a record without address.
pub open spec fn record_created(
    portal_env: PortalEnvView,
    record: Seq<char>,
) -> Result<(PortalEnvView, ResponseView), ContractError> {
    if portal_env.cw721_address.len() > 0 || record.len() == 0 {
        Err(ContractError::MalformedContinuation)
    } else {
        Ok((PortalEnvView { cw721_address: record, ..portal_env }, record_report(record)))
    }
}

/// Takes the holder's address into the scratch record and asks for the claim
/// token, given the payload of its creation. The state changes only on success.
pub fn advance_to_token(
    portal_env: &PortalEnv,
    scratch: &mut SagaScratch,
    env: &Env,
    holder: String,
    token_init: Vec<u8>,
) -> (result: Result<Response, ContractError>)
    ensures
        result is Ok <==> old(scratch)@ is AwaitingHolder && holder@.len() > 0,
        result matches Ok(response) ==> final(scratch)@ == (SagaScratchView::AwaitingToken {
            owner: old(scratch)@->AwaitingHolder_owner,
            validator: old(scratch)@->AwaitingHolder_validator,
            delegator_address: holder@,
        }) && response@ == token_request(portal_env@, env.contract_address@, token_init@),
        result matches Err(e) ==> e == ContractError::MalformedContinuation && *final(scratch)
            == *old(scratch),
{
    let (owner, validator) = match &*scratch {
        SagaScratch::AwaitingHolder { owner, validator } => (owner.clone(), validator.clone()),
        _ => {
            return Err(ContractError::MalformedContinuation);
        },
    };
    if holder.as_str().is_empty() {
        return Err(ContractError::MalformedContinuation);
    }
    let no_funds: Vec<Coin> = Vec::new();
    assert(views(no_funds@) =~= Seq::<CoinView>::empty());
    let creation = Message::Instantiate {
        admin: env.contract_address.clone(),
        code_id: portal_env.cw20_code_id,
        msg: token_init,
        funds: no_funds,
        label: "Liquid Staking Contract Token".to_owned(),
    };
    *scratch = SagaScratch::AwaitingToken { owner, validator, delegator_address: holder };
    let response = Response::new().add_submessage(
        EXEC_DELEGATE_AND_TOKENIZE_CALLBACK_ID_2,
        creation,
    ).add_attribute("method", "reply").add_attribute("action", "holder_created");
    let ghost plan = token_request(portal_env@, env.contract_address@, token_init@);
    assert(response@.messages =~= plan.messages);
    assert(response@.attributes =~= plan.attributes);
    Ok(response)
}

/// Records the position that the saga has built, gives the scratch record up
/// and mints the position's record, given the payload of the minting. The
/// state changes only on success.
pub fn complete_position(
    portal_env: &PortalEnv,
    ledger: &mut Ledger,
    scratch: &mut SagaScratch,
    token: String,
    mint: Vec<u8>,
) -> (result: Result<Response, ContractError>)
    requires
        old(ledger).wf(),
    ensures
        final(ledger).wf(),
        match token_created(portal_view(*portal_env, *old(ledger), *old(scratch)), token@, mint@) {
            Ok((next, plan)) => result matches Ok(response) && response@ == plan && portal_view(
                *portal_env,
                *final(ledger),
                *final(scratch),
            ) == next,
            Err(e) => result matches Err(found) && found == e && *final(ledger) == *old(ledger)
                && *final(scratch) == *old(scratch),
        },
{
    let (validator, delegator_address) = match &*scratch {
        SagaScratch::AwaitingToken { owner, validator, delegator_address } => (
            validator.clone(),
            delegator_address.clone(),
        ),
        _ => {
            return Err(ContractError::MalformedContinuation);
        },
    };
    if token.as_str().is_empty() || delegator_address.as_str().is_empty() {
        return Err(ContractError::MalformedContinuation);
    }
    match ledger.append(validator, LiquidStakingData { token_address: token, delegator_address }) {
        Err(e) => Err(e),
        Ok(_) => {
            *scratch = SagaScratch::Idle;
            let record = call_message(portal_env.cw721_address.as_str(), mint);
            let response = Response::new().add_message(record).add_attribute(
                "method",
                "reply",
            ).add_attribute("action", "token_created");
            let ghost plan = mint_request(portal_env@, mint@);
            assert(response@.messages =~= plan.messages);
            assert(response@.attributes =~= plan.attributes);
            Ok(response)
        },
    }
}

/// Takes the address of the position record into the configuration, once.
/// The configuration changes only on success.
pub fn accept_record(
    portal_env: &mut PortalEnv,
    record: String,
) -> (result: Result<Response, ContractError>)
    ensures
        match record_created(old(portal_env)@, record@) {
            Ok((next, plan)) => result matches Ok(response) && response@ == plan
                && final(portal_env)@ == next,
            Err(e) => result matches Err(found) && found == e && *final(portal_env) == *old(
                portal_env,
            ),
        },
{
    if !portal_env.cw721_address.as_str().is_empty() || record.as_str().is_empty() {
        return Err(ContractError::MalformedContinuation);
    }
    let response = Response::new().add_attribute("method", "reply").add_attribute(
        "action",
        "record_created",
    ).add_attribute("cw721_address", record.as_str());
    assert(response@.attributes =~= record_report(record@).attributes);
    assert(response@.messages =~= record_report(record@).messages);
    portal_env.cw721_address = record;
    Ok(response)
}

/// Reads the address of a created actor off the receipt of its creation.
pub fn read_created_address(events: &Vec<Event>) -> (address: Result<String, ContractError>)
    ensures
        match created_address(views(events@)) {
            Some(a) => address matches Ok(found) && found@ == a,
            None => address matches Err(ContractError::MalformedContinuation),
        },
{
    match find_in_receipt(events, "instantiate", "_contract_address") {
        Some(address) => {
            if address.as_str().is_empty() {
                Err(ContractError::MalformedContinuation)
            } else {
                Ok(address)
            }
        },
        None => Err(ContractError::MalformedContinuation),
    }
}

/// Reads the holder's address and the amount it delegated off the receipt of
/// the holder's creation.
pub fn read_holder_receipt(events: &Vec<Event>) -> (observed: Result<(String, u128), ContractError>)
    ensures
        match observed_holder(views(events@)) {
            Ok((address, amount)) => observed matches Ok(found) && found.0@ == address && found.1
                == amount,
            Err(e) => observed matches Err(found) && found == e,
        },
{
    let address = match read_created_address(events) {
        Ok(address) => address,
        Err(e) => {
            return Err(e);
        },
    };
    match find_in_receipt(events, "delegate", "amount") {
        None => Err(ContractError::MalformedContinuation),
        Some(text) => match parse_amount(text.as_str()) {
            None => Err(ContractError::ParseFailure),
            Some(amount) => Ok((address, amount)),
        },
    }
}

/// What a continuation carries, seen as plain values.
pub open spec fn outcome_view(
    outcome: Result<Vec<Event>, String>,
) -> Result<Seq<EventView>, Seq<char>> {
    match outcome {
        Ok(events) => Ok(views(events@)),
        Err(reason) => Err(reason@),
    }
}

/// The portal's step on a continuation: the state that follows and what is
/// handed to the platform, or the error that aborts the execution.
///
/// A tag that the portal never issued is rejected, then a continuation that
/// carries a failure. The continuation after the record's creation sets the
/// record's address; the one after the holder's creation moves the saga from
/// waiting for the holder to waiting for the token, whose initial balance is
/// the amount that the holder reports to have delegated; the one after the
/// token's creation records the position and mints its record.
pub open spec fn continued(
    state: PortalView,
    contract: Seq<char>,
    id: u64,
    outcome: Result<Seq<EventView>, Seq<char>>,
) -> Result<(PortalView, ResponseView), ContractError> {
    if id != EXEC_DELEGATE_AND_TOKENIZE_CALLBACK_ID_1 && id
        != EXEC_DELEGATE_AND_TOKENIZE_CALLBACK_ID_2 && id != INSTANTIATE_CALLBACK_ID {
        Err(ContractError::MalformedContinuation)
    } else {
        match outcome {
            Err(_) => Err(ContractError::UpstreamFailure),
            Ok(events) => if id == INSTANTIATE_CALLBACK_ID {
                match created_address(events) {
                    None => Err(ContractError::MalformedContinuation),
                    Some(record) => match record_created(state.env, record) {
                        Ok((env, report)) => Ok((PortalView { env, ..state }, report)),
                        Err(e) => Err(e),
                    },
                }
            } else if id == EXEC_DELEGATE_AND_TOKENIZE_CALLBACK_ID_1 {
                match state.scratch {
                    SagaScratchView::AwaitingHolder { owner, validator } => match observed_holder(
                        events,
                    ) {
                        Err(e) => Err(e),
                        Ok((holder, amount)) => holder_created(
                            state,
                            contract,
                            holder,
                            token_payload(owner, amount),
                        ),
                    },
                    _ => Err(ContractError::MalformedContinuation),
                }
            } else {
                match state.scratch {
                    SagaScratchView::AwaitingToken {
                        owner,
                        validator,
                        delegator_address,
                    } => match created_address(events) {
                        None => Err(ContractError::MalformedContinuation),
                        Some(token) => token_created(
                            state,
                            token,
                            record_mint_json(
                                position_id_chars(validator, count_of(state.history, validator)),
                                owner,
                            ),
                        ),
                    },
                    _ => Err(ContractError::MalformedContinuation),
                }
            },
        }
    }
}

/// Resumes the saga after the holder's creation.
pub(crate) fn on_holder_created(
    portal_env: &PortalEnv,
    scratch: &mut SagaScratch,
    env: &Env,
    events: &Vec<Event>,
) -> (result: Result<Response, ContractError>)
    ensures
        match old(scratch)@ {
            SagaScratchView::AwaitingHolder { owner, validator } => match observed_holder(
                views(events@),
            ) {
                Err(e) => result matches Err(found) && found == e,
                Ok((holder, amount)) => result matches Ok(response) && response@
                    == token_request(
                    portal_env@,
                    env.contract_address@,
                    token_payload(owner, amount),
                ) && final(scratch)@ == (SagaScratchView::AwaitingToken {
                    owner,
                    validator,
                    delegator_address: holder,
                }),
            },
            _ => result matches Err(ContractError::MalformedContinuation),
        },
        result is Err ==> *final(scratch) == *old(scratch),
{
    let owner = match &*scratch {
        SagaScratch::AwaitingHolder { owner, validator } => owner.clone(),
        _ => {
            return Err(ContractError::MalformedContinuation);
        },
    };
    let (holder, amount) = match read_holder_receipt(events) {
        Ok(observed) => observed,
        Err(e) => {
            return Err(e);
        },
    };
    match encode_token_payload(owner.as_str(), amount) {
        Err(e) => Err(e),
        Ok(token_init) => advance_to_token(portal_env, scratch, env, holder, token_init),
    }
}

/// Ends the saga after the token's creation.
pub(crate) fn on_token_created(
    portal_env: &PortalEnv,
    ledger: &mut Ledger,
    scratch: &mut SagaScratch,
    events: &Vec<Event>,
) -> (result: Result<Response, ContractError>)
    requires
        old(ledger).wf(),
    ensures
        final(ledger).wf(),
        match old(scratch)@ {
            SagaScratchView::AwaitingToken {
                owner,
                validator,
                delegator_address,
            } => match created_address(views(events@)) {
                None => result matches Err(ContractError::MalformedContinuation),
                Some(token) => match token_created(
                    portal_view(*portal_env, *old(ledger), *old(scratch)),
                    token,
                    record_mint_json(
                        position_id_chars(validator, old(ledger).count(validator)),
                        owner,
                    ),
                ) {
                    Ok((next, plan)) => result matches Ok(response) && response@ == plan
                        && portal_view(*portal_env, *final(ledger), *final(scratch)) == next,
                    Err(e) => result matches Err(found) && found == e,
                },
            },
            _ => result matches Err(ContractError::MalformedContinuation),
        },
        result is Err ==> *final(ledger) == *old(ledger) && *final(scratch) == *old(scratch),
{
    let (owner, validator) = match &*scratch {
        SagaScratch::AwaitingToken { owner, validator, delegator_address } => {
            if delegator_address.as_str().is_empty() {
                return Err(ContractError::MalformedContinuation);
            }
            (owner.clone(), validator.clone())
        },
        _ => {
            return Err(ContractError::MalformedContinuation);
        },
    };
    let token = match read_created_address(events) {
        Ok(address) => address,
        Err(e) => {
            return Err(e);
        },
    };
    let count = ledger.position_count(validator.as_str());
    if count > 0xffff_ffff {
        return Err(ContractError::LedgerFull);
    }
    let id = position_id(validator.as_str(), count as u32);
    match encoded(encode_record_mint(id.as_str(), owner.as_str())) {
        Err(e) => Err(e),
        Ok(mint) => complete_position(portal_env, ledger, scratch, token, mint),
    }
}

/// Takes the record's address after the record's creation.
pub(crate) fn on_record_created(
    portal_env: &mut PortalEnv,
    events: &Vec<Event>,
) -> (result: Result<Response, ContractError>)
    ensures
        match created_address(views(events@)) {
            None => result matches Err(ContractError::MalformedContinuation),
            Some(record) => match record_created(old(portal_env)@, record) {
                Ok((next, plan)) => result matches Ok(response) && response@ == plan
                    && final(portal_env)@ == next,
                Err(e) => result matches Err(found) && found == e,
            },
        },
        result is Err ==> *final(portal_env) == *old(portal_env),
{
    match read_created_address(events) {
        Err(e) => Err(e),
        Ok(record) => accept_record(portal_env, record),
    }
}

/// Creating a position keeps the ledger dense, in one step and when the saga
/// is only started.
pub proof fn lemma_delegation_keeps_density(
    state: PortalView,
    env: EnvView,
    info: MessageInfoView,
    validator: Seq<char>,
    predicted: Option<LiquidStakingDataView>,
)
    requires
        dense(state.history),
    ensures
        delegated(state, env, info, validator, predicted) matches Ok((next, plan)) ==> dense(
            next.history,
        ),
{
    if predicted is Some {
        let index = count_of(state.history, validator);
        lemma_dense_push(
            state.history,
            PositionView { validator, index, data: predicted->Some_0 },
        );
    }
}

/// Every continuation keeps the ledger dense.
pub proof fn lemma_continuation_keeps_density(
    state: PortalView,
    contract: Seq<char>,
    id: u64,
    outcome: Result<Seq<EventView>, Seq<char>>,
)
    requires
        dense(state.history),
    ensures
        continued(state, contract, id, outcome) matches Ok((next, plan)) ==> dense(next.history),
{
    if continued(state, contract, id, outcome) is Ok && id
        == EXEC_DELEGATE_AND_TOKENIZE_CALLBACK_ID_2 {
        let validator = state.scratch->AwaitingToken_validator;
        let index = count_of(state.history, validator);
        let token = created_address(outcome->Ok_0)->Some_0;
        lemma_dense_push(
            state.history,
            PositionView {
                validator,
                index,
                data: LiquidStakingDataView {
                    token_address: token,
                    delegator_address: state.scratch->AwaitingToken_delegator_address,
                },
            },
        );
    }
}

/// Whether every position has both its actors: a claim token and a holder,
/// each with an address.
pub open spec fn has_both_actors(history: Seq<PositionView>) -> bool {
    forall|i: int|
        0 <= i < history.len() ==> (#[trigger] history[i]).data.token_address.len() > 0
            && history[i].data.delegator_address.len() > 0
}

/// The saga is atomic. A continuation that carries a failure aborts the
/// execution, so nothing it would have written persists. A continuation that
/// succeeds leaves the ledger as it is, with one exception: the continuation
/// after the token's creation, met while the saga waits for the token, adds
/// one position, and that position has the holder's address from the scratch
/// record and the token's address from the receipt, neither of them empty.
pub proof fn lemma_saga_is_atomic(
    state: PortalView,
    contract: Seq<char>,
    id: u64,
    outcome: Result<Seq<EventView>, Seq<char>>,
)
    ensures
        outcome is Err ==> continued(state, contract, id, outcome) is Err,
        continued(state, contract, id, outcome) matches Ok((next, plan)) ==> {
            ||| next.history == state.history
            ||| {
                &&& id == EXEC_DELEGATE_AND_TOKENIZE_CALLBACK_ID_2
                &&& state.scratch matches SagaScratchView::AwaitingToken {
                    owner,
                    validator,
                    delegator_address,
                }
                &&& outcome matches Ok(events)
                &&& created_address(events) matches Some(token)
                &&& token.len() > 0
                &&& delegator_address.len() > 0
                &&& next.history == state.history.push(
                    PositionView {
                        validator,
                        index: count_of(state.history, validator),
                        data: LiquidStakingDataView { token_address: token, delegator_address },
                    },
                )
                &&& next.scratch == SagaScratchView::Idle
            }
        },
{
}

/// No position is ever recorded without both its actors: if every position
/// has both before a request to delegate, every position has both after it.
pub proof fn lemma_delegation_records_both_actors(
    state: PortalView,
    env: EnvView,
    info: MessageInfoView,
    validator: Seq<char>,
    predicted: Option<LiquidStakingDataView>,
)
    requires
        has_both_actors(state.history),
    ensures
        delegated(state, env, info, validator, predicted) matches Ok((next, plan))
            ==> has_both_actors(next.history),
{
}

/// No position is ever recorded without both its actors: if every position
/// has both before a continuation, every position has both after it.
pub proof fn lemma_continuation_records_both_actors(
    state: PortalView,
    contract: Seq<char>,
    id: u64,
    outcome: Result<Seq<EventView>, Seq<char>>,
)
    requires
        has_both_actors(state.history),
    ensures
        continued(state, contract, id, outcome) matches Ok((next, plan)) ==> has_both_actors(
            next.history,
        ),
{
    lemma_saga_is_atomic(state, contract, id, outcome);
}

} // verus!} // verus!
