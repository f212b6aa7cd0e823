//! Resolving position ids, paying out rewards and undelegating.

use crate::delegator::msg::{undelegate_json, withdraw_reward_json, ExecuteMsg as HolderExecuteMsg};
use crate::error::ContractError;
use crate::host::{plain, views, MessageInfo, Response, ResponseView};
use crate::platform::{encode_token_burn_from, token_burn_from_json};
use crate::portal::ledger::{count_of, dense, table, Ledger, PositionView};
use crate::portal::plan::{call, call_message, copy_bytes, encoded, table_of, PortalView};
use crate::portal::state::{LiquidStakingData, LiquidStakingDataView};
use crate::text::{lemma_position_id_reads_back, parse_position_id, position_id_chars, position_key};
use vstd::prelude::*;
use vstd::string::*;

verus! {

/// The actors of the position that `id` names: a parse failure if `id` names
/// none, not found if the position was never recorded.
pub open spec fn resolved(
    table: Map<(Seq<char>, nat), LiquidStakingDataView>,
    id: Seq<char>,
) -> Result<LiquidStakingDataView, ContractError> {
    match position_key(id) {
        None => Err(ContractError::ParseFailure),
        Some(key) => if table.dom().contains(key) {
            Ok(table[key])
        } else {
            Err(ContractError::NotFound)
        },
    }
}

/// The actors of the positions that the first `upto` of `ids` name, in order,
/// or the error of the first id that cannot be resolved.
pub open spec fn resolved_all(
    table: Map<(Seq<char>, nat), LiquidStakingDataView>,
    ids: Seq<Seq<char>>,
    upto: int,
) -> Result<Seq<LiquidStakingDataView>, ContractError>
    decreases upto,
{
    if upto <= 0 {
        Ok(Seq::empty())
    } else {
        match resolved_all(table, ids, upto - 1) {
            Err(e) => Err(e),
            Ok(found) => match resolved(table, ids[upto - 1]) {
                Err(e) => Err(e),
                Ok(data) => Ok(found.push(data)),
            },
        }
    }
}

/// Resolves a position id to the position's actors.
pub fn load_ls_data(ledger: &Ledger, id: &str) -> (data: Result<LiquidStakingData, ContractError>)
    requires
        ledger.wf(),
    ensures
        match resolved(ledger@, id@) {
            Ok(d) => data matches Ok(found) && found@ == d,
            Err(e) => data matches Err(found) && found == e,
        },
{
    match parse_position_id(id) {
        None => Err(ContractError::ParseFailure),
        Some((validator, index)) => match ledger.get(validator.as_str(), index) {
            Some(data) => Ok(data),
            None => Err(ContractError::NotFound),
        },
    }
}

/// Resolves position ids to the positions' actors, in order.
pub fn load_all(
    ledger: &Ledger,
    ids: &Vec<String>,
) -> (all: Result<Vec<LiquidStakingData>, ContractError>)
    requires
        ledger.wf(),
    ensures
        match resolved_all(ledger@, views(ids@), ids@.len() as int) {
            Ok(positions) => all matches Ok(found) && views(found@) == positions,
            Err(e) => all matches Err(found) && found == e,
        },
{
    let mut found: Vec<LiquidStakingData> = Vec::new();
    let mut at: usize = 0;
    assert(views(found@) =~= Seq::<LiquidStakingDataView>::empty());
    while at < ids.len()
        invariant
            at <= ids.len(),
            ledger.wf(),
            resolved_all(ledger@, views(ids@), at as int) == Ok::<
                Seq<LiquidStakingDataView>,
                ContractError,
            >(views(found@)),
        decreases ids.len() - at,
    {
        let ghost before = views(found@);
        match load_ls_data(ledger, ids[at].as_str()) {
            Err(e) => {
                proof {
                    lemma_resolved_all_fails(ledger@, views(ids@), at + 1, ids@.len() as int);
                }
                return Err(e);
            },
            Ok(data) => {
                found.push(data);
                assert(views(found@) =~= before.push(data@));
            },
        }
        at += 1;
    }
    Ok(found)
}

/// Once an id cannot be resolved, no longer run of ids can.
pub proof fn lemma_resolved_all_fails(
    table: Map<(Seq<char>, nat), LiquidStakingDataView>,
    ids: Seq<Seq<char>>,
    failed: int,
    upto: int,
)
    requires
        failed <= upto,
        resolved_all(table, ids, failed) is Err,
    ensures
        resolved_all(table, ids, upto) == resolved_all(table, ids, failed),
    decreases upto - failed,
{
    if failed < upto {
        lemma_resolved_all_fails(table, ids, failed, upto - 1);
    }
}

/// What paying out the rewards of `positions` hands to the platform: one call
/// per position, to the position's holder, in the order of the positions.
pub open spec fn withdraw_plan(
    positions: Seq<LiquidStakingDataView>,
    payload: Seq<u8>,
) -> ResponseView {
    ResponseView {
        messages: positions.map_values(
            |position: LiquidStakingDataView| plain(call(position.delegator_address, payload)),
        ),
        attributes: Seq::empty(),
    }
}

/// Paying the caller the rewards of the positions that `owned` names: nothing
/// changes; each position's holder is told to pay the caller.
pub open spec fn withdrawn(
    state: PortalView,
    sender: Seq<char>,
    owned: Seq<Seq<char>>,
) -> Result<(PortalView, ResponseView), ContractError> {
    match resolved_all(table_of(state), owned, owned.len() as int) {
        Err(e) => Err(e),
        Ok(positions) => Ok((state, withdraw_plan(positions, withdraw_reward_json(sender)))),
    }
}

/// Tells the holder of each of `positions` to pay out its rewards, given the
/// payload that says so.
pub fn assemble_withdraw_all_reward(
    positions: &Vec<LiquidStakingData>,
    payload: &Vec<u8>,
) -> (response: Response)
    ensures
        response@ == withdraw_plan(views(positions@), payload@),
{
    let mut response = Response::new();
    let mut at: usize = 0;
    while at < positions.len()
        invariant
            at <= positions.len(),
            response@ == withdraw_plan(views(positions@).take(at as int), payload@),
        decreases positions.len() - at,
    {
        let ghost before = response@;
        let ghost done = views(positions@).take(at as int);
        let message = call_message(positions[at].delegator_address.as_str(), copy_bytes(payload));
        response = response.add_message(message);
        proof {
            let longer = views(positions@).take(at + 1);
            assert(longer =~= done.push(positions@[at as int]@));
            assert(response@.messages =~= withdraw_plan(longer, payload@).messages);
        }
        at += 1;
    }
    assert(views(positions@).take(at as int) =~= views(positions@));
    response
}

/// Pays the caller the rewards of every position that the caller owns.
/// `owned` holds the ids of those positions, as the position record reports
/// them. Each position's holder is told to pay the caller, in the order of
/// `owned`; nothing is handed over if there is none. The first id that cannot
/// be resolved fails the execution.
pub fn execute_withdraw_all_reward(
    ledger: &Ledger,
    info: &MessageInfo,
    owned: &Vec<String>,
) -> (result: Result<Response, ContractError>)
    requires
        ledger.wf(),
    ensures
        match resolved_all(ledger@, views(owned@), owned@.len() as int) {
            Ok(positions) => result matches Ok(response) && response@ == withdraw_plan(
                positions,
                withdraw_reward_json(info.sender@),
            ),
            Err(e) => result matches Err(found) && found == e,
        },
{
    let positions = match load_all(ledger, owned) {
        Ok(positions) => positions,
        Err(e) => {
            return Err(e);
        },
    };
    match (HolderExecuteMsg::WithdrawReward { recipient: info.sender.clone() }).to_json() {
        Err(e) => Err(e),
        Ok(payload) => Ok(assemble_withdraw_all_reward(&positions, &payload)),
    }
}

/// What undelegating hands to the platform: the burning of the claim, then
/// the undelegation by the holder.
pub open spec fn undelegate_plan(
    data: LiquidStakingDataView,
    burn: Seq<u8>,
    undelegate: Seq<u8>,
) -> ResponseView {
    ResponseView {
        messages: seq![
            plain(call(data.token_address, burn)),
            plain(call(data.delegator_address, undelegate)),
        ],
        attributes: Seq::empty(),
    }
}

/// Undelegating `amount` from the position `id`: nothing changes; the claim
/// token is told to burn `amount` of the caller's balance and the holder to
/// take as much back from the delegation.
pub open spec fn undelegated(
    state: PortalView,
    sender: Seq<char>,
    id: Seq<char>,
    amount: nat,
) -> Result<(PortalView, ResponseView), ContractError> {
    match resolved(table_of(state), id) {
        Err(e) => Err(e),
        Ok(data) => Ok(
            (
                state,
                undelegate_plan(
                    data,
                    token_burn_from_json(sender, amount as u128),
                    undelegate_json(amount),
                ),
            ),
        ),
    }
}

/// Tells the claim token and the holder of a position to undelegate, given
/// the two payloads that say so.
pub fn assemble_undelegate(
    data: &LiquidStakingData,
    burn: Vec<u8>,
    undelegate: Vec<u8>,
) -> (response: Response)
    ensures
        response@ == undelegate_plan(data@, burn@, undelegate@),
{
    let token = call_message(data.token_address.as_str(), burn);
    let holder = call_message(data.delegator_address.as_str(), undelegate);
    let response = Response::new().add_message(token).add_message(holder);
    let ghost plan = undelegate_plan(data@, burn@, undelegate@);
    assert(response@.messages =~= plan.messages);
    response
}

/// Burns `amount` of the caller's claim on the position `id` and takes as
/// much back from the position's delegation. The position stays in the ledger.
pub fn execute_undelegate(
    ledger: &Ledger,
    info: &MessageInfo,
    id: &str,
    amount: u128,
) -> (result: Result<Response, ContractError>)
    requires
        ledger.wf(),
    ensures
        match resolved(ledger@, id@) {
            Ok(data) => result matches Ok(response) && response@ == undelegate_plan(
                data,
                token_burn_from_json(info.sender@, amount),
                undelegate_json(amount as nat),
            ),
            Err(e) => result matches Err(found) && found == e,
        },
{
    let data = match load_ls_data(ledger, id) {
        Ok(data) => data,
        Err(e) => {
            return Err(e);
        },
    };
    let burn = match encoded(encode_token_burn_from(info.sender.as_str(), amount)) {
        Ok(bytes) => bytes,
        Err(e) => {
            return Err(e);
        },
    };
    match (HolderExecuteMsg::Undelegate { amount }).to_json() {
        Err(e) => Err(e),
        Ok(undelegate) => Ok(assemble_undelegate(&data, burn, undelegate)),
    }
}

/// The payout fans out completely: if every id in `owned` resolves, there is
/// exactly one instruction per id, in the order of `owned`, and it calls the
/// holder of the position that the id names. Nothing is handed over if
/// `owned` is empty.
pub proof fn lemma_fan_out_is_complete(state: PortalView, sender: Seq<char>, owned: Seq<Seq<char>>)
    ensures
        owned.len() == 0 ==> (withdrawn(state, sender, owned) matches Ok((next, plan))
            && plan.messages.len() == 0),
        withdrawn(state, sender, owned) matches Ok((next, plan)) ==> {
            &&& next == state
            &&& plan.messages.len() == owned.len()
            &&& forall|i: int|
                0 <= i < owned.len() ==> (resolved(table_of(state), #[trigger] owned[i]) matches Ok(
                    data,
                ) && plan.messages[i] == plain(
                    call(data.delegator_address, withdraw_reward_json(sender)),
                ))
        },
{
    lemma_resolved_all_covers(table_of(state), owned, owned.len() as int);
}

/// A run of ids that resolves yields one position per id, in order.
pub proof fn lemma_resolved_all_covers(
    table: Map<(Seq<char>, nat), LiquidStakingDataView>,
    ids: Seq<Seq<char>>,
    upto: int,
)
    requires
        0 <= upto <= ids.len(),
    ensures
        resolved_all(table, ids, upto) matches Ok(positions) ==> positions.len() == upto
            && forall|i: int|
            0 <= i < upto ==> resolved(table, #[trigger] ids[i]) == Ok::<
                LiquidStakingDataView,
                ContractError,
            >(positions[i]),
    decreases upto,
{
    if upto > 0 {
        lemma_resolved_all_covers(table, ids, upto - 1);
    }
}

/// The id under which a position's record is minted resolves to the position:
/// once a position is recorded under its validator's next index, the id
/// written from validator and index names the position's actors. This holds
/// for every validator whose name holds no slash.
pub proof fn lemma_minted_id_resolves(
    history: Seq<PositionView>,
    validator: Seq<char>,
    data: LiquidStakingDataView,
)
    requires
        dense(history),
        forall|j: int| 0 <= j < validator.len() ==> validator[j] != '/',
        count_of(history, validator) <= u32::MAX,
    ensures
        resolved(
            table(
                history.push(
                    PositionView { validator, index: count_of(history, validator), data },
                ),
            ),
            position_id_chars(validator, count_of(history, validator)),
        ) == Ok::<LiquidStakingDataView, ContractError>(data),
{
    let index = count_of(history, validator);
    let longer = history.push(PositionView { validator, index, data });
    lemma_position_id_reads_back(validator, index);
    assert(longer.drop_last() =~= history);
}

} // verus!
