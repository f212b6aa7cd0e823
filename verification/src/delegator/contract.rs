//! The delegation holder's executions: delegating on creation, and paying out
//! rewards and undelegating at its owner's request.

use crate::delegator::msg::{ExecuteMsg, ExecuteMsgView, InstantiateMsg};
use crate::error::ContractError;
use crate::host::{
    attribute, plain, views, Coin, CoinView, Env, Message, MessageInfo, MessageView, Response,
    ResponseView,
};
use crate::text::same_text;
use vstd::prelude::*;
use vstd::string::*;

verus! {

/// What a holder keeps: who owns it and the validator it delegates to. The
/// owner is the holder's creator; a holder whose ownership was given up has
/// none.
#[derive(Clone, Debug, PartialEq, Eq)]
pub struct HolderState {
    pub owner: Option<String>,
    pub validator: String,
}

/// What a `HolderState` holds.
#[verifier::ext_equal]
pub struct HolderStateView {
    pub owner: Option<Seq<char>>,
    pub validator: Seq<char>,
}

impl View for HolderState {
    type V = HolderStateView;

    open spec fn view(&self) -> HolderStateView {
        HolderStateView {
            owner: match self.owner {
                Some(owner) => Some(owner@),
                None => None,
            },
            validator: self.validator@,
        }
    }
}

/// What creating a holder hands to the platform: the delegation of every
/// attached coin to the validator, in the order of the coins.
pub open spec fn delegation_plan(
    sender: Seq<char>,
    validator: Seq<char>,
    funds: Seq<CoinView>,
) -> ResponseView {
    ResponseView {
        messages: funds.map_values(
            |fund: CoinView| plain(MessageView::Delegate { validator, amount: fund }),
        ),
        attributes: seq![attribute("method"@, "instantiate"@), attribute("owner"@, sender)],
    }
}

/// What paying out hands to the platform: rewards are directed to
/// `recipient`, withdrawn, and directed back to the holder itself, so that
/// what accrues later stays with the holder.
pub open spec fn withdraw_reward_plan(
    state: HolderStateView,
    contract: Seq<char>,
    recipient: Seq<char>,
) -> ResponseView {
    ResponseView {
        messages: seq![
            plain(MessageView::SetWithdrawAddress { address: recipient }),
            plain(MessageView::WithdrawDelegatorReward { validator: state.validator }),
            plain(MessageView::SetWithdrawAddress { address: contract }),
        ],
        attributes: seq![attribute("method"@, "execute"@), attribute("action"@, "withdraw_reward"@)],
    }
}

/// What undelegating hands to the platform: `amount` of the delegation, in
/// the denomination that the platform bonds, is taken back from the validator.
pub open spec fn undelegate_plan(
    state: HolderStateView,
    amount: nat,
    bonded_denom: Seq<char>,
) -> ResponseView {
    ResponseView {
        messages: seq![
            plain(
                MessageView::Undelegate {
                    validator: state.validator,
                    amount: CoinView { denom: bonded_denom, amount },
                },
            ),
        ],
        attributes: seq![attribute("method"@, "execute"@), attribute("action"@, "undelegate"@)],
    }
}

/// The holder's step on a request: what is handed to the platform, or the
/// error that aborts the execution. Only the owner is served; a holder
/// without owner serves nobody.
pub open spec fn executed(
    state: HolderStateView,
    contract: Seq<char>,
    sender: Seq<char>,
    msg: ExecuteMsgView,
    bonded_denom: Seq<char>,
) -> Result<ResponseView, ContractError> {
    if state.owner != Some(sender) {
        Err(ContractError::Unauthorized)
    } else {
        match msg {
            ExecuteMsgView::WithdrawReward { recipient } => Ok(
                withdraw_reward_plan(state, contract, recipient),
            ),
            ExecuteMsgView::Undelegate { amount } => Ok(undelegate_plan(state, amount, bonded_denom)),
        }
    }
}

/// Creates the holder: the caller becomes its owner and everything attached
/// to the call is delegated to the validator at once.
pub fn instantiate(info: &MessageInfo, msg: InstantiateMsg) -> (outcome: (HolderState, Response))
    ensures
        outcome.0@ == (HolderStateView { owner: Some(info.sender@), validator: msg.validator@ }),
        outcome.1@ == delegation_plan(info.sender@, msg.validator@, views(info.funds@)),
{
    let ghost plan = delegation_plan(info.sender@, msg.validator@, views(info.funds@));
    let mut response = Response::new().add_attribute("method", "instantiate").add_attribute(
        "owner",
        info.sender.as_str(),
    );
    assert(response@.attributes =~= plan.attributes);
    assert(response@.messages =~= plan.messages.take(0));
    let mut at: usize = 0;
    while at < info.funds.len()
        invariant
            at <= info.funds.len(),
            plan == delegation_plan(info.sender@, msg.validator@, views(info.funds@)),
            response@.attributes == plan.attributes,
            response@.messages == plan.messages.take(at as int),
        decreases info.funds.len() - at,
    {
        let delegate = Message::Delegate {
            validator: msg.validator.clone(),
            amount: info.funds[at].copy(),
        };
        response = response.add_message(delegate);
        assert(response@.messages =~= plan.messages.take(at + 1));
        at += 1;
    }
    assert(plan.messages.take(at as int) =~= plan.messages);
    let state = HolderState { owner: Some(info.sender.clone()), validator: msg.validator };
    (state, response)
}

/// The execution entry point: serves the owner's request and refuses anyone
/// else's. `bonded_denom` is the denomination that the platform bonds.
pub fn execute(
    state: &HolderState,
    env: &Env,
    info: &MessageInfo,
    msg: ExecuteMsg,
    bonded_denom: &str,
) -> (result: Result<Response, ContractError>)
    ensures
        match executed(state@, env.contract_address@, info.sender@, msg@, bonded_denom@) {
            Ok(plan) => result matches Ok(response) && response@ == plan,
            Err(e) => result matches Err(found) && found == e,
        },
        state@.owner != Some(info.sender@) ==> result matches Err(ContractError::Unauthorized),
{
    match &state.owner {
        Some(owner) => {
            if !same_text(info.sender.as_str(), owner.as_str()) {
                return Err(ContractError::Unauthorized);
            }
        },
        None => {
            return Err(ContractError::Unauthorized);
        },
    }
    match msg {
        ExecuteMsg::WithdrawReward { recipient } => Ok(execute_withdraw_reward(state, env, recipient)),
        ExecuteMsg::Undelegate { amount } => Ok(execute_undelegate(state, amount, bonded_denom)),
    }
}

/// Pays the rewards earned so far to `recipient`.
pub fn execute_withdraw_reward(
    state: &HolderState,
    env: &Env,
    recipient: String,
) -> (response: Response)
    ensures
        response@ == withdraw_reward_plan(state@, env.contract_address@, recipient@),
{
    let ghost plan = withdraw_reward_plan(state@, env.contract_address@, recipient@);
    let response = Response::new().add_message(
        Message::SetWithdrawAddress { address: recipient },
    ).add_message(
        Message::WithdrawDelegatorReward { validator: state.validator.clone() },
    ).add_message(
        Message::SetWithdrawAddress { address: env.contract_address.clone() },
    ).add_attribute("method", "execute").add_attribute("action", "withdraw_reward");
    assert(response@.messages =~= plan.messages);
    assert(response@.attributes =~= plan.attributes);
    response
}

/// Takes `amount` back from the delegation.
pub fn execute_undelegate(
    state: &HolderState,
    amount: u128,
    bonded_denom: &str,
) -> (response: Response)
    ensures
        response@ == undelegate_plan(state@, amount as nat, bonded_denom@),
{
    let ghost plan = undelegate_plan(state@, amount as nat, bonded_denom@);
    let coin = Coin { denom: bonded_denom.to_owned(), amount };
    let response = Response::new().add_message(
        Message::Undelegate { validator: state.validator.clone(), amount: coin },
    ).add_attribute("method", "execute").add_attribute("action", "undelegate");
    assert(response@.messages =~= plan.messages);
    assert(response@.attributes =~= plan.attributes);
    response
}

/// No request of anyone but the owner is served.
pub proof fn lemma_only_owner_is_served(
    state: HolderStateView,
    contract: Seq<char>,
    sender: Seq<char>,
    msg: ExecuteMsgView,
    bonded_denom: Seq<char>,
)
    requires
        state.owner != Some(sender),
    ensures
        executed(state, contract, sender, msg, bonded_denom) == Err::<ResponseView, ContractError>(
            ContractError::Unauthorized,
        ),
{
}

} // verus!
