//! The requests that the portal takes and the answers to its queries.

use vstd::prelude::*;

verus! {

/// Sets the portal up: the code of the claim token, of the position record
/// and of the delegation holder.
#[derive(Clone, Copy, Debug, PartialEq, Eq, Structural)]
pub struct InstantiateMsg {
    pub cw20_code_id: u64,
    pub cw721_code_id: u64,
    pub delegator_code_id: u64,
}

/// What callers ask the portal to do.
#[derive(Clone, Debug, PartialEq, Eq)]
pub enum ExecuteMsg {
    /// Delegates the attached funds to `validator` and mints the claim on them.
    DelegateAndTokenize { validator: String },
    /// Pays the caller the rewards of every position the caller owns.
    WithdrawAllReward {  },
    /// Burns `amount` of the claim on the position `id` and takes as much
    /// back from its delegation.
    Undelegate { id: String, amount: u128 },
}

/// What an `ExecuteMsg` holds.
#[verifier::ext_equal]
pub enum ExecuteMsgView {
    DelegateAndTokenize { validator: Seq<char> },
    WithdrawAllReward,
    Undelegate { id: Seq<char>, amount: nat },
}

impl View for ExecuteMsg {
    type V = ExecuteMsgView;

    open spec fn view(&self) -> ExecuteMsgView {
        match *self {
            ExecuteMsg::DelegateAndTokenize { validator } => ExecuteMsgView::DelegateAndTokenize {
                validator: validator@,
            },
            ExecuteMsg::WithdrawAllReward {  } => ExecuteMsgView::WithdrawAllReward,
            ExecuteMsg::Undelegate { id, amount } => ExecuteMsgView::Undelegate {
                id: id@,
                amount: amount as nat,
            },
        }
    }
}

/// What callers ask the portal about.
#[derive(Clone, Debug, PartialEq, Eq)]
pub enum QueryMsg {
    /// The portal's configuration.
    Env {  },
    /// The position `id`.
    Data { id: String },
    /// The ids of all positions.
    All {  },
}

/// The portal's configuration.
#[derive(Clone, Debug, PartialEq, Eq)]
pub struct EnvResponse {
    pub cw20_code_id: u64,
    pub cw721_address: String,
    pub delegator_code_id: u64,
}

/// The two actors of a position.
#[derive(Clone, Debug, PartialEq, Eq)]
pub struct DataResponse {
    pub token_address: String,
    pub delegator_address: String,
}

/// The ids of all positions.
#[derive(Clone, Debug, PartialEq, Eq)]
pub struct AllResponse {
    pub data: Vec<String>,
}

/// The answer to a query.
#[derive(Clone, Debug, PartialEq, Eq)]
pub enum QueryResponse {
    Env(EnvResponse),
    Data(DataResponse),
    All(AllResponse),
}

} // verus!
