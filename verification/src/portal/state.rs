//! What the portal keeps between executions.

use vstd::prelude::*;

verus! {

/// The portal's configuration, written once when the portal is set up.
#[derive(Clone, Debug, PartialEq, Eq)]
pub struct PortalEnv {
    /// The code of the claim token, one actor per position.
    pub cw20_code_id: u64,
    /// The address of the position record; empty until it is known.
    pub cw721_address: String,
    /// The code of the delegation holder, one actor per position.
    pub delegator_code_id: u64,
}

/// What a `PortalEnv` holds.
#[verifier::ext_equal]
pub struct PortalEnvView {
    pub cw20_code_id: u64,
    pub cw721_address: Seq<char>,
    pub delegator_code_id: u64,
}

impl View for PortalEnv {
    type V = PortalEnvView;

    open spec fn view(&self) -> PortalEnvView {
        PortalEnvView {
            cw20_code_id: self.cw20_code_id,
            cw721_address: self.cw721_address@,
            delegator_code_id: self.delegator_code_id,
        }
    }
}

/// The two actors of a position: the claim token and the delegation holder.
#[derive(Clone, Debug, PartialEq, Eq)]
pub struct LiquidStakingData {
    pub token_address: String,
    pub delegator_address: String,
}

/// What a `LiquidStakingData` holds.
#[verifier::ext_equal]
pub struct LiquidStakingDataView {
    pub token_address: Seq<char>,
    pub delegator_address: Seq<char>,
}

impl View for LiquidStakingData {
    type V = LiquidStakingDataView;

    open spec fn view(&self) -> LiquidStakingDataView {
        LiquidStakingDataView {
            token_address: self.token_address@,
            delegator_address: self.delegator_address@,
        }
    }
}

/// The actors of a position that may be absent, as plain values.
pub open spec fn actors_view(actors: Option<LiquidStakingData>) -> Option<LiquidStakingDataView> {
    match actors {
        Some(data) => Some(data@),
        None => None,
    }
}

/// Where the saga that creates a position stands when actors' addresses
/// are learned from the receipts of their creation. The record outlives one
/// execution and is read by the continuation that the platform resumes.
#[derive(Clone, Debug, PartialEq, Eq)]
pub enum SagaScratch {
    /// No saga is under way.
    Idle,
    /// The delegation holder is being created for `owner`.
    AwaitingHolder { owner: String, validator: String },
    /// The holder exists at `delegator_address`; the claim token is being created.
    AwaitingToken { owner: String, validator: String, delegator_address: String },
}

/// What a `SagaScratch` holds.
#[verifier::ext_equal]
pub enum SagaScratchView {
    Idle,
    AwaitingHolder { owner: Seq<char>, validator: Seq<char> },
    AwaitingToken { owner: Seq<char>, validator: Seq<char>, delegator_address: Seq<char> },
}

impl View for SagaScratch {
    type V = SagaScratchView;

    open spec fn view(&self) -> SagaScratchView {
        match *self {
            SagaScratch::Idle => SagaScratchView::Idle,
            SagaScratch::AwaitingHolder { owner, validator } => SagaScratchView::AwaitingHolder {
                owner: owner@,
                validator: validator@,
            },
            SagaScratch::AwaitingToken {
                owner,
                validator,
                delegator_address,
            } => SagaScratchView::AwaitingToken {
                owner: owner@,
                validator: validator@,
                delegator_address: delegator_address@,
            },
        }
    }
}

} // verus!
