//! The portal: the orchestrator that turns a delegation into a position.

pub mod address;
pub mod contract;
pub mod cosmos_msg;
pub mod ledger;
pub mod msg;
pub mod payout;
pub mod plan;
pub mod querier;
pub mod saga;
pub mod state;
