//! Liquid-staking orchestration: a portal actor that turns a delegation into a
//! tradable claim, and the delegation-holder actor it creates per position.
//!
//! A caller sends funds and names a validator. The portal has a delegation
//! holder created, which delegates the funds; a claim token, whose supply is
//! the delegated amount; and a record of the position, minted to the caller.
//! The three are tied together by an entry in the portal's append-only ledger.
//!
//! The library decides and the platform acts. Every execution is a function
//! from the actor's state and a request to the next state and the
//! instructions for the platform; reading and writing storage, asking the
//! platform questions and sending the instructions is left to the caller.
//!
//! - [`portal`] holds the orchestrator: the address predictor, the position
//!   ledger, the saga that creates a position, and the payout and undelegate
//!   fan-out.
//! - [`delegator`] holds the delegation holder.
//! - [`host`] models what the platform hands to an actor and takes from it.
//! - [`platform`] wraps the platform's pure helpers, which are trusted.
//! - [`text`] reads and writes numbers and position ids.
//! - [`error`] is the error taxonomy.

pub mod delegator;
pub mod error;
pub mod host;
pub mod platform;
pub mod portal;
pub mod text;
