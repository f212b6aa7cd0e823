//! The error taxonomy shared by the portal and the delegation holder.

use vstd::prelude::*;

verus! {

/// Why an execution was aborted. Nothing is retried and nothing is committed
/// once one of these is returned.
#[derive(Clone, Copy, Debug, PartialEq, Eq, Structural)]
pub enum ContractError {
    /// The caller is not the owner of the actor or position.
    Unauthorized,
    /// An unknown position id, a code hash that could not be resolved, or a
    /// predicted address that is missing.
    NotFound,
    /// An unexpected continuation tag, or a success continuation whose
    /// receipt lacks the expected record or attribute.
    MalformedContinuation,
    /// An instruction forwarded to a sub-actor failed.
    UpstreamFailure,
    /// A malformed composite id or a non-numeric field.
    ParseFailure,
    /// A salt outside the one to sixty-four bytes that address prediction takes.
    InvalidSalt,
    /// The platform failed to encode a payload. Its encoders do not fail on
    /// the messages that this library builds.
    Encoding,
    /// No coin is attached to a request that delegates.
    NoFunds,
    /// The validator already holds as many positions as an index can number.
    LedgerFull,
}

impl ContractError {
    /// A short description of the error, for the caller of the aborted execution.
    pub fn message(&self) -> (text: String)
        ensures
            text@ == Self::spec_message(*self),
    {
        match self {
            ContractError::Unauthorized => "unauthorized".to_owned(),
            ContractError::NotFound => "not found".to_owned(),
            ContractError::MalformedContinuation => "malformed continuation".to_owned(),
            ContractError::UpstreamFailure => "upstream failure".to_owned(),
            ContractError::ParseFailure => "parse failure".to_owned(),
            ContractError::InvalidSalt => "invalid salt length".to_owned(),
            ContractError::Encoding => "payload encoding failed".to_owned(),
            ContractError::NoFunds => "no funds attached".to_owned(),
            ContractError::LedgerFull => "position ledger is full".to_owned(),
        }
    }

    /// The text that `message` returns for each error.
    pub open spec fn spec_message(e: ContractError) -> Seq<char> {
        match e {
            ContractError::Unauthorized => "unauthorized"@,
            ContractError::NotFound => "not found"@,
            ContractError::MalformedContinuation => "malformed continuation"@,
            ContractError::UpstreamFailure => "upstream failure"@,
            ContractError::ParseFailure => "parse failure"@,
            ContractError::InvalidSalt => "invalid salt length"@,
            ContractError::Encoding => "payload encoding failed"@,
            ContractError::NoFunds => "no funds attached"@,
            ContractError::LedgerFull => "position ledger is full"@,
        }
    }
}

} // verus!
