//! Resolving a code id to the hash of its code, through the platform's query
//! for stored code.

use crate::error::ContractError;
use vstd::prelude::*;
use vstd::string::*;

verus! {

/// A query that the platform routes by its path.
#[derive(Clone, Debug, PartialEq, Eq)]
pub struct CustomQuery {
    pub path: String,
    pub data: Vec<u8>,
}

/// Asks for the stored code `code_id`.
#[derive(Clone, Copy, Debug, PartialEq, Eq, Structural)]
pub struct QueryCodeRequest {
    pub code_id: u64,
}

/// The platform's answer about a stored code.
#[derive(Clone, Debug, PartialEq, Eq)]
pub struct QueryCodeResponse {
    pub code_info: Option<CodeInfoResponse>,
}

/// What the platform knows of a stored code.
#[derive(Clone, Debug, PartialEq, Eq)]
pub struct CodeInfoResponse {
    pub data_hash: Vec<u8>,
}

/// How a raw query ended: at the platform, at the queried actor, or well.
#[derive(Debug, PartialEq, Eq)]
pub enum QuerierResult {
    /// The platform could not carry the query out.
    SystemErr(String),
    /// The queried actor refused the query.
    ContractErr(String),
    /// The answer.
    Answer(Vec<u8>),
}

/// The path of the platform's query for stored code.
pub open spec fn code_query_path() -> Seq<char> {
    "/cosmwasm.wasm.v1.Query/Code"@
}

/// The request that resolves `code_id`, and the path to send it to.
pub fn code_request(code_id: u64) -> (request: (String, QueryCodeRequest))
    ensures
        request.0@ == code_query_path(),
        request.1 == (QueryCodeRequest { code_id }),
{
    ("/cosmwasm.wasm.v1.Query/Code".to_owned(), QueryCodeRequest { code_id })
}

/// The code hash that the platform's answer carries. An answer without code
/// information means that the code id could not be resolved.
pub fn query_wasm_code_hash(response: QueryCodeResponse) -> (hash: Result<Vec<u8>, ContractError>)
    ensures
        match response.code_info {
            Some(info) => hash matches Ok(bytes) && bytes@ == info.data_hash@,
            None => hash matches Err(ContractError::NotFound),
        },
{
    match response.code_info {
        Some(info) => Ok(info.data_hash),
        None => Err(ContractError::NotFound),
    }
}

/// The answer of a raw query, or the failure of the actor or platform that
/// was asked.
pub fn query(outcome: QuerierResult) -> (answer: Result<Vec<u8>, ContractError>)
    ensures
        match outcome {
            QuerierResult::Answer(value) => answer matches Ok(bytes) && bytes@ == value@,
            _ => answer matches Err(ContractError::UpstreamFailure),
        },
{
    match outcome {
        QuerierResult::SystemErr(_) => Err(ContractError::UpstreamFailure),
        QuerierResult::ContractErr(_) => Err(ContractError::UpstreamFailure),
        QuerierResult::Answer(value) => Ok(value),
    }
}

} // verus!
