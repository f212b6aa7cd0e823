use liquid_staking::error::ContractError;
use liquid_staking::host::{Attribute, Message, Response, SubMsg};
use liquid_staking::portal::querier::{
    code_request, query, query_wasm_code_hash, CodeInfoResponse, QuerierResult, QueryCodeRequest,
    QueryCodeResponse,
};

#[test]
fn code_request_names_the_code_and_the_path() {
    assert_eq!(
        code_request(7),
        ("/cosmwasm.wasm.v1.Query/Code".to_string(), QueryCodeRequest { code_id: 7 })
    );
}

#[test]
fn query_wasm_code_hash_returns_the_hash() {
    let response = QueryCodeResponse { code_info: Some(CodeInfoResponse { data_hash: vec![1, 2, 3] }) };
    assert_eq!(query_wasm_code_hash(response), Ok(vec![1, 2, 3]));
}

#[test]
fn query_wasm_code_hash_reports_unresolved_code() {
    let response = QueryCodeResponse { code_info: None };
    assert_eq!(query_wasm_code_hash(response), Err(ContractError::NotFound));
}

#[test]
fn query_returns_the_answer() {
    assert_eq!(query(QuerierResult::Answer(vec![4, 5])), Ok(vec![4, 5]));
}

#[test]
fn query_reports_upstream_failures() {
    assert_eq!(
        query(QuerierResult::SystemErr("no such contract".to_string())),
        Err(ContractError::UpstreamFailure)
    );
    assert_eq!(
        query(QuerierResult::ContractErr("bad request".to_string())),
        Err(ContractError::UpstreamFailure)
    );
}

#[test]
fn every_error_describes_itself() {
    let all = [
        (ContractError::Unauthorized, "unauthorized"),
        (ContractError::NotFound, "not found"),
        (ContractError::MalformedContinuation, "malformed continuation"),
        (ContractError::UpstreamFailure, "upstream failure"),
        (ContractError::ParseFailure, "parse failure"),
        (ContractError::InvalidSalt, "invalid salt length"),
        (ContractError::Encoding, "payload encoding failed"),
        (ContractError::NoFunds, "no funds attached"),
        (ContractError::LedgerFull, "position ledger is full"),
    ];
    for (error, text) in all {
        assert_eq!(error.message(), text);
    }
}

#[test]
fn responses_collect_instructions_and_attributes_in_order() {
    let first = Message::SetWithdrawAddress { address: "a".to_string() };
    let second = Message::WithdrawDelegatorReward { validator: "v".to_string() };
    let response = Response::new()
        .add_attribute("k1", "v1")
        .add_message(first.clone())
        .add_submessage(9, second.clone())
        .add_attribute("k2", "v2");
    assert_eq!(
        response,
        Response {
            messages: vec![
                SubMsg { reply_id: None, msg: first },
                SubMsg { reply_id: Some(9), msg: second },
            ],
            attributes: vec![
                Attribute { key: "k1".to_string(), value: "v1".to_string() },
                Attribute { key: "k2".to_string(), value: "v2".to_string() },
            ],
        }
    );
    assert_eq!(Response::new(), Response { messages: vec![], attributes: vec![] });
}
