//! The requests that a delegation holder takes, and their text on the wire.

use crate::error::ContractError;
use crate::platform::{encode_string, json_string};
use crate::text::{decimal, decimal_chars};
use vstd::prelude::*;
use vstd::string::*;
use vstd::utf8::encode_utf8;

verus! {

/// Creates a delegation holder for `validator`.
#[derive(Clone, Debug, PartialEq, Eq)]
pub struct InstantiateMsg {
    pub validator: String,
}

/// What the owner asks a delegation holder to do.
#[derive(Clone, Debug, PartialEq, Eq)]
pub enum ExecuteMsg {
    /// Pays the rewards earned so far to `recipient`.
    WithdrawReward { recipient: String },
    /// Takes `amount` back from the delegation.
    Undelegate { amount: u128 },
}

/// What an `ExecuteMsg` holds.
#[verifier::ext_equal]
pub enum ExecuteMsgView {
    WithdrawReward { recipient: Seq<char> },
    Undelegate { amount: nat },
}

impl View for ExecuteMsg {
    type V = ExecuteMsgView;

    open spec fn view(&self) -> ExecuteMsgView {
        match *self {
            ExecuteMsg::WithdrawReward { recipient } => ExecuteMsgView::WithdrawReward {
                recipient: recipient@,
            },
            ExecuteMsg::Undelegate { amount } => ExecuteMsgView::Undelegate { amount: amount as nat },
        }
    }
}

/// The JSON object with the one member `key`, whose value is the JSON text `value`.
pub open spec fn json_member(key: Seq<char>, value: Seq<u8>) -> Seq<u8> {
    encode_utf8(seq!['{', '"']) + encode_utf8(key) + encode_utf8(seq!['"', ':']) + value
        + encode_utf8(seq!['}'])
}

/// The JSON text of the message that creates a holder for `validator`.
pub open spec fn instantiate_json(validator: Seq<char>) -> Seq<u8> {
    json_member("validator"@, json_string(validator))
}

/// The JSON text of the message that pays the rewards to `recipient`.
pub open spec fn withdraw_reward_json(recipient: Seq<char>) -> Seq<u8> {
    json_member("withdraw_reward"@, json_member("recipient"@, json_string(recipient)))
}

/// The JSON text of the message that takes `amount` back. The amount is
/// written as a string of decimal digits.
pub open spec fn undelegate_json(amount: nat) -> Seq<u8> {
    json_member("undelegate"@, json_member("amount"@, json_string(decimal_chars(amount))))
}

/// Wraps the JSON text `value` into an object under the member `key`. The
/// key is written as it stands, so it must be a name that JSON need not escape.
pub fn wrap_member(key: &str, value: Vec<u8>) -> (object: Vec<u8>)
    ensures
        object@ == json_member(key@, value@),
{
    proof {
        reveal_strlit("{\"");
        reveal_strlit("\":");
        reveal_strlit("}");
        assert("{\""@ =~= seq!['{', '"']);
        assert("\":"@ =~= seq!['"', ':']);
        assert("}"@ =~= seq!['}']);
    }
    let mut object = "{\"".as_bytes_vec();
    let mut name = key.as_bytes_vec();
    let mut colon = "\":".as_bytes_vec();
    let mut value = value;
    let mut close = "}".as_bytes_vec();
    object.append(&mut name);
    object.append(&mut colon);
    object.append(&mut value);
    object.append(&mut close);
    object
}

/// The JSON text of a string, or the failure to encode it.
fn quoted(text: &str) -> (encoded: Result<Vec<u8>, ContractError>)
    ensures
        encoded matches Ok(bytes) && bytes@ == json_string(text@),
{
    match encode_string(text) {
        Ok(bytes) => Ok(bytes),
        Err(_) => Err(ContractError::Encoding),
    }
}

impl InstantiateMsg {
    /// Writes the message as the holder reads it.
    pub fn to_json(&self) -> (encoded: Result<Vec<u8>, ContractError>)
        ensures
            encoded matches Ok(bytes) && bytes@ == instantiate_json(self.validator@),
    {
        match quoted(self.validator.as_str()) {
            Ok(validator) => Ok(wrap_member("validator", validator)),
            Err(e) => Err(e),
        }
    }
}

impl ExecuteMsg {
    /// The JSON text of the message.
    pub open spec fn json(msg: ExecuteMsgView) -> Seq<u8> {
        match msg {
            ExecuteMsgView::WithdrawReward { recipient } => withdraw_reward_json(recipient),
            ExecuteMsgView::Undelegate { amount } => undelegate_json(amount),
        }
    }

    /// Writes the message as the holder reads it.
    pub fn to_json(&self) -> (encoded: Result<Vec<u8>, ContractError>)
        ensures
            encoded matches Ok(bytes) && bytes@ == Self::json(self@),
    {
        match self {
            ExecuteMsg::WithdrawReward { recipient } => {
                match quoted(recipient.as_str()) {
                    Ok(recipient) => Ok(
                        wrap_member("withdraw_reward", wrap_member("recipient", recipient)),
                    ),
                    Err(e) => Err(e),
                }
            },
            ExecuteMsg::Undelegate { amount } => {
                let digits = decimal(*amount);
                match quoted(digits.as_str()) {
                    Ok(amount) => Ok(wrap_member("undelegate", wrap_member("amount", amount))),
                    Err(e) => Err(e),
                }
            },
        }
    }
}

} // verus!
