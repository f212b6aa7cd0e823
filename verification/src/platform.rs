//! The platform's pure helpers: hashing, address derivation and the JSON
//! encoding of strings and of the messages that the token and record actors
//! define.
//!
//! Every function here hands its arguments to a crate outside this library.
//! Its contract is taken from that crate's source and is not proved.

use crate::text::decimal_chars;
use cosmwasm_std::{
    instantiate2_address, to_json_binary, CanonicalAddr, Empty, Instantiate2AddressError, StdError,
    Uint128,
};
use cw20::Cw20Coin;
use sha2::{Digest, Sha256};
use vstd::prelude::*;
use vstd::utf8::encode_utf8;

verus! {

/// The error that the platform's encoders report.
#[verifier::external_type_specification]
#[verifier::external_body]
pub struct ExStdError(StdError);

/// Why an address could not be derived.
#[derive(Clone, Copy, Debug, PartialEq, Eq, Structural)]
pub enum AddressFault {
    /// The code hash is not thirty-two bytes long.
    Checksum,
    /// The salt is empty or longer than sixty-four bytes.
    Salt,
}

/// The SHA-256 digest of `data`.
pub uninterp spec fn sha256_digest(data: Seq<u8>) -> Seq<u8>;

/// The address that the platform gives to an actor created from the code with
/// hash `checksum`, by `creator`, under `salt`.
pub uninterp spec fn derived_address(checksum: Seq<u8>, creator: Seq<u8>, salt: Seq<u8>) -> Seq<u8>;

/// The JSON text of the string `text`, quoted and escaped.
pub uninterp spec fn json_string(text: Seq<char>) -> Seq<u8>;

/// The JSON text of the record actor's creation message: an object with the
/// members `name`, `symbol` and `minter`, in this order.
pub open spec fn record_init_json(name: Seq<char>, symbol: Seq<char>, minter: Seq<char>) -> Seq<u8> {
    encode_utf8("{\"name\":"@) + json_string(name) + encode_utf8(",\"symbol\":"@) + json_string(
        symbol,
    ) + encode_utf8(",\"minter\":"@) + json_string(minter) + encode_utf8("}"@)
}

/// The JSON text of the record actor's mint message, without a resource
/// identifier and with an empty extension.
pub open spec fn record_mint_json(token_id: Seq<char>, owner: Seq<char>) -> Seq<u8> {
    encode_utf8("{\"mint\":{\"token_id\":"@) + json_string(token_id) + encode_utf8(
        ",\"owner\":"@,
    ) + json_string(owner) + encode_utf8(",\"token_uri\":null,\"extension\":{}}}"@)
}

/// The JSON text of the token actor's creation message with a single initial
/// balance, no minter and no marketing data. The amount is written as a
/// string of decimal digits.
pub open spec fn token_init_json(
    name: Seq<char>,
    symbol: Seq<char>,
    decimals: u8,
    holder: Seq<char>,
    amount: u128,
) -> Seq<u8> {
    encode_utf8("{\"name\":"@) + json_string(name) + encode_utf8(",\"symbol\":"@) + json_string(
        symbol,
    ) + encode_utf8(",\"decimals\":"@) + encode_utf8(decimal_chars(decimals as nat)) + encode_utf8(
        ",\"initial_balances\":[{\"address\":"@,
    ) + json_string(holder) + encode_utf8(",\"amount\":"@) + json_string(
        decimal_chars(amount as nat),
    ) + encode_utf8("}],\"mint\":null,\"marketing\":null}"@)
}

/// The JSON text of the token actor's burn-from message. The amount is
/// written as a string of decimal digits.
pub open spec fn token_burn_from_json(owner: Seq<char>, amount: u128) -> Seq<u8> {
    encode_utf8("{\"burn_from\":{\"owner\":"@) + json_string(owner) + encode_utf8(
        ",\"amount\":"@,
    ) + json_string(decimal_chars(amount as nat)) + encode_utf8("}}"@)
}

/// `sha2::Sha256::digest`: the digest is a function of the input alone and is
/// thirty-two bytes long.
#[verifier::external_body]
pub(crate) fn sha256(data: &[u8]) -> (digest: Vec<u8>)
    ensures
        digest@ == sha256_digest(data@),
        digest@.len() == 32,
{
    Sha256::digest(data).to_vec()
}

/// `cosmwasm_std::instantiate2_address`: it refuses a code hash that is not
/// thirty-two bytes, then a salt that is empty or longer than sixty-four bytes,
/// and otherwise returns thirty-two bytes that depend on the three inputs alone.
#[verifier::external_body]
pub(crate) fn derive_address(
    checksum: &[u8],
    creator: &[u8],
    salt: &[u8],
) -> (derived: Result<Vec<u8>, AddressFault>)
    ensures
        checksum@.len() != 32 ==> derived matches Err(AddressFault::Checksum),
        checksum@.len() == 32 && (salt@.len() == 0 || salt@.len() > 64) ==> derived matches Err(
            AddressFault::Salt,
        ),
        checksum@.len() == 32 && 1 <= salt@.len() <= 64 ==> derived is Ok,
        derived matches Ok(address) ==> address@ == derived_address(checksum@, creator@, salt@)
            && address@.len() == 32,
{
    match instantiate2_address(checksum, &CanonicalAddr::from(creator), salt) {
        Ok(address) => Ok(address.into()),
        Err(Instantiate2AddressError::InvalidChecksumLength) => Err(AddressFault::Checksum),
        Err(Instantiate2AddressError::InvalidSaltLength) => Err(AddressFault::Salt),
    }
}

/// `cosmwasm_std::to_json_binary` on a string: it does not fail, and the JSON
/// text is a function of the string alone.
#[verifier::external_body]
pub(crate) fn encode_string(text: &str) -> (encoded: Result<Vec<u8>, StdError>)
    ensures
        encoded is Ok,
        encoded matches Ok(bytes) ==> bytes@ == json_string(text@),
{
    to_json_binary(text).map(|binary| binary.0)
}

/// `cosmwasm_std::to_json_binary` on `cw721_base::msg::InstantiateMsg`: it
/// does not fail and writes the three members in the order of the fields.
#[verifier::external_body]
pub(crate) fn encode_record_init(
    name: &str,
    symbol: &str,
    minter: &str,
) -> (encoded: Result<Vec<u8>, StdError>)
    ensures
        encoded is Ok,
        encoded matches Ok(bytes) ==> bytes@ == record_init_json(name@, symbol@, minter@),
{
    let msg = cw721_base::msg::InstantiateMsg {
        name: name.to_string(),
        symbol: symbol.to_string(),
        minter: minter.to_string(),
    };
    to_json_binary(&msg).map(|binary| binary.0)
}

/// `cosmwasm_std::to_json_binary` on the `Mint` variant of
/// `cw721_base::msg::ExecuteMsg`, with no resource identifier and the empty
/// extension: it does not fail and writes the variant's name over its four
/// members.
#[verifier::external_body]
pub(crate) fn encode_record_mint(
    token_id: &str,
    owner: &str,
) -> (encoded: Result<Vec<u8>, StdError>)
    ensures
        encoded is Ok,
        encoded matches Ok(bytes) ==> bytes@ == record_mint_json(token_id@, owner@),
{
    let msg = cw721_base::msg::ExecuteMsg::<Empty, Empty>::Mint {
        token_id: token_id.to_string(),
        owner: owner.to_string(),
        token_uri: None,
        extension: Empty {},
    };
    to_json_binary(&msg).map(|binary| binary.0)
}

/// `cosmwasm_std::to_json_binary` on `cw20_base::msg::InstantiateMsg`, with one
/// initial balance, no minter and no marketing data: it does not fail and
/// writes the six members in the order of the fields.
#[verifier::external_body]
pub(crate) fn encode_token_init(
    name: &str,
    symbol: &str,
    decimals: u8,
    holder: &str,
    amount: u128,
) -> (encoded: Result<Vec<u8>, StdError>)
    ensures
        encoded is Ok,
        encoded matches Ok(bytes) ==> bytes@ == token_init_json(
            name@,
            symbol@,
            decimals,
            holder@,
            amount,
        ),
{
    let msg = cw20_base::msg::InstantiateMsg {
        name: name.to_string(),
        symbol: symbol.to_string(),
        decimals,
        initial_balances: vec![Cw20Coin { address: holder.to_string(), amount: Uint128::new(amount) }],
        mint: None,
        marketing: None,
    };
    to_json_binary(&msg).map(|binary| binary.0)
}

/// `cosmwasm_std::to_json_binary` on the `BurnFrom` variant of
/// `cw20_base::msg::ExecuteMsg`: it does not fail and writes the variant's
/// name over its two members.
#[verifier::external_body]
pub(crate) fn encode_token_burn_from(
    owner: &str,
    amount: u128,
) -> (encoded: Result<Vec<u8>, StdError>)
    ensures
        encoded is Ok,
        encoded matches Ok(bytes) ==> bytes@ == token_burn_from_json(owner@, amount),
{
    let msg = cw20_base::msg::ExecuteMsg::BurnFrom {
        owner: owner.to_string(),
        amount: Uint128::new(amount),
    };
    to_json_binary(&msg).map(|binary| binary.0)
}

} // verus!
