//! Predicting the address of an actor before the actor exists.

use crate::error::ContractError;
use crate::host::Env;
use crate::platform::{derive_address, derived_address, sha256, sha256_digest, AddressFault};
use crate::portal::ledger::Ledger;
use crate::text::{hex, hex_upper, position_id, position_id_chars};
use vstd::prelude::*;
use vstd::string::*;
use vstd::utf8::{encode_utf8, is_ascii_chars_encode_utf8};

verus! {

/// The address at which the platform will create an actor from the code with
/// hash `code_hash`, for `creator` and under `salt`. A hash that is not
/// thirty-two bytes long is no code hash, so the code counts as unresolved.
pub open spec fn predicted_address(
    creator: Seq<u8>,
    code_hash: Seq<u8>,
    salt: Seq<u8>,
) -> Result<Seq<u8>, ContractError> {
    if code_hash.len() != 32 {
        Err(ContractError::NotFound)
    } else if salt.len() == 0 || salt.len() > 64 {
        Err(ContractError::InvalidSalt)
    } else {
        Ok(derived_address(code_hash, creator, salt))
    }
}

/// The bytes of an address, or the error, of a prediction.
pub open spec fn prediction_view(
    prediction: Result<Vec<u8>, ContractError>,
) -> Result<Seq<u8>, ContractError> {
    match prediction {
        Ok(address) => Ok(address@),
        Err(e) => Err(e),
    }
}

/// The salt of the position record, which is created once.
pub open spec fn record_salt() -> Seq<u8> {
    encode_utf8("instantiate"@)
}

/// The salt of the two actors of the position `id`: the digest of the
/// creator's canonical address in hexadecimal, followed by the id.
pub open spec fn position_salt(creator: Seq<u8>, id: Seq<char>) -> Seq<u8> {
    sha256_digest(encode_utf8(hex_upper(creator) + id))
}

/// Predicts the canonical address of an actor before it is created.
pub fn instantiate_address(
    creator: &[u8],
    code_hash: &[u8],
    salt: &[u8],
) -> (address: Result<Vec<u8>, ContractError>)
    ensures
        prediction_view(address) == predicted_address(creator@, code_hash@, salt@),
{
    match derive_address(code_hash, creator, salt) {
        Ok(address) => Ok(address),
        Err(AddressFault::Checksum) => Err(ContractError::NotFound),
        Err(AddressFault::Salt) => Err(ContractError::InvalidSalt),
    }
}

/// The salt under which the position record is created.
pub fn instantiate_salt() -> (salt: Vec<u8>)
    ensures
        salt@ == record_salt(),
        salt@.len() == 11,
{
    proof {
        reveal_strlit("instantiate");
        is_ascii_chars_encode_utf8("instantiate"@);
    }
    "instantiate".as_bytes_vec()
}

/// Computes the salt of the two actors of the position `id`.
pub fn salt_of_position(creator: &[u8], id: &str) -> (salt: Vec<u8>)
    ensures
        salt@ == position_salt(creator@, id@),
        salt@.len() == 32,
{
    let mut text = hex(creator);
    text.append(id);
    sha256(text.as_str().as_bytes())
}

/// The canonical addresses that the platform will give to the holder and to
/// the claim token of the next position of `validator`, in this order.
pub open spec fn predicted_position(
    creator: Seq<u8>,
    validator: Seq<char>,
    index: nat,
    holder_hash: Seq<u8>,
    token_hash: Seq<u8>,
) -> Result<(Seq<u8>, Seq<u8>), ContractError> {
    let salt = position_salt(creator, position_id_chars(validator, index));
    if index > u32::MAX {
        Err(ContractError::LedgerFull)
    } else {
        match predicted_address(creator, holder_hash, salt) {
            Err(e) => Err(e),
            Ok(holder) => match predicted_address(creator, token_hash, salt) {
                Err(e) => Err(e),
                Ok(token) => Ok((holder, token)),
            },
        }
    }
}

/// Predicts the canonical addresses of the holder and of the claim token of
/// the position that `validator` gets next, from the hashes of their code.
pub fn predict_position(
    ledger: &Ledger,
    env: &Env,
    validator: &str,
    holder_hash: &[u8],
    token_hash: &[u8],
) -> (addresses: Result<(Vec<u8>, Vec<u8>), ContractError>)
    ensures
        match predicted_position(
            env.contract_canonical@,
            validator@,
            ledger.count(validator@),
            holder_hash@,
            token_hash@,
        ) {
            Ok((holder, token)) => addresses matches Ok(found) && found.0@ == holder && found.1@
                == token,
            Err(e) => addresses matches Err(found) && found == e,
        },
{
    let count = ledger.position_count(validator);
    if count > 0xffff_ffff {
        return Err(ContractError::LedgerFull);
    }
    let id = position_id(validator, count as u32);
    let salt = salt_of_position(env.contract_canonical.as_slice(), id.as_str());
    let holder = instantiate_address(
        env.contract_canonical.as_slice(),
        holder_hash,
        salt.as_slice(),
    );
    match holder {
        Err(e) => Err(e),
        Ok(holder) => {
            let token = instantiate_address(
                env.contract_canonical.as_slice(),
                token_hash,
                salt.as_slice(),
            );
            match token {
                Err(e) => Err(e),
                Ok(token) => Ok((holder, token)),
            }
        },
    }
}

/// Predicting an address twice from the same creator, code hash and salt
/// gives the same address, or the same error, both times.
pub proof fn lemma_prediction_is_idempotent(
    creator: Seq<u8>,
    code_hash: Seq<u8>,
    salt: Seq<u8>,
    first: Result<Vec<u8>, ContractError>,
    second: Result<Vec<u8>, ContractError>,
)
    requires
        prediction_view(first) == predicted_address(creator, code_hash, salt),
        prediction_view(second) == predicted_address(creator, code_hash, salt),
    ensures
        prediction_view(first) == prediction_view(second),
{
}

} // verus!
