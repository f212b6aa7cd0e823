use cosmwasm_std::{instantiate2_address, CanonicalAddr};
use liquid_staking::error::ContractError;
use liquid_staking::host::Env;
use liquid_staking::portal::address::{
    instantiate_address, instantiate_salt, predict_position, salt_of_position,
};
use liquid_staking::portal::ledger::Ledger;
use liquid_staking::portal::state::LiquidStakingData;
use sha2::{Digest, Sha256};

fn creator() -> Vec<u8> {
    vec![0x9a, 0x01, 0xff, 0x00, 0x10, 0xab, 0xcd, 0xef, 0x12, 0x34, 0x56, 0x78, 0x9a, 0xbc, 0xde, 0xf0, 0x0f, 0x1e, 0x2d, 0x3c]
}

fn checksum(fill: u8) -> Vec<u8> {
    vec![fill; 32]
}

fn env() -> Env {
    Env { contract_address: "portal".to_string(), contract_canonical: creator() }
}

fn actors(n: u32) -> LiquidStakingData {
    LiquidStakingData {
        token_address: format!("token{}", n),
        delegator_address: format!("holder{}", n),
    }
}

#[test]
fn instantiate_salt_is_the_fixed_text() {
    assert_eq!(instantiate_salt(), b"instantiate".to_vec());
}

#[test]
fn salt_of_position_hashes_hex_creator_and_id() {
    let salt = salt_of_position(&creator(), "validatorA/0");
    let text = "9A01FF0010ABCDEF123456789ABCDEF00F1E2D3CvalidatorA/0";
    assert_eq!(salt, Sha256::digest(text.as_bytes()).to_vec());
    assert_eq!(salt.len(), 32);
}

#[test]
fn salt_of_position_writes_the_creator_as_its_display_does() {
    let canonical = CanonicalAddr::from(creator());
    let text = canonical.to_string() + "validatorA/12";
    assert_eq!(salt_of_position(&creator(), "validatorA/12"), Sha256::digest(text).to_vec());
}

#[test]
fn salt_of_position_differs_between_positions() {
    let first = salt_of_position(&creator(), "validatorA/0");
    let second = salt_of_position(&creator(), "validatorA/1");
    let other = salt_of_position(&creator(), "validatorB/0");
    assert_ne!(first, second);
    assert_ne!(first, other);
}

#[test]
fn salt_of_position_of_an_empty_creator() {
    let salt = salt_of_position(&[], "v/0");
    assert_eq!(salt, Sha256::digest(b"v/0").to_vec());
}

#[test]
fn instantiate_address_is_the_address_of_the_platform() {
    let salt = salt_of_position(&creator(), "validatorA/0");
    let predicted = instantiate_address(&creator(), &checksum(7), &salt).unwrap();
    let expected = instantiate2_address(&checksum(7), &CanonicalAddr::from(creator()), &salt).unwrap();
    assert_eq!(predicted, expected.to_vec());
    assert_eq!(predicted.len(), 32);
    assert_ne!(predicted, creator());
    assert_ne!(predicted, checksum(7));
    assert_ne!(predicted, salt);
}

#[test]
fn instantiate_address_of_a_known_vector() {
    // creator, checksum and salt of the platform's own example
    let checksum: Vec<u8> = vec![
        0x13, 0xa1, 0xfc, 0x99, 0x4c, 0xc6, 0xd1, 0xc8, 0x1b, 0x74, 0x6e, 0xe0, 0xc0, 0xff, 0x6f,
        0x90, 0x04, 0x3e, 0x43, 0x8e, 0x08, 0x0f, 0x69, 0xf1, 0xf0, 0x38, 0xe5, 0x64, 0x77, 0x7e,
        0x49, 0x65,
    ];
    let creator: Vec<u8> = vec![
        0x9d, 0x96, 0xc5, 0x05, 0x4a, 0x70, 0x22, 0x96, 0xc0, 0x78, 0xa2, 0x81, 0x0d, 0x28, 0xee,
        0xca, 0x12, 0x54, 0x55, 0x63,
    ];
    let salt: Vec<u8> = vec![0x61];
    let predicted = instantiate_address(&creator, &checksum, &salt).unwrap();
    let expected = instantiate2_address(&checksum, &CanonicalAddr::from(creator.clone()), &salt).unwrap();
    assert_eq!(predicted, expected.to_vec());
}

#[test]
fn instantiate_address_is_idempotent() {
    let salt = instantiate_salt();
    let first = instantiate_address(&creator(), &checksum(1), &salt);
    let second = instantiate_address(&creator(), &checksum(1), &salt);
    assert!(first.is_ok());
    assert_eq!(first, second);
}

#[test]
fn instantiate_address_depends_on_each_input() {
    let salt = instantiate_salt();
    let base = instantiate_address(&creator(), &checksum(1), &salt).unwrap();
    assert_ne!(base, instantiate_address(&creator(), &checksum(2), &salt).unwrap());
    assert_ne!(base, instantiate_address(&[1, 2, 3], &checksum(1), &salt).unwrap());
    assert_ne!(base, instantiate_address(&creator(), &checksum(1), b"other").unwrap());
}

#[test]
fn instantiate_address_needs_a_code_hash_of_thirty_two_bytes() {
    let salt = instantiate_salt();
    assert_eq!(instantiate_address(&creator(), &vec![1; 31], &salt), Err(ContractError::NotFound));
    assert_eq!(instantiate_address(&creator(), &vec![1; 33], &salt), Err(ContractError::NotFound));
    assert_eq!(instantiate_address(&creator(), &[], &salt), Err(ContractError::NotFound));
}

#[test]
fn instantiate_address_needs_a_salt_of_one_to_sixty_four_bytes() {
    assert_eq!(instantiate_address(&creator(), &checksum(1), &[]), Err(ContractError::InvalidSalt));
    assert_eq!(
        instantiate_address(&creator(), &checksum(1), &vec![0; 65]),
        Err(ContractError::InvalidSalt)
    );
    assert!(instantiate_address(&creator(), &checksum(1), &[0]).is_ok());
    assert!(instantiate_address(&creator(), &checksum(1), &vec![0; 64]).is_ok());
}

#[test]
fn instantiate_address_reports_the_code_hash_first() {
    assert_eq!(instantiate_address(&creator(), &[1, 2], &[]), Err(ContractError::NotFound));
}

#[test]
fn predict_position_uses_the_next_index() {
    let mut ledger = Ledger::new();
    let (holder, token) = predict_position(&ledger, &env(), "validatorA", &checksum(11), &checksum(7)).unwrap();
    let salt = salt_of_position(&creator(), "validatorA/0");
    assert_eq!(holder, instantiate_address(&creator(), &checksum(11), &salt).unwrap());
    assert_eq!(token, instantiate_address(&creator(), &checksum(7), &salt).unwrap());
    assert_ne!(holder, token);

    ledger.append("validatorA".to_string(), actors(0)).unwrap();
    let (holder, token) = predict_position(&ledger, &env(), "validatorA", &checksum(11), &checksum(7)).unwrap();
    let salt = salt_of_position(&creator(), "validatorA/1");
    assert_eq!(holder, instantiate_address(&creator(), &checksum(11), &salt).unwrap());
    assert_eq!(token, instantiate_address(&creator(), &checksum(7), &salt).unwrap());

    let (other, _) = predict_position(&ledger, &env(), "validatorB", &checksum(11), &checksum(7)).unwrap();
    let salt = salt_of_position(&creator(), "validatorB/0");
    assert_eq!(other, instantiate_address(&creator(), &checksum(11), &salt).unwrap());
}

#[test]
fn predict_position_needs_both_code_hashes() {
    let ledger = Ledger::new();
    assert_eq!(
        predict_position(&ledger, &env(), "validatorA", &[1], &checksum(7)),
        Err(ContractError::NotFound)
    );
    assert_eq!(
        predict_position(&ledger, &env(), "validatorA", &checksum(11), &[]),
        Err(ContractError::NotFound)
    );
}
