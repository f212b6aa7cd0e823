use liquid_staking::portal::ledger::{Ledger, Position};
use liquid_staking::portal::state::LiquidStakingData;

fn actors(n: u32) -> LiquidStakingData {
    LiquidStakingData {
        token_address: format!("token{}", n),
        delegator_address: format!("holder{}", n),
    }
}

fn position(validator: &str, index: u32, n: u32) -> Position {
    Position { validator: validator.to_string(), index, data: actors(n) }
}

#[test]
fn a_new_ledger_is_empty() {
    let ledger = Ledger::new();
    assert_eq!(ledger.len(), 0);
    assert_eq!(ledger.position_count("validatorA"), 0);
    assert_eq!(ledger.get("validatorA", 0), None);
    assert!(ledger.ids().is_empty());
}

#[test]
fn append_numbers_each_validator_from_zero() {
    let mut ledger = Ledger::new();
    assert_eq!(ledger.append("validatorA".to_string(), actors(1)), Ok(0));
    assert_eq!(ledger.append("validatorA".to_string(), actors(2)), Ok(1));
    assert_eq!(ledger.append("validatorB".to_string(), actors(3)), Ok(0));
    assert_eq!(ledger.append("validatorA".to_string(), actors(4)), Ok(2));
    assert_eq!(ledger.append("validatorB".to_string(), actors(5)), Ok(1));
    assert_eq!(ledger.len(), 5);
    assert_eq!(ledger.position_count("validatorA"), 3);
    assert_eq!(ledger.position_count("validatorB"), 2);
    assert_eq!(ledger.position_count("validatorC"), 0);
}

#[test]
fn positions_of_a_validator_are_dense() {
    let mut ledger = Ledger::new();
    for n in 0..20u32 {
        let validator = if n % 3 == 0 { "validatorA" } else { "validatorB" };
        ledger.append(validator.to_string(), actors(n)).unwrap();
    }
    for validator in ["validatorA", "validatorB", "validatorC"] {
        let count = ledger.position_count(validator) as u32;
        for index in 0..count {
            assert!(ledger.get(validator, index).is_some(), "{} {}", validator, index);
        }
        for index in count..count + 5 {
            assert!(ledger.get(validator, index).is_none(), "{} {}", validator, index);
        }
    }
    assert_eq!(ledger.position_count("validatorA"), 7);
    assert_eq!(ledger.position_count("validatorB"), 13);
}

#[test]
fn get_returns_what_was_recorded() {
    let mut ledger = Ledger::new();
    ledger.append("validatorA".to_string(), actors(1)).unwrap();
    ledger.append("validatorB".to_string(), actors(2)).unwrap();
    ledger.append("validatorA".to_string(), actors(3)).unwrap();
    assert_eq!(ledger.get("validatorA", 0), Some(actors(1)));
    assert_eq!(ledger.get("validatorB", 0), Some(actors(2)));
    assert_eq!(ledger.get("validatorA", 1), Some(actors(3)));
    assert_eq!(ledger.get("validatorB", 1), None);
    assert_eq!(ledger.get("validator", 0), None);
}

#[test]
fn append_never_changes_an_earlier_position() {
    let mut ledger = Ledger::new();
    ledger.append("validatorA".to_string(), actors(1)).unwrap();
    let before = ledger.get("validatorA", 0);
    for n in 2..10 {
        ledger.append("validatorA".to_string(), actors(n)).unwrap();
        assert_eq!(ledger.get("validatorA", 0), before);
    }
}

#[test]
fn entry_returns_positions_in_order_of_recording() {
    let mut ledger = Ledger::new();
    ledger.append("validatorA".to_string(), actors(1)).unwrap();
    ledger.append("validatorB".to_string(), actors(2)).unwrap();
    ledger.append("validatorA".to_string(), actors(3)).unwrap();
    assert_eq!(ledger.entry(0), &position("validatorA", 0, 1));
    assert_eq!(ledger.entry(1), &position("validatorB", 0, 2));
    assert_eq!(ledger.entry(2), &position("validatorA", 1, 3));
}

#[test]
fn ids_lists_validator_and_index() {
    let mut ledger = Ledger::new();
    ledger.append("validatorA".to_string(), actors(1)).unwrap();
    ledger.append("validatorB".to_string(), actors(2)).unwrap();
    ledger.append("validatorA".to_string(), actors(3)).unwrap();
    assert_eq!(ledger.ids(), vec!["validatorA/0", "validatorB/0", "validatorA/1"]);
}

#[test]
fn from_positions_takes_a_dense_history() {
    let positions = vec![
        position("validatorA", 0, 1),
        position("validatorA", 1, 2),
        position("validatorB", 0, 3),
        position("validatorA", 2, 4),
    ];
    let ledger = Ledger::from_positions(positions).unwrap();
    assert_eq!(ledger.len(), 4);
    assert_eq!(ledger.position_count("validatorA"), 3);
    assert_eq!(ledger.get("validatorA", 2), Some(actors(4)));
    assert_eq!(ledger.get("validatorB", 0), Some(actors(3)));
}

#[test]
fn from_positions_takes_the_empty_history() {
    assert_eq!(Ledger::from_positions(Vec::new()), Some(Ledger::new()));
}

#[test]
fn from_positions_refuses_a_gap() {
    assert_eq!(Ledger::from_positions(vec![position("validatorA", 1, 1)]), None);
    assert_eq!(
        Ledger::from_positions(vec![position("validatorA", 0, 1), position("validatorA", 2, 2)]),
        None
    );
}

#[test]
fn from_positions_refuses_a_repeated_index() {
    assert_eq!(
        Ledger::from_positions(vec![position("validatorA", 0, 1), position("validatorA", 0, 2)]),
        None
    );
}

#[test]
fn from_positions_refuses_a_wrong_order() {
    assert_eq!(
        Ledger::from_positions(vec![position("validatorA", 1, 1), position("validatorA", 0, 2)]),
        None
    );
}

#[test]
fn from_positions_agrees_with_append() {
    let mut ledger = Ledger::new();
    ledger.append("validatorA".to_string(), actors(1)).unwrap();
    ledger.append("validatorB".to_string(), actors(2)).unwrap();
    ledger.append("validatorA".to_string(), actors(3)).unwrap();
    let rebuilt = Ledger::from_positions(vec![
        position("validatorA", 0, 1),
        position("validatorB", 0, 2),
        position("validatorA", 1, 3),
    ]);
    assert_eq!(rebuilt, Some(ledger));
}
