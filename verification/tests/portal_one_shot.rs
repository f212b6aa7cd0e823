use cosmwasm_std::{from_json, Empty, Uint128};
use liquid_staking::error::ContractError;
use liquid_staking::host::{Attribute, Coin, Env, Message, MessageInfo, Response, SubMsg};
use liquid_staking::portal::address::{instantiate_salt, salt_of_position};
use liquid_staking::portal::contract::{assemble_instantiate, execute, instantiate, Answers};
use liquid_staking::portal::saga::{assemble_delegate_and_tokenize, execute_delegate_and_tokenize};
use liquid_staking::portal::cosmos_msg::{CosmosCoin, MsgInstantiateContract2};
use liquid_staking::portal::ledger::{Ledger, Position};
use liquid_staking::portal::msg::{ExecuteMsg, InstantiateMsg};
use liquid_staking::portal::state::{LiquidStakingData, PortalEnv, SagaScratch};

fn env() -> Env {
    Env { contract_address: "portal".to_string(), contract_canonical: vec![1, 2, 3, 0xab] }
}

fn info(amount: u128) -> MessageInfo {
    MessageInfo {
        sender: "alice".to_string(),
        funds: vec![Coin { denom: "stake".to_string(), amount }],
    }
}

fn config() -> PortalEnv {
    let msg = InstantiateMsg { cw20_code_id: 7, cw721_code_id: 9, delegator_code_id: 11 };
    instantiate(&env(), &info(0), msg, Some("record".to_string())).unwrap().0
}

fn actors(n: u32) -> LiquidStakingData {
    LiquidStakingData {
        token_address: format!("token{}", n),
        delegator_address: format!("holder{}", n),
    }
}

fn attribute(key: &str, value: &str) -> Attribute {
    Attribute { key: key.to_string(), value: value.to_string() }
}

fn creation(message: &SubMsg) -> &MsgInstantiateContract2 {
    assert_eq!(message.reply_id, None);
    match &message.msg {
        Message::Stargate { type_url, value } => {
            assert_eq!(type_url, "/cosmwasm.wasm.v1.MsgInstantiateContract2");
            value
        }
        other => panic!("not a creation: {:?}", other),
    }
}

#[test]
fn instantiate_writes_the_configuration() {
    let msg = InstantiateMsg { cw20_code_id: 7, cw721_code_id: 9, delegator_code_id: 11 };
    let (portal_env, _) = instantiate(&env(), &info(0), msg, Some("record".to_string())).unwrap();
    assert_eq!(
        portal_env,
        PortalEnv { cw20_code_id: 7, cw721_address: "record".to_string(), delegator_code_id: 11 }
    );
}

#[test]
fn instantiate_creates_the_record_at_the_predicted_address() {
    let msg = InstantiateMsg { cw20_code_id: 7, cw721_code_id: 9, delegator_code_id: 11 };
    let (_, response) = instantiate(&env(), &info(0), msg, Some("record".to_string())).unwrap();
    assert_eq!(response.messages.len(), 1);
    let created = creation(&response.messages[0]);
    assert_eq!(created.sender, "portal");
    assert_eq!(created.admin, "portal");
    assert_eq!(created.code_id, 9);
    assert_eq!(created.label, "Liquid Staking Contract Record");
    assert_eq!(created.funds, Vec::<CosmosCoin>::new());
    assert_eq!(created.salt, b"instantiate".to_vec());
    assert_eq!(created.salt, instantiate_salt());
    assert!(!created.fix_msg);
    let init: cw721_base::msg::InstantiateMsg = from_json(&created.msg).unwrap();
    assert_eq!(init.name, "Liquid Staking Contract Record");
    assert_eq!(init.symbol, "SLCR");
    assert_eq!(init.minter, "portal");
    assert_eq!(
        response.attributes,
        vec![
            attribute("method", "instantiate"),
            attribute("owner", "alice"),
            attribute("cw721_address", "record"),
        ]
    );
}

#[test]
fn instantiate_payload_is_the_json_of_the_record() {
    let msg = InstantiateMsg { cw20_code_id: 7, cw721_code_id: 9, delegator_code_id: 11 };
    let (_, response) = instantiate(&env(), &info(0), msg, Some("record".to_string())).unwrap();
    let created = creation(&response.messages[0]);
    assert_eq!(
        String::from_utf8(created.msg.clone()).unwrap(),
        "{\"name\":\"Liquid Staking Contract Record\",\"symbol\":\"SLCR\",\"minter\":\"portal\"}"
    );
}

#[test]
fn assemble_instantiate_carries_the_payload() {
    let msg = InstantiateMsg { cw20_code_id: 1, cw721_code_id: 2, delegator_code_id: 3 };
    let (portal_env, response) =
        assemble_instantiate(&env(), &info(0), msg, Some("r".to_string()), vec![9, 8, 7]);
    assert_eq!(
        portal_env,
        PortalEnv { cw20_code_id: 1, cw721_address: "r".to_string(), delegator_code_id: 3 }
    );
    assert_eq!(
        response.messages,
        vec![SubMsg {
            reply_id: None,
            msg: Message::Stargate {
                type_url: "/cosmwasm.wasm.v1.MsgInstantiateContract2".to_string(),
                value: MsgInstantiateContract2 {
                    sender: "portal".to_string(),
                    admin: "portal".to_string(),
                    code_id: 2,
                    label: "Liquid Staking Contract Record".to_string(),
                    msg: vec![9, 8, 7],
                    funds: vec![],
                    salt: b"instantiate".to_vec(),
                    fix_msg: false,
                },
            },
        }]
    );
}

#[test]
fn delegate_and_tokenize_numbers_positions_from_zero() {
    let portal_env = config();
    let mut ledger = Ledger::new();
    let mut scratch = SagaScratch::Idle;

    execute_delegate_and_tokenize(
        &portal_env,
        &mut ledger,
        &mut scratch,
        &env(),
        &info(1000),
        "validatorA".to_string(),
        Some(actors(0)),
    )
    .unwrap();
    assert_eq!(ledger.len(), 1);
    assert_eq!(
        ledger.entry(0),
        &Position { validator: "validatorA".to_string(), index: 0, data: actors(0) }
    );

    execute_delegate_and_tokenize(
        &portal_env,
        &mut ledger,
        &mut scratch,
        &env(),
        &info(1000),
        "validatorA".to_string(),
        Some(actors(1)),
    )
    .unwrap();
    assert_eq!(ledger.len(), 2);
    assert_eq!(
        ledger.entry(1),
        &Position { validator: "validatorA".to_string(), index: 1, data: actors(1) }
    );
    assert_eq!(ledger.ids(), vec!["validatorA/0", "validatorA/1"]);
    assert_eq!(scratch, SagaScratch::Idle);
}

#[test]
fn delegate_and_tokenize_hands_over_three_instructions() {
    let portal_env = config();
    let mut ledger = Ledger::new();
    let mut scratch = SagaScratch::Idle;
    ledger.append("validatorA".to_string(), actors(0)).unwrap();
    let response = execute_delegate_and_tokenize(
        &portal_env,
        &mut ledger,
        &mut scratch,
        &env(),
        &info(1000),
        "validatorA".to_string(),
        Some(actors(1)),
    )
    .unwrap();
    assert_eq!(response.messages.len(), 3);
    let salt = salt_of_position(&env().contract_canonical, "validatorA/1");

    let holder = creation(&response.messages[0]);
    assert_eq!(holder.sender, "portal");
    assert_eq!(holder.admin, "portal");
    assert_eq!(holder.code_id, 11);
    assert_eq!(holder.label, "Liquid Staking Contract Delegator");
    assert_eq!(holder.msg, b"{\"validator\":\"validatorA\"}".to_vec());
    assert_eq!(
        holder.funds,
        vec![CosmosCoin { denom: "stake".to_string(), amount: "1000".to_string() }]
    );
    assert_eq!(holder.salt, salt);
    assert!(!holder.fix_msg);

    let token = creation(&response.messages[1]);
    assert_eq!(token.sender, "portal");
    assert_eq!(token.admin, "portal");
    assert_eq!(token.code_id, 7);
    assert_eq!(token.label, "Liquid Staking Contract Token");
    assert_eq!(token.funds, Vec::<CosmosCoin>::new());
    assert_eq!(token.salt, salt);
    assert!(!token.fix_msg);
    let init: cw20_base::msg::InstantiateMsg = from_json(&token.msg).unwrap();
    assert_eq!(init.name, "Liquid Staking Contract Token");
    assert_eq!(init.symbol, "LSCT");
    assert_eq!(init.decimals, 6);
    assert_eq!(init.initial_balances.len(), 1);
    assert_eq!(init.initial_balances[0].address, "alice");
    assert_eq!(init.initial_balances[0].amount, Uint128::new(1000));
    assert!(init.mint.is_none());
    assert!(init.marketing.is_none());

    assert_eq!(response.messages[2].reply_id, None);
    match &response.messages[2].msg {
        Message::Execute { contract_addr, msg, funds } => {
            assert_eq!(contract_addr, "record");
            assert!(funds.is_empty());
            let mint: cw721_base::msg::ExecuteMsg<Empty, Empty> = from_json(msg).unwrap();
            match mint {
                cw721_base::msg::ExecuteMsg::Mint { token_id, owner, token_uri, extension } => {
                    assert_eq!(token_id, "validatorA/1");
                    assert_eq!(owner, "alice");
                    assert_eq!(token_uri, None);
                    assert_eq!(extension, Empty {});
                }
                other => panic!("not a mint: {:?}", other),
            }
        }
        other => panic!("not a call: {:?}", other),
    }

    assert_eq!(
        response.attributes,
        vec![attribute("method", "execute"), attribute("action", "delegate_and_tokenize")]
    );
}

#[test]
fn delegate_and_tokenize_writes_the_payloads_of_token_and_record() {
    let portal_env = config();
    let mut ledger = Ledger::new();
    let mut scratch = SagaScratch::Idle;
    let response = execute_delegate_and_tokenize(
        &portal_env,
        &mut ledger,
        &mut scratch,
        &env(),
        &info(1000),
        "validatorA".to_string(),
        Some(actors(0)),
    )
    .unwrap();
    let token = creation(&response.messages[1]);
    assert_eq!(
        String::from_utf8(token.msg.clone()).unwrap(),
        "{\"name\":\"Liquid Staking Contract Token\",\"symbol\":\"LSCT\",\"decimals\":6,\
         \"initial_balances\":[{\"address\":\"alice\",\"amount\":\"1000\"}],\
         \"mint\":null,\"marketing\":null}"
    );
    match &response.messages[2].msg {
        Message::Execute { msg, .. } => assert_eq!(
            String::from_utf8(msg.clone()).unwrap(),
            "{\"mint\":{\"token_id\":\"validatorA/0\",\"owner\":\"alice\",\
             \"token_uri\":null,\"extension\":{}}}"
        ),
        other => panic!("not a call: {:?}", other),
    }
}

#[test]
fn delegate_and_tokenize_needs_funds() {
    let portal_env = config();
    let mut ledger = Ledger::new();
    ledger.append("validatorA".to_string(), actors(0)).unwrap();
    let before = ledger.clone();
    let mut scratch = SagaScratch::Idle;
    let caller = MessageInfo { sender: "alice".to_string(), funds: vec![] };
    let result = execute_delegate_and_tokenize(
        &portal_env,
        &mut ledger,
        &mut scratch,
        &env(),
        &caller,
        "validatorA".to_string(),
        Some(actors(1)),
    );
    assert_eq!(result, Err(ContractError::NoFunds));
    assert_eq!(ledger, before);
    assert_eq!(scratch, SagaScratch::Idle);

    let answers = Answers { predicted: Some(actors(1)), owned: vec![] };
    let result = execute(
        &portal_env,
        &mut ledger,
        &mut scratch,
        &env(),
        &caller,
        ExecuteMsg::DelegateAndTokenize { validator: "validatorA".to_string() },
        answers,
    );
    assert_eq!(result, Err(ContractError::NoFunds));
    assert_eq!(ledger, before);

    let result = assemble_delegate_and_tokenize(
        &portal_env,
        &mut ledger,
        &env(),
        &caller,
        "validatorA".to_string(),
        actors(1),
        vec![5],
        vec![1],
        vec![2],
        vec![3],
    );
    assert_eq!(result, Err(ContractError::NoFunds));
    assert_eq!(ledger, before);
}

#[test]
fn delegate_and_tokenize_needs_both_predicted_addresses() {
    let portal_env = config();
    let mut ledger = Ledger::new();
    let mut scratch = SagaScratch::Idle;
    let no_token = LiquidStakingData {
        token_address: String::new(),
        delegator_address: "holder0".to_string(),
    };
    let no_holder = LiquidStakingData {
        token_address: "token0".to_string(),
        delegator_address: String::new(),
    };
    for incomplete in [no_token, no_holder] {
        let result = execute_delegate_and_tokenize(
            &portal_env,
            &mut ledger,
            &mut scratch,
            &env(),
            &info(1000),
            "validatorA".to_string(),
            Some(incomplete.clone()),
        );
        assert_eq!(result, Err(ContractError::NotFound));
        let result = assemble_delegate_and_tokenize(
            &portal_env,
            &mut ledger,
            &env(),
            &info(1000),
            "validatorA".to_string(),
            incomplete,
            vec![5],
            vec![1],
            vec![2],
            vec![3],
        );
        assert_eq!(result, Err(ContractError::NotFound));
    }
    assert_eq!(ledger, Ledger::new());
    assert_eq!(scratch, SagaScratch::Idle);
}

#[test]
fn delegate_and_tokenize_succeeds_for_any_text() {
    let portal_env = config();
    let mut ledger = Ledger::new();
    let mut scratch = SagaScratch::Idle;
    for validator in ["", "a/b", "quo\"te", "back\\slash", "new\nline", "\u{1}", "é漢"] {
        let mut caller = info(0);
        caller.sender = validator.to_string();
        let result = execute_delegate_and_tokenize(
            &portal_env,
            &mut ledger,
            &mut scratch,
            &env(),
            &caller,
            validator.to_string(),
            Some(actors(0)),
        );
        assert!(result.is_ok(), "{:?}", validator);
    }
    assert_eq!(ledger.len(), 7);
}

#[test]
fn delegate_and_tokenize_gives_the_whole_amount_as_balance() {
    let portal_env = config();
    let mut ledger = Ledger::new();
    let mut scratch = SagaScratch::Idle;
    let response = execute_delegate_and_tokenize(
        &portal_env,
        &mut ledger,
        &mut scratch,
        &env(),
        &info(u128::MAX),
        "validatorA".to_string(),
        Some(actors(0)),
    )
    .unwrap();
    let holder = creation(&response.messages[0]);
    assert_eq!(holder.funds[0].amount, "340282366920938463463374607431768211455");
    let token = creation(&response.messages[1]);
    let init: cw20_base::msg::InstantiateMsg = from_json(&token.msg).unwrap();
    assert_eq!(init.initial_balances[0].amount, Uint128::MAX);
}

#[test]
fn delegate_and_tokenize_forwards_the_first_coin() {
    let portal_env = config();
    let mut ledger = Ledger::new();
    let mut scratch = SagaScratch::Idle;
    let mut caller = info(5);
    caller.funds.push(Coin { denom: "other".to_string(), amount: 9 });
    let response = execute_delegate_and_tokenize(
        &portal_env,
        &mut ledger,
        &mut scratch,
        &env(),
        &caller,
        "validatorA".to_string(),
        Some(actors(0)),
    )
    .unwrap();
    let holder = creation(&response.messages[0]);
    assert_eq!(
        holder.funds,
        vec![CosmosCoin { denom: "stake".to_string(), amount: "5".to_string() }]
    );
}

#[test]
fn delegate_and_tokenize_keeps_validators_apart() {
    let portal_env = config();
    let mut ledger = Ledger::new();
    let mut scratch = SagaScratch::Idle;
    for (n, validator) in ["validatorA", "validatorB", "validatorA", "validatorB", "validatorB"]
        .iter()
        .enumerate()
    {
        execute_delegate_and_tokenize(
            &portal_env,
            &mut ledger,
            &mut scratch,
            &env(),
            &info(1000),
            validator.to_string(),
            Some(actors(n as u32)),
        )
        .unwrap();
    }
    assert_eq!(
        ledger.ids(),
        vec!["validatorA/0", "validatorB/0", "validatorA/1", "validatorB/1", "validatorB/2"]
    );
    assert_eq!(ledger.get("validatorB", 2), Some(actors(4)));
}

#[test]
fn assemble_delegate_and_tokenize_carries_salt_and_payloads() {
    let portal_env = config();
    let mut ledger = Ledger::new();
    let response = assemble_delegate_and_tokenize(
        &portal_env,
        &mut ledger,
        &env(),
        &info(1000),
        "validatorA".to_string(),
        actors(0),
        vec![5, 5],
        vec![1],
        vec![2],
        vec![3],
    )
    .unwrap();
    let creation_of = |code_id: u64, label: &str, msg: Vec<u8>, funds: Vec<CosmosCoin>| SubMsg {
        reply_id: None,
        msg: Message::Stargate {
            type_url: "/cosmwasm.wasm.v1.MsgInstantiateContract2".to_string(),
            value: MsgInstantiateContract2 {
                sender: "portal".to_string(),
                admin: "portal".to_string(),
                code_id,
                label: label.to_string(),
                msg,
                funds,
                salt: vec![5, 5],
                fix_msg: false,
            },
        },
    };
    assert_eq!(
        response,
        Response {
            messages: vec![
                creation_of(
                    11,
                    "Liquid Staking Contract Delegator",
                    vec![1],
                    vec![CosmosCoin { denom: "stake".to_string(), amount: "1000".to_string() }],
                ),
                creation_of(7, "Liquid Staking Contract Token", vec![2], vec![]),
                SubMsg {
                    reply_id: None,
                    msg: Message::Execute {
                        contract_addr: "record".to_string(),
                        msg: vec![3],
                        funds: vec![],
                    },
                },
            ],
            attributes: vec![
                attribute("method", "execute"),
                attribute("action", "delegate_and_tokenize"),
            ],
        }
    );
    assert_eq!(ledger.get("validatorA", 0), Some(actors(0)));
}

#[test]
fn execute_dispatches_a_delegation() {
    let portal_env = config();
    let mut ledger = Ledger::new();
    let mut scratch = SagaScratch::Idle;
    let answers = Answers { predicted: Some(actors(0)), owned: vec![] };
    let response = execute(
        &portal_env,
        &mut ledger,
        &mut scratch,
        &env(),
        &info(1000),
        ExecuteMsg::DelegateAndTokenize { validator: "validatorA".to_string() },
        answers,
    )
    .unwrap();
    assert_eq!(response.messages.len(), 3);
    assert_eq!(ledger.get("validatorA", 0), Some(actors(0)));
}

#[test]
fn execute_reports_an_unknown_position() {
    let portal_env = config();
    let mut ledger = Ledger::new();
    let mut scratch = SagaScratch::Idle;
    let answers = Answers { predicted: None, owned: vec![] };
    let result = execute(
        &portal_env,
        &mut ledger,
        &mut scratch,
        &env(),
        &info(0),
        ExecuteMsg::Undelegate { id: "validatorA/0".to_string(), amount: 1 },
        answers,
    );
    assert_eq!(result, Err(ContractError::NotFound));
}
