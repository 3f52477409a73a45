use krzyzyk::contract::{execute, instantiate, query, query_compare, try_choose_option, ContractState};
use krzyzyk::error::ContractError;
use krzyzyk::msg::{
    CompareResponse, ExecuteMsg, InstantiateMsg, QueryMsg, QueryResponse, TokenInfoResponse,
};

fn do_instantiate(state: &mut ContractState) -> TokenInfoResponse {
    let instantiate_msg = InstantiateMsg {
        name: "Auto gen".to_string(),
        symbol: "AUTO".to_string(),
        decimals: 6,
    };
    let res = instantiate(state, &"creator".to_string(), instantiate_msg).unwrap();
    assert_eq!(0, res.messages.len());

    let meta = token_info(state);
    assert_eq!(
        meta,
        TokenInfoResponse {
            name: "Auto gen".to_string(),
            symbol: "AUTO".to_string(),
            decimals: 6,
            total_supply: 0,
        }
    );
    meta
}

fn token_info(state: &ContractState) -> TokenInfoResponse {
    match query(state, QueryMsg::TokenInfo {}).unwrap() {
        QueryResponse::TokenInfo(t) => t,
        other => panic!("unexpected response {:?}", other),
    }
}

fn record(state: &mut ContractState, sender: &str, address: &str, option: &str) -> Result<(), ContractError> {
    let msg = ExecuteMsg::ChooseOption { address: address.to_string(), option: option.to_string() };
    execute(state, &sender.to_string(), msg).map(|_| ())
}

fn compare(state: &ContractState, one: &str, two: &str) -> Result<CompareResponse, ContractError> {
    query_compare(state, one.to_string(), two.to_string())
}

#[test]
fn basic() {
    let mut state = ContractState::new();
    let amount: u128 = 12345678;
    do_instantiate(&mut state);

    let msg = ExecuteMsg::Mint { recipient: "addrr0000".to_string(), amount };
    let res = execute(&mut state, &"creator".to_string(), msg).unwrap();
    assert_eq!(0, res.messages.len());

    assert_eq!(
        token_info(&state),
        TokenInfoResponse {
            name: "Auto gen".to_string(),
            symbol: "AUTO".to_string(),
            decimals: 6,
            total_supply: 12345678,
        }
    )
}

#[test]
fn test_queries() {
    let mut state = ContractState::new();
    let amount: u128 = 11223344;
    do_instantiate(&mut state);

    let msg = ExecuteMsg::Mint { recipient: "addrr0000".into(), amount };
    let res = execute(&mut state, &"creator".to_string(), msg).unwrap();
    assert_eq!(0, res.messages.len());

    let msg = ExecuteMsg::ChooseOption { address: "addrr0000".into(), option: "Papier".into() };
    let res = execute(&mut state, &"creator".to_string(), msg).unwrap();
    assert_eq!(0, res.messages.len());

    let msg = ExecuteMsg::ChooseOption { address: "addrr0001".into(), option: "Kamien".into() };
    let res = execute(&mut state, &"creator".to_string(), msg).unwrap();
    assert_eq!(0, res.messages.len());

    let data = query(
        &state,
        QueryMsg::Compare { address_one: String::from("addrr0000"), address_two: String::from("addrr0001") },
    )
    .unwrap();
    let loaded = match data {
        QueryResponse::Compare(c) => c,
        other => panic!("unexpected response {:?}", other),
    };
    assert_eq!(loaded.option_addr_one, "Papier".to_string());
    assert_ne!(loaded.option_addr_one, "xd".to_string())
}

#[test]
fn mint_then_compare_scenario() {
    let mut state = ContractState::new();
    do_instantiate(&mut state);
    let msg = ExecuteMsg::Mint { recipient: "addrr0000".to_string(), amount: 12345678 };
    execute(&mut state, &"creator".to_string(), msg).unwrap();
    assert_eq!(token_info(&state).total_supply, 12345678);
    record(&mut state, "creator", "addrr0000", "Papier").unwrap();
    record(&mut state, "creator", "addrr0001", "Kamien").unwrap();
    assert_eq!(
        compare(&state, "addrr0000", "addrr0001").unwrap(),
        CompareResponse { option_addr_one: "Papier".to_string(), option_addr_two: "Kamien".to_string() }
    );
}

#[test]
fn compare_without_record_is_not_found() {
    let mut state = ContractState::new();
    do_instantiate(&mut state);
    assert_eq!(compare(&state, "addrr0000", "addrr0001"), Err(ContractError::NotFound));
    record(&mut state, "creator", "addrr0000", "Papier").unwrap();
    assert_eq!(compare(&state, "addrr0000", "addrr0001"), Err(ContractError::NotFound));
    assert_eq!(compare(&state, "addrr0001", "addrr0000"), Err(ContractError::NotFound));
}

#[test]
fn recorded_choice_round_trips() {
    let mut state = ContractState::new();
    do_instantiate(&mut state);
    record(&mut state, "creator", "addrr0000", "  Nożyce ?!").unwrap();
    let r = compare(&state, "addrr0000", "addrr0000").unwrap();
    assert_eq!(r.option_addr_one, "  Nożyce ?!");
    assert_eq!(r.option_addr_two, "  Nożyce ?!");
}

#[test]
fn rerecording_overwrites() {
    let mut state = ContractState::new();
    do_instantiate(&mut state);
    record(&mut state, "creator", "addrr0000", "x").unwrap();
    record(&mut state, "creator", "addrr0001", "z").unwrap();
    record(&mut state, "creator", "addrr0000", "y").unwrap();
    let r = compare(&state, "addrr0000", "addrr0001").unwrap();
    assert_eq!(r.option_addr_one, "y");
    assert_eq!(r.option_addr_two, "z");
}

#[test]
fn non_controller_is_refused_and_changes_nothing() {
    let mut state = ContractState::new();
    do_instantiate(&mut state);
    record(&mut state, "creator", "addrr0000", "Papier").unwrap();
    assert_eq!(record(&mut state, "intruder", "addrr0000", "Kamien"), Err(ContractError::Unauthorized));
    assert_eq!(record(&mut state, "intruder", "addrr0001", "Kamien"), Err(ContractError::Unauthorized));
    assert_eq!(compare(&state, "addrr0000", "addrr0000").unwrap().option_addr_one, "Papier");
    assert_eq!(compare(&state, "addrr0000", "addrr0001"), Err(ContractError::NotFound));
}

#[test]
fn choose_before_instantiate_is_not_found() {
    let mut state = ContractState::new();
    let r = try_choose_option(&mut state, &"creator".to_string(), "addrr0000".to_string(), "x".to_string());
    assert_eq!(r, Err(ContractError::NotFound));
    assert_eq!(query(&state, QueryMsg::TokenInfo {}), Err(ContractError::NotFound));
}

#[test]
fn second_instantiate_conflicts() {
    let mut state = ContractState::new();
    do_instantiate(&mut state);
    let again = InstantiateMsg { name: "Other".to_string(), symbol: "OTH".to_string(), decimals: 2 };
    assert_eq!(instantiate(&mut state, &"someone".to_string(), again), Err(ContractError::StateConflict));
    assert_eq!(token_info(&state).name, "Auto gen");
    assert_eq!(token_info(&state).decimals, 6);
    record(&mut state, "creator", "addrr0000", "Papier").unwrap();
    assert_eq!(record(&mut state, "someone", "addrr0000", "x"), Err(ContractError::Unauthorized));
}

#[test]
fn choice_response_reports_saved_option() {
    let mut state = ContractState::new();
    do_instantiate(&mut state);
    let res = try_choose_option(&mut state, &"creator".to_string(), "addrr0000".to_string(), "Papier".to_string())
        .unwrap();
    assert_eq!(res.attributes.len(), 1);
    assert_eq!(res.attributes[0].key, "saved_option");
    assert_eq!(res.attributes[0].value, "Papier");
}

#[test]
fn addresses_are_normalized() {
    let mut state = ContractState::new();
    do_instantiate(&mut state);
    record(&mut state, "creator", "ADDRR0000", "Papier").unwrap();
    record(&mut state, "creator", "addrr0001", "Kamien").unwrap();
    let r = compare(&state, "addrr0000", "AddRR0001").unwrap();
    assert_eq!(r.option_addr_one, "Papier");
    assert_eq!(r.option_addr_two, "Kamien");
}

#[test]
fn invalid_address_is_rejected() {
    let mut state = ContractState::new();
    do_instantiate(&mut state);
    assert_eq!(record(&mut state, "creator", "ab", "x"), Err(ContractError::InvalidAddress));
    let long = "a".repeat(91);
    assert_eq!(record(&mut state, "creator", &long, "x"), Err(ContractError::InvalidAddress));
    record(&mut state, "creator", "addrr0000", "x").unwrap();
    assert_eq!(compare(&state, "addrr0000", "ab"), Err(ContractError::InvalidAddress));
    assert_eq!(compare(&state, "ab", "addrr0009"), Err(ContractError::InvalidAddress));
}

#[test]
fn mint_errors() {
    let mut state = ContractState::new();
    let none = ExecuteMsg::Mint { recipient: "addrr0000".to_string(), amount: 5 };
    assert_eq!(execute(&mut state, &"creator".to_string(), none), Err(ContractError::Unauthorized));
    do_instantiate(&mut state);
    let zero = ExecuteMsg::Mint { recipient: "addrr0000".to_string(), amount: 0 };
    assert_eq!(execute(&mut state, &"creator".to_string(), zero), Err(ContractError::InvalidZeroAmount));
    let stranger = ExecuteMsg::Mint { recipient: "addrr0000".to_string(), amount: 5 };
    assert_eq!(execute(&mut state, &"intruder".to_string(), stranger), Err(ContractError::Unauthorized));
    let upper = ExecuteMsg::Mint { recipient: "ADDRR0000".to_string(), amount: 5 };
    assert_eq!(execute(&mut state, &"creator".to_string(), upper), Err(ContractError::InvalidAddress));
    let big = ExecuteMsg::Mint { recipient: "addrr0000".to_string(), amount: u128::MAX };
    execute(&mut state, &"creator".to_string(), big).unwrap();
    let over = ExecuteMsg::Mint { recipient: "addrr0001".to_string(), amount: 1 };
    assert_eq!(execute(&mut state, &"creator".to_string(), over), Err(ContractError::CannotExceedCap));
    assert_eq!(token_info(&state).total_supply, u128::MAX);
}

#[test]
fn mints_accumulate_supply() {
    let mut state = ContractState::new();
    do_instantiate(&mut state);
    for (to, amount) in [("addrr0000", 7u128), ("addrr0001", 35u128), ("addrr0000", 100u128)] {
        let msg = ExecuteMsg::Mint { recipient: to.to_string(), amount };
        let res = execute(&mut state, &"creator".to_string(), msg).unwrap();
        assert_eq!(res.attributes[0].value, "mint");
    }
    assert_eq!(token_info(&state).total_supply, 142);
}

#[test]
fn non_controller_mint_is_unauthorized_first() {
    let mut state = ContractState::new();
    do_instantiate(&mut state);
    let zero = ExecuteMsg::Mint { recipient: "addrr0000".to_string(), amount: 0 };
    assert_eq!(execute(&mut state, &"intruder".to_string(), zero), Err(ContractError::Unauthorized));
    let upper = ExecuteMsg::Mint { recipient: "ADDRR0000".to_string(), amount: 3 };
    assert_eq!(execute(&mut state, &"intruder".to_string(), upper), Err(ContractError::Unauthorized));
    assert_eq!(token_info(&state).total_supply, 0);
}

#[test]
fn mint_reports_action_recipient_and_amount() {
    let mut state = ContractState::new();
    do_instantiate(&mut state);
    let msg = ExecuteMsg::Mint { recipient: "addrr0000".to_string(), amount: 12345678 };
    let res = execute(&mut state, &"creator".to_string(), msg).unwrap();
    let pairs: Vec<(String, String)> = res.attributes.into_iter().map(|a| (a.key, a.value)).collect();
    assert_eq!(
        pairs,
        vec![
            ("action".to_string(), "mint".to_string()),
            ("to".to_string(), "addrr0000".to_string()),
            ("amount".to_string(), "12345678".to_string()),
        ]
    );
}
