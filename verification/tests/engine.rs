use tokenfactory_core::contract::{
    check_mint, denom_found, execute, execute_burn, execute_mint, execute_modify_whitelist,
    execute_transfer_admin, has_prefix_factory, instantiate, mint_request_complete, query,
};
use tokenfactory_core::error::ContractError;
use tokenfactory_core::helpers::{is_contract_manager, is_whitelisted};
use tokenfactory_core::msg::{Denom, ExecuteMsg, InstantiateMsg, QueryAnswer, QueryMsg};
use tokenfactory_core::response::{Coin, Effect, Response};
use tokenfactory_core::state::ContractState;

fn denom(name: &str, amount: Option<u128>) -> Denom {
    Denom { full_denom: name.to_string(), amount }
}

fn coin(amount: u128, name: &str) -> Coin {
    Coin { denom: name.to_string(), amount }
}

fn strings(v: &[&str]) -> Vec<String> {
    v.iter().map(|s| s.to_string()).collect()
}

/// A deployment with two registered denominations, one whitelisted minter
/// and a manager.
fn base_state() -> ContractState {
    let msg = InstantiateMsg {
        manager: Some("manager".to_string()),
        allowed_mint_addresses: strings(&["minter"]),
        denoms: vec![
            denom("factory/abc", Some(7)),
            denom("factory/xyz", Some(11)),
        ],
    };
    let (state, _) = instantiate(&"creator".to_string(), msg).unwrap();
    state
}

fn attr_pairs(resp: &Response) -> Vec<(String, String)> {
    resp.attributes.iter().map(|a| (a.key.clone(), a.value.clone())).collect()
}

#[test]
fn create_keeps_validated_inputs() {
    let state = base_state();
    assert_eq!(state.config.manager, "manager");
    assert_eq!(state.config.allowed_mint_addresses, strings(&["minter"]));
    assert_eq!(state.config.denoms.len(), 2);
    assert_eq!(state.config.denoms[0].full_denom, "factory/abc");
    assert_eq!(state.config.denoms[0].amount, Some(7));
    assert_eq!(state.config.denoms[1].full_denom, "factory/xyz");
    assert!(state.whitelist.is_empty());
}

#[test]
fn create_emits_method_attribute() {
    let msg = InstantiateMsg {
        manager: None,
        allowed_mint_addresses: vec![],
        denoms: vec![],
    };
    let (_, resp) = instantiate(&"creator".to_string(), msg).unwrap();
    assert_eq!(attr_pairs(&resp), vec![("method".to_string(), "instantiate".to_string())]);
    assert!(resp.messages.is_empty());
}

#[test]
fn create_defaults_manager_to_caller() {
    let msg = InstantiateMsg {
        manager: None,
        allowed_mint_addresses: vec![],
        denoms: vec![denom("factory/abc", None)],
    };
    let (state, _) = instantiate(&"creator".to_string(), msg).unwrap();
    assert_eq!(state.config.manager, "creator");
}

#[test]
fn create_rejects_unprefixed_denom() {
    let msg = InstantiateMsg {
        manager: Some("manager".to_string()),
        allowed_mint_addresses: vec![],
        denoms: vec![denom("factory/ok", None), denom("uatom", None)],
    };
    match instantiate(&"creator".to_string(), msg) {
        Err(ContractError::InvalidDenom { denom: d, message }) => {
            assert_eq!(d, "uatom");
            assert_eq!(message, "Denom must start with 'factory/'");
        },
        _ => panic!("expected an invalid-denom error"),
    }
}

#[test]
fn factory_prefix_check() {
    assert!(has_prefix_factory(&"factory/abc".to_string()));
    assert!(has_prefix_factory(&"factory/".to_string()));
    assert!(!has_prefix_factory(&"factor".to_string()));
    assert!(!has_prefix_factory(&"Factory/abc".to_string()));
    assert!(!has_prefix_factory(&"ufactory/abc".to_string()));
    assert!(!has_prefix_factory(&"".to_string()));
}

#[test]
fn query_round_trip_after_create() {
    let state = base_state();
    match query(&state, QueryMsg::GetConfig {}) {
        QueryAnswer::Config(c) => {
            assert_eq!(c.manager, "manager");
            assert_eq!(c.allowed_mint_addresses, strings(&["minter"]));
            assert_eq!(c.denoms.len(), 2);
            assert_eq!(c.denoms[0].full_denom, "factory/abc");
            assert_eq!(c.denoms[0].amount, Some(7));
            assert_eq!(c.denoms[1].full_denom, "factory/xyz");
            assert_eq!(c.denoms[1].amount, Some(11));
        },
        _ => panic!("expected the configuration"),
    }
}

#[test]
fn query_denoms() {
    let state = base_state();
    match query(&state, QueryMsg::GetDenoms {}) {
        QueryAnswer::Denoms(d) => {
            assert_eq!(d.len(), 2);
            assert_eq!(d[0].full_denom, "factory/abc");
            assert_eq!(d[1].full_denom, "factory/xyz");
        },
        _ => panic!("expected the denomination list"),
    }
}

#[test]
fn whitelist_helpers() {
    let mut state = base_state();
    assert!(is_whitelisted(&state, &"minter".to_string()).is_ok());
    assert!(matches!(
        is_whitelisted(&state, &"stranger".to_string()),
        Err(ContractError::Unauthorized {})
    ));
    state.whitelist.push("stranger".to_string());
    assert!(is_whitelisted(&state, &"stranger".to_string()).is_ok());
    assert!(is_contract_manager(&state.config, &"manager".to_string()).is_ok());
    assert!(matches!(
        is_contract_manager(&state.config, &"minter".to_string()),
        Err(ContractError::Unauthorized {})
    ));
}

#[test]
fn mint_rejects_unauthorized_caller() {
    let state = base_state();
    let req = vec![denom("factory/abc", Some(5))];
    match execute_mint(&state, &"stranger".to_string(), "alice".to_string(), req) {
        Err(ContractError::Unauthorized {}) => {},
        _ => panic!("expected the authorization error"),
    }
}

#[test]
fn mint_rejects_empty_request() {
    let state = base_state();
    match execute_mint(&state, &"minter".to_string(), "alice".to_string(), vec![]) {
        Err(ContractError::InvalidDenom { denom: d, message }) => {
            assert_eq!(d, "denoms");
            assert_eq!(message, "denoms cannot be empty on mint");
        },
        _ => panic!("expected the empty-request error"),
    }
}

#[test]
fn mint_rejects_unregistered_denom_as_a_whole() {
    let state = base_state();
    let req = vec![denom("factory/abc", Some(5)), denom("factory/nope", Some(5))];
    match execute_mint(&state, &"minter".to_string(), "alice".to_string(), req) {
        Err(ContractError::InvalidDenom { denom: d, message }) => {
            assert_eq!(d, "factory/nope");
            assert_eq!(message, "Denom not found in state");
        },
        _ => panic!("expected the not-found error"),
    }
}

#[test]
fn mint_rejects_registry_entry_without_amount() {
    let msg = InstantiateMsg {
        manager: Some("manager".to_string()),
        allowed_mint_addresses: strings(&["minter"]),
        denoms: vec![denom("factory/bare", None)],
    };
    let (state, _) = instantiate(&"creator".to_string(), msg).unwrap();
    let req = vec![denom("factory/bare", Some(5))];
    match execute_mint(&state, &"minter".to_string(), "alice".to_string(), req) {
        Err(ContractError::InvalidDenom { denom: d, message }) => {
            assert_eq!(d, "factory/bare");
            assert_eq!(message, "Denom does not have amount set");
        },
        _ => panic!("expected the missing-amount error"),
    }
}

#[test]
fn mint_emits_one_instruction_per_request_entry_in_order() {
    let state = base_state();
    let req = vec![
        denom("factory/abc", Some(100)),
        denom("factory/xyz", Some(5)),
        denom("factory/abc", Some(100)),
    ];
    let resp = execute_mint(&state, &"minter".to_string(), "alice".to_string(), req).unwrap();
    assert_eq!(resp.messages.len(), 3);
    let expect = [("factory/abc", 100u128), ("factory/xyz", 5), ("factory/abc", 100)];
    for (m, (d, a)) in resp.messages.iter().zip(expect.iter()) {
        match m {
            Effect::MintTokens { denom, amount, mint_to_address } => {
                assert_eq!(denom, d);
                assert_eq!(amount, a);
                assert_eq!(mint_to_address, "alice");
            },
            _ => panic!("expected a mint instruction"),
        }
    }
    assert_eq!(
        attr_pairs(&resp),
        vec![
            ("method".to_string(), "execute_mint".to_string()),
            ("to_address".to_string(), "alice".to_string()),
            (
                "denoms".to_string(),
                "{factory/abc: 100}, {factory/xyz: 5}, {factory/abc: 100}".to_string()
            ),
        ]
    );
}

#[test]
fn mint_summary_renders_amount_edges() {
    let state = base_state();
    let req = vec![
        denom("factory/abc", Some(0)),
        denom("factory/xyz", Some(340282366920938463463374607431768211455)),
    ];
    let resp = execute_mint(&state, &"minter".to_string(), "alice".to_string(), req).unwrap();
    assert_eq!(
        resp.attributes[2].value,
        "{factory/abc: 0}, {factory/xyz: 340282366920938463463374607431768211455}"
    );
}

#[test]
fn mint_allowed_through_whitelist_entry() {
    let mut state = base_state();
    execute_modify_whitelist(&mut state, &"manager".to_string(), &strings(&["late"])).unwrap();
    let req = vec![denom("factory/abc", Some(1))];
    assert!(execute_mint(&state, &"late".to_string(), "alice".to_string(), req).is_ok());
}

#[test]
fn check_mint_and_completeness() {
    let state = base_state();
    assert!(check_mint(&state, &"minter".to_string(), &vec![denom("factory/abc", None)]).is_ok());
    assert!(check_mint(&state, &"minter".to_string(), &vec![]).is_err());
    assert!(check_mint(&state, &"stranger".to_string(), &vec![denom("factory/abc", Some(1))])
        .is_err());
    assert!(mint_request_complete(&vec![]));
    assert!(mint_request_complete(&vec![denom("factory/abc", Some(1))]));
    assert!(!mint_request_complete(&vec![
        denom("factory/abc", Some(1)),
        denom("factory/xyz", None)
    ]));
}

#[test]
fn burn_requires_attached_funds() {
    let state = base_state();
    match execute_burn(&state, &"contract".to_string(), &"anyone".to_string(), vec![]) {
        Err(ContractError::InvalidFunds {}) => {},
        _ => panic!("expected the invalid-funds error"),
    }
}

#[test]
fn burn_partitions_factory_and_foreign_funds() {
    let state = base_state();
    let funds = vec![coin(100, "factory/abc"), coin(50, "uatom")];
    let resp =
        execute_burn(&state, &"contract".to_string(), &"caller".to_string(), funds).unwrap();
    assert_eq!(attr_pairs(&resp), vec![("method".to_string(), "execute_burn".to_string())]);
    assert_eq!(resp.messages.len(), 2);
    match &resp.messages[0] {
        Effect::BankSend { to_address, amount } => {
            assert_eq!(to_address, "caller");
            assert_eq!(amount.len(), 1);
            assert_eq!(amount[0].denom, "uatom");
            assert_eq!(amount[0].amount, 50);
        },
        _ => panic!("expected the return transfer first"),
    }
    match &resp.messages[1] {
        Effect::BurnTokens { denom, amount, burn_from_address } => {
            assert_eq!(denom, "factory/abc");
            assert_eq!(*amount, 100);
            assert_eq!(burn_from_address, "contract");
        },
        _ => panic!("expected the burn instruction"),
    }
}

#[test]
fn burn_never_burns_foreign_funds() {
    let state = base_state();
    let funds = vec![coin(1, "uatom"), coin(2, "ujuno")];
    let resp =
        execute_burn(&state, &"contract".to_string(), &"caller".to_string(), funds).unwrap();
    assert_eq!(resp.messages.len(), 1);
    match &resp.messages[0] {
        Effect::BankSend { to_address, amount } => {
            assert_eq!(to_address, "caller");
            assert_eq!(amount.len(), 2);
            assert_eq!(amount[0].denom, "uatom");
            assert_eq!(amount[1].denom, "ujuno");
        },
        _ => panic!("expected only the return transfer"),
    }
}

#[test]
fn burn_emits_empty_return_transfer_when_all_funds_are_factory() {
    let state = base_state();
    let funds = vec![coin(3, "factory/abc"), coin(4, "factory/xyz")];
    let resp =
        execute_burn(&state, &"contract".to_string(), &"caller".to_string(), funds).unwrap();
    assert_eq!(resp.messages.len(), 3);
    match &resp.messages[0] {
        Effect::BankSend { to_address, amount } => {
            assert_eq!(to_address, "caller");
            assert!(amount.is_empty());
        },
        _ => panic!("expected the return transfer first"),
    }
    match &resp.messages[2] {
        Effect::BurnTokens { denom, amount, .. } => {
            assert_eq!(denom, "factory/xyz");
            assert_eq!(*amount, 4);
        },
        _ => panic!("expected a burn instruction"),
    }
}

#[test]
fn modify_whitelist_is_manager_only() {
    let mut state = base_state();
    match execute_modify_whitelist(&mut state, &"minter".to_string(), &strings(&["a"])) {
        Err(ContractError::Unauthorized {}) => {},
        _ => panic!("expected the authorization error"),
    }
    assert!(state.whitelist.is_empty());
}

#[test]
fn modify_whitelist_toggle_twice_restores_state() {
    let mut state = base_state();
    let manager = "manager".to_string();
    execute_modify_whitelist(&mut state, &manager, &strings(&["a"])).unwrap();
    assert_eq!(state.whitelist, strings(&["a"]));
    execute_modify_whitelist(&mut state, &manager, &strings(&["a"])).unwrap();
    assert!(state.whitelist.is_empty());
}

#[test]
fn modify_whitelist_retoggles_duplicates_within_one_call() {
    let mut state = base_state();
    let manager = "manager".to_string();
    let resp =
        execute_modify_whitelist(&mut state, &manager, &strings(&["a", "b", "a"])).unwrap();
    assert!(resp.attributes.is_empty());
    assert!(resp.messages.is_empty());
    assert_eq!(state.whitelist, strings(&["b"]));
}

#[test]
fn transfer_admin_is_manager_only() {
    let state = base_state();
    match execute_transfer_admin(
        &state,
        &"minter".to_string(),
        "factory/abc".to_string(),
        "newadmin".to_string(),
    ) {
        Err(ContractError::Unauthorized {}) => {},
        _ => panic!("expected the authorization error"),
    }
}

#[test]
fn transfer_admin_requires_registered_denom() {
    let state = base_state();
    match execute_transfer_admin(
        &state,
        &"manager".to_string(),
        "factory/nope".to_string(),
        "newadmin".to_string(),
    ) {
        Err(ContractError::InvalidDenom { denom: d, message }) => {
            assert_eq!(d, "factory/nope");
            assert_eq!(message, "Denom not found in state");
        },
        _ => panic!("expected the not-found error"),
    }
}

#[test]
fn transfer_admin_emits_one_change_admin_instruction() {
    let state = base_state();
    let resp = execute_transfer_admin(
        &state,
        &"manager".to_string(),
        "factory/abc".to_string(),
        "newadmin".to_string(),
    )
    .unwrap();
    assert_eq!(
        attr_pairs(&resp),
        vec![
            ("method".to_string(), "execute_transfer_admin".to_string()),
            ("new_admin".to_string(), "newadmin".to_string()),
        ]
    );
    assert_eq!(resp.messages.len(), 1);
    match &resp.messages[0] {
        Effect::ChangeAdmin { denom, new_admin_address } => {
            assert_eq!(denom, "factory/abc");
            assert_eq!(new_admin_address, "newadmin");
        },
        _ => panic!("expected the change-admin instruction"),
    }
}

#[test]
fn denom_lookup() {
    let state = base_state();
    assert!(denom_found(&state.config.denoms, &"factory/abc".to_string()));
    assert!(!denom_found(&state.config.denoms, &"uatom".to_string()));
}

#[test]
fn execute_dispatches_each_request() {
    let mut state = base_state();
    let contract = "contract".to_string();

    let resp = execute(
        &mut state,
        &contract,
        &"anyone".to_string(),
        vec![coin(9, "uatom")],
        ExecuteMsg::Burn {},
    )
    .unwrap();
    assert!(matches!(resp.messages[0], Effect::BankSend { .. }));

    let resp = execute(
        &mut state,
        &contract,
        &"minter".to_string(),
        vec![],
        ExecuteMsg::Mint {
            address: "alice".to_string(),
            denom: vec![denom("factory/abc", Some(2))],
        },
    )
    .unwrap();
    assert!(matches!(resp.messages[0], Effect::MintTokens { .. }));

    let resp = execute(
        &mut state,
        &contract,
        &"manager".to_string(),
        vec![],
        ExecuteMsg::TransferAdmin {
            denom: "factory/xyz".to_string(),
            new_address: "newadmin".to_string(),
        },
    )
    .unwrap();
    assert!(matches!(resp.messages[0], Effect::ChangeAdmin { .. }));

    execute(
        &mut state,
        &contract,
        &"manager".to_string(),
        vec![],
        ExecuteMsg::ModifyWhitelist { addresses: strings(&["a"]) },
    )
    .unwrap();
    assert_eq!(state.whitelist, strings(&["a"]));

    match execute(
        &mut state,
        &contract,
        &"stranger".to_string(),
        vec![],
        ExecuteMsg::ModifyWhitelist { addresses: strings(&["b"]) },
    ) {
        Err(ContractError::Unauthorized {}) => {},
        _ => panic!("expected the authorization error"),
    }
    assert_eq!(state.whitelist, strings(&["a"]));
}
