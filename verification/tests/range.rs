use cosmwasm_std::testing::{mock_dependencies, mock_env, mock_info, MockApi, MockQuerier, MockStorage};
use cosmwasm_std::{Order, OwnedDeps, Response, Storage, Uint128};
use cw20::{Cw20Coin, MinterResponse};
use cw20_base::allowances::query_allowance;
use cw20_base::contract::{query_balance, query_token_info};
use cw20_base::msg::InstantiateMsg;
use cw20_base::ContractError;
use first_token::amounts::{has_room, total_fits};
use first_token::contract::{fits, try_execute, try_instantiate};
use first_token::host::Host;
use first_token::msg::ExecuteMsg;

fn opening_with(balances: Vec<(&str, u128)>) -> InstantiateMsg {
    InstantiateMsg {
        name: "Mide Token".to_string(),
        symbol: "MIDE".to_string(),
        decimals: 6,
        initial_balances: balances
            .into_iter()
            .map(|(a, n)| Cw20Coin { address: a.to_string(), amount: Uint128::new(n) })
            .collect(),
        mint: Some(MinterResponse { minter: "minter".to_string(), cap: None }),
        marketing: None,
    }
}

fn started(balances: Vec<(&str, u128)>) -> OwnedDeps<MockStorage, MockApi, MockQuerier> {
    let mut deps = mock_dependencies();
    let r = try_instantiate(
        &mut Host { deps: deps.as_mut() },
        mock_env(),
        mock_info("creator", &[]),
        opening_with(balances),
    );
    assert_eq!(r, Some(Ok(Response::default())));
    deps
}

fn all_records(deps: &OwnedDeps<MockStorage, MockApi, MockQuerier>) -> Vec<(Vec<u8>, Vec<u8>)> {
    deps.storage.range(None, None, Order::Ascending).collect()
}

#[test]
fn has_room_up_to_the_largest_amount() {
    assert!(has_room(None, u128::MAX));
    assert!(has_room(Some(0), u128::MAX));
    assert!(has_room(Some(u128::MAX), 0));
    assert!(has_room(Some(u128::MAX - 5), 5));
    assert!(!has_room(Some(u128::MAX - 5), 6));
    assert!(!has_room(Some(1), u128::MAX));
}

#[test]
fn total_fits_up_to_the_largest_amount() {
    assert!(total_fits(&vec![]));
    assert!(total_fits(&vec![1, 2, 3]));
    assert!(total_fits(&vec![u128::MAX]));
    assert!(total_fits(&vec![u128::MAX - 3, 1, 2, 0]));
    assert!(!total_fits(&vec![u128::MAX, 1]));
    assert!(!total_fits(&vec![1, u128::MAX - 1, 1, 0]));
    assert!(!total_fits(&vec![u128::MAX, u128::MAX, u128::MAX]));
}

#[test]
fn try_instantiate_sets_the_token_up() {
    let deps = started(vec![("holder", 1000), ("second", 40)]);
    assert_eq!(query_balance(deps.as_ref(), "holder".to_string()).unwrap().balance.u128(), 1000);
    assert_eq!(query_token_info(deps.as_ref()).unwrap().total_supply.u128(), 1040);
}

#[test]
fn try_instantiate_takes_the_largest_supply() {
    let deps = started(vec![("holder", u128::MAX - 1), ("second", 1)]);
    assert_eq!(query_token_info(deps.as_ref()).unwrap().total_supply.u128(), u128::MAX);
}

#[test]
fn try_instantiate_declines_a_supply_out_of_range() {
    let mut deps = mock_dependencies();
    deps.storage.set(b"alpha", b"one");
    let before = all_records(&deps);
    let r = try_instantiate(
        &mut Host { deps: deps.as_mut() },
        mock_env(),
        mock_info("creator", &[]),
        opening_with(vec![("holder", u128::MAX), ("second", 1)]),
    );
    assert_eq!(r, None);
    assert_eq!(all_records(&deps), before);
}

#[test]
fn try_instantiate_hands_the_ledgers_error_on() {
    let mut deps = mock_dependencies();
    let r = try_instantiate(
        &mut Host { deps: deps.as_mut() },
        mock_env(),
        mock_info("creator", &[]),
        opening_with(vec![("holder", 1), ("holder", 2)]),
    );
    assert_eq!(r, Some(Err(ContractError::DuplicateInitialBalanceAddresses {})));
}

#[test]
fn try_execute_transfers() {
    let mut deps = started(vec![("holder", 1000)]);
    let msg = ExecuteMsg::Transfer { recipient: "carol".to_string(), amount: 300 };
    let r = try_execute(&mut Host { deps: deps.as_mut() }, mock_env(), mock_info("holder", &[]), msg);
    assert!(matches!(r, Some(Ok(_))));
    assert_eq!(query_balance(deps.as_ref(), "holder".to_string()).unwrap().balance.u128(), 700);
    assert_eq!(query_balance(deps.as_ref(), "carol".to_string()).unwrap().balance.u128(), 300);
}

#[test]
fn try_execute_hands_the_ledgers_error_on() {
    let mut deps = started(vec![("holder", 1000)]);
    let msg = ExecuteMsg::Transfer { recipient: "carol".to_string(), amount: 3000 };
    let r = try_execute(&mut Host { deps: deps.as_mut() }, mock_env(), mock_info("holder", &[]), msg);
    assert!(matches!(r, Some(Err(ContractError::Std(_)))));
    let msg = ExecuteMsg::Transfer { recipient: "x".to_string(), amount: 3 };
    let r = try_execute(&mut Host { deps: deps.as_mut() }, mock_env(), mock_info("holder", &[]), msg);
    assert!(matches!(r, Some(Err(ContractError::Std(_)))));
    let msg = ExecuteMsg::Burn { amount: 0 };
    let r = try_execute(&mut Host { deps: deps.as_mut() }, mock_env(), mock_info("holder", &[]), msg);
    assert_eq!(r, Some(Err(ContractError::InvalidZeroAmount {})));
}

#[test]
fn try_execute_declines_a_mint_out_of_range() {
    let mut deps = started(vec![("holder", 1000)]);
    let before = all_records(&deps);
    let msg = ExecuteMsg::Mint { recipient: "carol".to_string(), amount: u128::MAX - 999 };
    let r = try_execute(&mut Host { deps: deps.as_mut() }, mock_env(), mock_info("minter", &[]), msg);
    assert_eq!(r, None);
    assert_eq!(all_records(&deps), before);
    let msg = ExecuteMsg::Mint { recipient: "carol".to_string(), amount: u128::MAX - 1000 };
    let r = try_execute(&mut Host { deps: deps.as_mut() }, mock_env(), mock_info("minter", &[]), msg);
    assert!(matches!(r, Some(Ok(_))));
    assert_eq!(query_token_info(deps.as_ref()).unwrap().total_supply.u128(), u128::MAX);
}

#[test]
fn try_execute_declines_an_allowance_out_of_range() {
    let mut deps = started(vec![("holder", 1000)]);
    let msg = ExecuteMsg::IncreaseAllowance {
        spender: "erin".to_string(),
        amount: u128::MAX - 1,
        expires: None,
    };
    let r = try_execute(&mut Host { deps: deps.as_mut() }, mock_env(), mock_info("holder", &[]), msg);
    assert!(matches!(r, Some(Ok(_))));
    let before = all_records(&deps);
    let msg = ExecuteMsg::IncreaseAllowance { spender: "erin".to_string(), amount: 2, expires: None };
    let r = try_execute(&mut Host { deps: deps.as_mut() }, mock_env(), mock_info("holder", &[]), msg);
    assert_eq!(r, None);
    assert_eq!(all_records(&deps), before);
    let msg = ExecuteMsg::IncreaseAllowance { spender: "erin".to_string(), amount: 1, expires: None };
    let r = try_execute(&mut Host { deps: deps.as_mut() }, mock_env(), mock_info("holder", &[]), msg);
    assert!(matches!(r, Some(Ok(_))));
    let found = query_allowance(deps.as_ref(), "holder".to_string(), "erin".to_string()).unwrap();
    assert_eq!(found.allowance.u128(), u128::MAX);
}

#[test]
fn try_execute_declines_an_allowance_of_an_unchecked_caller() {
    let mut deps = started(vec![("holder", 1000)]);
    let msg = ExecuteMsg::IncreaseAllowance {
        spender: "erin".to_string(),
        amount: u128::MAX,
        expires: None,
    };
    let r = try_execute(&mut Host { deps: deps.as_mut() }, mock_env(), mock_info("h", &[]), msg);
    assert!(matches!(r, Some(Ok(_))));
    let msg = ExecuteMsg::IncreaseAllowance { spender: "erin".to_string(), amount: 1, expires: None };
    let r = try_execute(&mut Host { deps: deps.as_mut() }, mock_env(), mock_info("h", &[]), msg);
    assert_eq!(r, None);
}

#[test]
fn fits_tells_the_sums_in_range() {
    let mut deps = started(vec![("holder", u128::MAX - 10), ("second", 10)]);
    let host = Host { deps: deps.as_mut() };
    let info = mock_info("second", &[]);
    let msg = ExecuteMsg::Transfer { recipient: "holder".to_string(), amount: 10 };
    assert!(fits(&host, &info, &msg));
    let msg = ExecuteMsg::Transfer { recipient: "holder".to_string(), amount: 11 };
    assert!(!fits(&host, &info, &msg));
    let msg = ExecuteMsg::Send { contract: "holder".to_string(), amount: 11, msg: vec![].into() };
    assert!(!fits(&host, &info, &msg));
    let msg = ExecuteMsg::TransferFrom {
        owner: "second".to_string(),
        recipient: "holder".to_string(),
        amount: 11,
    };
    assert!(!fits(&host, &info, &msg));
    let msg = ExecuteMsg::SendFrom {
        owner: "second".to_string(),
        contract: "holder".to_string(),
        amount: 11,
        msg: vec![].into(),
    };
    assert!(!fits(&host, &info, &msg));
    let msg = ExecuteMsg::Mint { recipient: "carol".to_string(), amount: 1 };
    assert!(!fits(&host, &info, &msg));
    let msg = ExecuteMsg::Mint { recipient: "carol".to_string(), amount: 0 };
    assert!(fits(&host, &info, &msg));
    let msg = ExecuteMsg::Burn { amount: u128::MAX };
    assert!(fits(&host, &info, &msg));
    let msg = ExecuteMsg::BurnFrom { owner: "holder".to_string(), amount: u128::MAX };
    assert!(fits(&host, &info, &msg));
    let msg = ExecuteMsg::Transfer { recipient: "x".to_string(), amount: u128::MAX };
    assert!(fits(&host, &info, &msg));
}
