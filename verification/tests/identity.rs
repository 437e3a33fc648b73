use cosmwasm_std::testing::{mock_dependencies, mock_env, mock_info};
use cosmwasm_std::{Order, Response, StdError, Storage, Uint128};
use cw20::{Cw20Coin, MinterResponse};
use cw20_base::msg::InstantiateMsg;
use cw20_base::ContractError;
use first_token::contract::{
    has_identity, initialise, instantiate, migrate, record_identity, try_instantiate,
    CONTRACT_NAME, CONTRACT_VERSION, IDENTITY_CONFLICT,
};
use first_token::host::Host;
use first_token::msg::MigrateMsg;

fn records(storage: &dyn Storage) -> Vec<(Vec<u8>, Vec<u8>)> {
    storage.range(None, None, Order::Ascending).collect()
}

#[test]
fn constants_name_the_contract() {
    assert_eq!(CONTRACT_NAME, "crates.io:mide");
    assert_eq!(CONTRACT_VERSION, "0.1.0");
}

#[test]
fn record_identity_writes_one_record() {
    let mut deps = mock_dependencies();
    deps.storage.set(b"other", b"kept");
    let before = records(&deps.storage);
    {
        let mut host = Host { deps: deps.as_mut() };
        assert_eq!(record_identity(&mut host), Ok(()));
    }
    let after = records(&deps.storage);
    assert_eq!(after.len(), before.len() + 1);
    assert_eq!(deps.storage.get(b"other"), Some(b"kept".to_vec()));
    assert_eq!(
        deps.storage.get(b"contract_info"),
        Some(b"{\"contract\":\"crates.io:mide\",\"version\":\"0.1.0\"}".to_vec())
    );
    let found = cw2::get_contract_version(&deps.storage).unwrap();
    assert_eq!(found.contract, CONTRACT_NAME);
    assert_eq!(found.version, CONTRACT_VERSION);
}

#[test]
fn record_identity_refuses_a_second_identity() {
    let mut deps = mock_dependencies();
    cw2::set_contract_version(&mut deps.storage, "someone", "9.9.9").unwrap();
    let before = records(&deps.storage);
    {
        let mut host = Host { deps: deps.as_mut() };
        assert!(has_identity(&host));
        let r = record_identity(&mut host);
        assert_eq!(r, Err(StdError::generic_err("contract identity already set")));
    }
    assert_eq!(records(&deps.storage), before);
    let found = cw2::get_contract_version(&deps.storage).unwrap();
    assert_eq!(found.contract, "someone");
    assert_eq!(found.version, "9.9.9");
}

#[test]
fn record_identity_twice_fails_the_second_time() {
    let mut deps = mock_dependencies();
    let mut host = Host { deps: deps.as_mut() };
    assert!(!has_identity(&host));
    assert_eq!(record_identity(&mut host), Ok(()));
    assert!(has_identity(&host));
    assert_eq!(
        record_identity(&mut host),
        Err(StdError::generic_err("contract identity already set"))
    );
    assert_eq!(IDENTITY_CONFLICT, "contract identity already set");
}

#[test]
fn instantiate_refuses_a_second_identity() {
    let mut deps = mock_dependencies();
    {
        let mut host = Host { deps: deps.as_mut() };
        let r = instantiate(&mut host, mock_env(), mock_info("creator", &[]), opening());
        assert_eq!(r, Ok(Response::default()));
    }
    let before = records(&deps.storage);
    {
        let mut host = Host { deps: deps.as_mut() };
        let r = instantiate(&mut host, mock_env(), mock_info("creator", &[]), opening());
        let conflict = StdError::generic_err("contract identity already set");
        assert_eq!(r, Err(ContractError::Std(conflict)));
    }
    assert_eq!(records(&deps.storage), before);
}

#[test]
fn try_instantiate_refuses_a_second_identity_whatever_the_sum() {
    let mut deps = mock_dependencies();
    cw2::set_contract_version(&mut deps.storage, "someone", "9.9.9").unwrap();
    let before = records(&deps.storage);
    let mut msg = opening();
    msg.initial_balances = vec![
        Cw20Coin { address: "holder".to_string(), amount: Uint128::new(u128::MAX) },
        Cw20Coin { address: "second".to_string(), amount: Uint128::new(1) },
    ];
    let r = try_instantiate(
        &mut Host { deps: deps.as_mut() },
        mock_env(),
        mock_info("creator", &[]),
        msg,
    );
    let conflict = StdError::generic_err("contract identity already set");
    assert_eq!(r, Some(Err(ContractError::Std(conflict))));
    assert_eq!(records(&deps.storage), before);
}

#[test]
fn instantiate_leaves_the_ledgers_identity_record() {
    let mut deps = mock_dependencies();
    let msg = InstantiateMsg {
        name: "Mide Token".to_string(),
        symbol: "MIDE".to_string(),
        decimals: 6,
        initial_balances: vec![Cw20Coin { address: "holder".to_string(), amount: Uint128::new(7) }],
        mint: Some(MinterResponse { minter: "minter".to_string(), cap: None }),
        marketing: None,
    };
    {
        let mut host = Host { deps: deps.as_mut() };
        let r = instantiate(&mut host, mock_env(), mock_info("creator", &[]), msg);
        assert_eq!(r, Ok(Response::default()));
    }
    let found = cw2::get_contract_version(&deps.storage).unwrap();
    assert_eq!(found.contract, "crates.io:cw20-base");
    assert_eq!(found.version, "0.13.4");
}

#[test]
fn migrate_succeeds_and_changes_nothing() {
    let mut deps = mock_dependencies();
    deps.storage.set(b"alpha", b"one");
    deps.storage.set(b"beta", b"two");
    let before = records(&deps.storage);
    {
        let mut host = Host { deps: deps.as_mut() };
        let r = migrate(&mut host, mock_env(), MigrateMsg {});
        assert_eq!(r, Ok(Response::default()));
        let response = r.unwrap();
        assert!(response.messages.is_empty());
        assert!(response.attributes.is_empty());
        assert!(response.events.is_empty());
        assert_eq!(response.data, None);
    }
    assert_eq!(records(&deps.storage), before);
}

#[test]
fn migrate_on_an_empty_storage() {
    let mut deps = mock_dependencies();
    {
        let mut host = Host { deps: deps.as_mut() };
        let r = migrate(&mut host, mock_env(), MigrateMsg::default());
        assert_eq!(r, Ok(Response::default()));
    }
    assert!(records(&deps.storage).is_empty());
}

fn opening() -> InstantiateMsg {
    InstantiateMsg {
        name: "Mide Token".to_string(),
        symbol: "MIDE".to_string(),
        decimals: 6,
        initial_balances: vec![Cw20Coin { address: "holder".to_string(), amount: Uint128::new(7) }],
        mint: None,
        marketing: None,
    }
}

#[test]
fn initialise_hands_back_a_failure_to_record() {
    let mut deps = mock_dependencies();
    deps.storage.set(b"alpha", b"one");
    let before = records(&deps.storage);
    {
        let mut host = Host { deps: deps.as_mut() };
        let written = Err(StdError::generic_err("no room"));
        let r = initialise(&mut host, written, mock_env(), mock_info("creator", &[]), opening());
        assert_eq!(r, Err(ContractError::Std(StdError::generic_err("no room"))));
    }
    assert_eq!(records(&deps.storage), before);
}

#[test]
fn initialise_after_a_success_is_the_ledgers() {
    let mut ours = mock_dependencies();
    let mut theirs = mock_dependencies();
    let got = initialise(
        &mut Host { deps: ours.as_mut() },
        Ok(()),
        mock_env(),
        mock_info("creator", &[]),
        opening(),
    );
    let want = cw20_base::contract::instantiate(
        theirs.as_mut(),
        mock_env(),
        mock_info("creator", &[]),
        opening(),
    );
    assert_eq!(got, want);
    assert_eq!(got, Ok(Response::default()));
    assert_eq!(records(&ours.storage), records(&theirs.storage));
    assert_eq!(records(&ours.storage).len(), 3);
}

#[test]
fn instantiate_is_record_then_ledger() {
    let mut ours = mock_dependencies();
    let mut theirs = mock_dependencies();
    let got =
        instantiate(&mut Host { deps: ours.as_mut() }, mock_env(), mock_info("creator", &[]), opening());
    cw2::set_contract_version(&mut theirs.storage, CONTRACT_NAME, CONTRACT_VERSION).unwrap();
    let want = cw20_base::contract::instantiate(
        theirs.as_mut(),
        mock_env(),
        mock_info("creator", &[]),
        opening(),
    );
    assert_eq!(got, want);
    assert_eq!(records(&ours.storage), records(&theirs.storage));
}
