use artist_contracts::artist_ft::contract::{execute, instantiate, query, FEATURE_MINTING, PRECISION};
use artist_contracts::artist_ft::msg::{AssetMsg, AssetQuery, ExecuteMsg, MsgDto, QueryMsg};
use artist_contracts::error::ContractError;
use artist_contracts::response::Attribute;
use artist_contracts::state::{Env, MessageInfo, Store};

fn env() -> Env {
    Env { contract_address: "core1Token".to_string() }
}

fn info(sender: &str) -> MessageInfo {
    MessageInfo { sender: sender.to_string() }
}

fn attr(key: &str, value: &str) -> Attribute {
    Attribute { key: key.to_string(), value: value.to_string() }
}

fn issue(symbol: &str, subunit: &str) -> AssetMsg {
    AssetMsg::Issue {
        symbol: symbol.to_string(),
        subunit: subunit.to_string(),
        precision: PRECISION,
        initial_amount: 0,
        features: vec![FEATURE_MINTING],
        burn_rate: "0".to_string(),
        send_commission_rate: "0".to_string(),
    }
}

fn issued(owner: &str) -> Store {
    let mut store = Store::new();
    instantiate(
        &mut store,
        &env(),
        &info(owner),
        MsgDto { symbol: "DALI".to_string(), subunit: "udali".to_string() },
    )
    .unwrap();
    store
}

#[test]
fn instantiate_issues_the_token() {
    let mut store = Store::new();
    let resp = instantiate(
        &mut store,
        &env(),
        &info("alice"),
        MsgDto { symbol: "DALI".to_string(), subunit: "udali".to_string() },
    )
    .unwrap();
    assert_eq!(store.owner, Some("alice".to_string()));
    assert_eq!(store.identifier, Some("uda-core1token".to_string()));
    assert_eq!(resp.messages, vec![issue("DALI", "udali")]);
    assert_eq!(resp.attributes, vec![attr("owner", "alice"), attr("denom", "uda-core1token")]);
}

#[test]
fn instantiate_with_short_subunit_is_refused() {
    let mut store = Store::new();
    let r = instantiate(
        &mut store,
        &env(),
        &info("alice"),
        MsgDto { symbol: "D".to_string(), subunit: "u".to_string() },
    );
    assert_eq!(r, Err(ContractError::InvalidLabel));
    assert_eq!(store, Store::new());
}

#[test]
fn token_instantiate_twice_is_refused() {
    let mut store = issued("alice");
    let before = store.clone();
    let r = instantiate(
        &mut store,
        &env(),
        &info("bob"),
        MsgDto { symbol: "B".to_string(), subunit: "ubob".to_string() },
    );
    assert_eq!(r, Err(ContractError::AlreadyCreated));
    assert_eq!(store, before);
}

#[test]
fn owner_mints_one_hundred() {
    let mut store = issued("alice");
    let resp = execute(&mut store, &env(), &info("alice"), ExecuteMsg::Mint { amount: 100 }).unwrap();
    assert_eq!(
        resp.messages,
        vec![AssetMsg::Mint { denom: "uda-core1token".to_string(), amount: 100 }]
    );
    assert_eq!(
        resp.attributes,
        vec![attr("method", "mint"), attr("denom", "uda-core1token"), attr("amount", "100")]
    );
}

#[test]
fn mint_amount_in_decimal() {
    let mut store = issued("alice");
    let zero = execute(&mut store, &env(), &info("alice"), ExecuteMsg::Mint { amount: 0 }).unwrap();
    assert_eq!(zero.attributes[2], attr("amount", "0"));
    let max = execute(&mut store, &env(), &info("alice"), ExecuteMsg::Mint { amount: u128::MAX })
        .unwrap();
    assert_eq!(max.attributes[2], attr("amount", "340282366920938463463374607431768211455"));
}

#[test]
fn stranger_cannot_mint() {
    let mut store = issued("alice");
    let before = store.clone();
    assert_eq!(
        execute(&mut store, &env(), &info("bob"), ExecuteMsg::Mint { amount: 100 }),
        Err(ContractError::Unauthorized)
    );
    assert_eq!(store, before);
}

#[test]
fn mint_before_creation_is_not_found() {
    let mut store = Store { owner: Some("alice".to_string()), identifier: None };
    assert_eq!(
        execute(&mut store, &env(), &info("alice"), ExecuteMsg::Mint { amount: 1 }),
        Err(ContractError::NotFound)
    );
}

#[test]
fn artist_token_on_fresh_store() {
    let mut store = Store { owner: Some("alice".to_string()), identifier: None };
    let resp = execute(
        &mut store,
        &env(),
        &info("carol"),
        ExecuteMsg::InstantiateArtistToken { artist: "Dali".to_string() },
    )
    .unwrap();
    assert_eq!(store.identifier, Some("dal-core1token".to_string()));
    assert_eq!(store.owner, Some("alice".to_string()));
    assert_eq!(resp.messages, vec![issue("Dal", "Dali")]);
    assert_eq!(resp.attributes, vec![attr("owner", "carol"), attr("denom", "dal-core1token")]);
}

#[test]
fn artist_token_with_short_name_is_refused() {
    let mut store = Store { owner: Some("alice".to_string()), identifier: None };
    let r = execute(
        &mut store,
        &env(),
        &info("alice"),
        ExecuteMsg::InstantiateArtistToken { artist: "Da".to_string() },
    );
    assert_eq!(r, Err(ContractError::InvalidLabel));
    assert_eq!(store.identifier, None);
}

#[test]
fn second_artist_token_keeps_owner_and_denom() {
    let mut store = issued("alice");
    let before = store.clone();
    let r = execute(
        &mut store,
        &env(),
        &info("mallory"),
        ExecuteMsg::InstantiateArtistToken { artist: "Goya".to_string() },
    );
    assert_eq!(r, Err(ContractError::AlreadyCreated));
    assert_eq!(store, before);
}

#[test]
fn token_queries() {
    let store = issued("alice");
    assert_eq!(query(&store, &QueryMsg::Params, None), Ok(AssetQuery::Params));
    assert_eq!(
        query(&store, &QueryMsg::Token, None),
        Ok(AssetQuery::Token { denom: "uda-core1token".to_string() })
    );
    assert_eq!(
        query(&store, &QueryMsg::Balance { account: "bob".to_string() }, None),
        Ok(AssetQuery::Balance { account: "bob".to_string(), denom: "uda-core1token".to_string() })
    );
    assert_eq!(
        query(&store, &QueryMsg::Tokens { issuer: "i".to_string() }, Some("k".to_string())),
        Ok(AssetQuery::Tokens { issuer: "i".to_string(), page_key: Some("k".to_string()) })
    );
    assert!(QueryMsg::Tokens { issuer: "i".to_string() }.is_listing());
    assert!(!QueryMsg::Token.is_listing());
}

#[test]
fn token_queries_before_creation() {
    let store = Store::new();
    assert_eq!(query(&store, &QueryMsg::Token, None), Err(ContractError::NotFound));
    assert_eq!(
        query(&store, &QueryMsg::Balance { account: "bob".to_string() }, None),
        Err(ContractError::NotFound)
    );
    assert_eq!(query(&store, &QueryMsg::Params, None), Ok(AssetQuery::Params));
}
