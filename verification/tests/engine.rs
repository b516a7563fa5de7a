use limit_order::asset::{Asset, AssetInfo, Coin, Instruction};
use limit_order::contract::{execute, instantiate, query, QueryAnswer};
use limit_order::error::ContractError;
use limit_order::msg::{Env, Event, ExecuteMsg, InstantiateMsg, MessageInfo, QueryMsg};
use limit_order::order::{cancel_order, execute_order, submit_order};
use limit_order::state::State;

fn native(denom: &str, amount: u128) -> Asset {
    Asset {
        info: AssetInfo::Native { denom: denom.to_string() },
        amount,
    }
}

fn token(addr: &str, amount: u128) -> Asset {
    Asset {
        info: AssetInfo::Token { contract_addr: addr.to_string() },
        amount,
    }
}

fn coin(denom: &str, amount: u128) -> Coin {
    Coin { denom: denom.to_string(), amount }
}

fn engine_env() -> Env {
    Env { contract_address: "engine".to_string() }
}

fn caller(sender: &str, funds: Vec<Coin>) -> MessageInfo {
    MessageInfo { sender: sender.to_string(), funds }
}

fn fresh_state() -> State {
    instantiate(
        InstantiateMsg {
            fee_token: "FEE".to_string(),
            min_fee_amount: 100,
            exchange_registry: "R".to_string(),
        },
        true,
        true,
    )
    .unwrap()
}

#[test]
fn instantiate_commits_config_and_zero_counter() {
    let state = fresh_state();
    assert_eq!(state.config.fee_token, "FEE");
    assert_eq!(state.config.min_fee_amount, 100);
    assert_eq!(state.config.exchange_registry, "R");
    assert_eq!(state.last_order_id, 0);
    assert_eq!(state.orders.len(), 0);
    assert_eq!(state.orders_by_user.len(), 0);
    match query(&state, QueryMsg::LastOrderId {}).unwrap() {
        QueryAnswer::LastOrderId(r) => assert_eq!(r.last_order_id, 0),
        _ => panic!("wrong answer variant"),
    }
}

#[test]
fn instantiate_rejects_unresolved_identity() {
    let msg = InstantiateMsg {
        fee_token: "FEE".to_string(),
        min_fee_amount: 100,
        exchange_registry: "R".to_string(),
    };
    let msg2 = InstantiateMsg {
        fee_token: "FEE".to_string(),
        min_fee_amount: 100,
        exchange_registry: "R".to_string(),
    };
    assert_eq!(instantiate(msg, false, true).unwrap_err(), ContractError::InvalidAddress);
    assert_eq!(instantiate(msg2, true, false).unwrap_err(), ContractError::InvalidAddress);
}

#[test]
fn submit_native_offer_emits_fee_pull_and_assigns_id_one() {
    let mut state = fresh_state();
    let info = caller("alice", vec![coin("uusd", 500)]);
    let resp = execute(
        &mut state,
        &engine_env(),
        &info,
        ExecuteMsg::SubmitOrder {
            offer_asset: native("uusd", 500),
            ask_asset: token("FEE", 480),
            fee_amount: 100,
        },
        Some("pool1".to_string()),
        None,
    )
    .unwrap();
    assert_eq!(
        resp.messages,
        vec![Instruction::PullToken {
            token: "FEE".to_string(),
            owner: "alice".to_string(),
            recipient: "engine".to_string(),
            amount: 100,
        }]
    );
    assert_eq!(
        resp.event,
        Some(Event::Submit {
            order_id: 1,
            bidder_addr: "alice".to_string(),
            offer_asset: native("uusd", 500),
            ask_asset: token("FEE", 480),
        })
    );
    assert_eq!(state.last_order_id, 1);
    assert_eq!(state.orders.len(), 1);
    assert_eq!(state.orders_by_user.len(), 1);
}

#[test]
fn submit_token_offer_pulls_offer_and_fee() {
    let mut state = fresh_state();
    let info = caller("alice", vec![]);
    let resp = submit_order(
        &mut state,
        &engine_env(),
        &info,
        token("mir", 250),
        native("uusd", 300),
        120,
        Some("pool2".to_string()),
    )
    .unwrap();
    assert_eq!(
        resp.messages,
        vec![
            Instruction::PullToken {
                token: "mir".to_string(),
                owner: "alice".to_string(),
                recipient: "engine".to_string(),
                amount: 250,
            },
            Instruction::PullToken {
                token: "FEE".to_string(),
                owner: "alice".to_string(),
                recipient: "engine".to_string(),
                amount: 120,
            },
        ]
    );
}

#[test]
fn submit_rejects_fee_below_minimum() {
    let mut state = fresh_state();
    let info = caller("alice", vec![coin("uusd", 500)]);
    let err = submit_order(
        &mut state,
        &engine_env(),
        &info,
        native("uusd", 500),
        token("FEE", 480),
        99,
        Some("pool1".to_string()),
    )
    .unwrap_err();
    assert_eq!(err, ContractError::InvalidFee);
    assert_eq!(state.last_order_id, 0);
    assert_eq!(state.orders.len(), 0);
}

#[test]
fn submit_rejects_pair_without_market() {
    let mut state = fresh_state();
    let info = caller("alice", vec![coin("uusd", 500)]);
    let err = submit_order(
        &mut state,
        &engine_env(),
        &info,
        native("uusd", 500),
        token("FEE", 480),
        100,
        None,
    )
    .unwrap_err();
    assert_eq!(err, ContractError::NoMarket);
    assert_eq!(state.orders.len(), 0);
}

#[test]
fn submit_rejects_mismatched_native_attachment() {
    let mut state = fresh_state();
    let short = caller("alice", vec![coin("uusd", 400)]);
    let err = submit_order(
        &mut state,
        &engine_env(),
        &short,
        native("uusd", 500),
        token("FEE", 480),
        100,
        Some("pool1".to_string()),
    )
    .unwrap_err();
    assert_eq!(err, ContractError::PaymentMismatch);
    let none = caller("alice", vec![]);
    let err = submit_order(
        &mut state,
        &engine_env(),
        &none,
        native("uusd", 500),
        token("FEE", 480),
        100,
        Some("pool1".to_string()),
    )
    .unwrap_err();
    assert_eq!(err, ContractError::PaymentMismatch);
    assert_eq!(state.orders.len(), 0);
}

#[test]
fn submit_accepts_zero_native_offer_without_attachment() {
    let mut state = fresh_state();
    let info = caller("alice", vec![]);
    let resp = submit_order(
        &mut state,
        &engine_env(),
        &info,
        native("uusd", 0),
        token("FEE", 1),
        100,
        Some("pool1".to_string()),
    );
    assert!(resp.is_ok());
    assert_eq!(state.last_order_id, 1);
}

#[test]
fn cancel_refunds_escrow_and_removes_order() {
    let mut state = fresh_state();
    let info = caller("alice", vec![coin("uusd", 500)]);
    submit_order(
        &mut state,
        &engine_env(),
        &info,
        native("uusd", 500),
        token("FEE", 480),
        100,
        Some("pool1".to_string()),
    )
    .unwrap();
    let resp = cancel_order(&mut state, &caller("alice", vec![]), 1).unwrap();
    assert_eq!(
        resp.messages,
        vec![
            Instruction::TransferNative {
                recipient: "alice".to_string(),
                denom: "uusd".to_string(),
                amount: 500,
            },
            Instruction::TransferToken {
                token: "FEE".to_string(),
                recipient: "alice".to_string(),
                amount: 100,
            },
        ]
    );
    assert_eq!(
        resp.event,
        Some(Event::Cancel {
            order_id: 1,
            refunded_asset: native("uusd", 500),
            refunded_fee: token("FEE", 100),
        })
    );
    assert_eq!(state.orders.len(), 0);
    assert_eq!(state.orders_by_user.len(), 0);
    assert_eq!(state.last_order_id, 1);
    assert_eq!(
        query(&state, QueryMsg::Order { order_id: 1 }).unwrap_err(),
        ContractError::NotFound
    );
}

#[test]
fn cancel_rejects_any_caller_but_the_owner() {
    let mut state = fresh_state();
    let info = caller("alice", vec![coin("uusd", 500)]);
    submit_order(
        &mut state,
        &engine_env(),
        &info,
        native("uusd", 500),
        token("FEE", 480),
        100,
        Some("pool1".to_string()),
    )
    .unwrap();
    let err = cancel_order(&mut state, &caller("bob", vec![]), 1).unwrap_err();
    assert_eq!(err, ContractError::Unauthorized);
    assert_eq!(state.orders.len(), 1);
    assert!(query(&state, QueryMsg::Order { order_id: 1 }).is_ok());
}

#[test]
fn cancel_unknown_order_is_not_found() {
    let mut state = fresh_state();
    let err = cancel_order(&mut state, &caller("alice", vec![]), 7).unwrap_err();
    assert_eq!(err, ContractError::NotFound);
}

#[test]
fn execute_pays_owner_excess_and_fee() {
    let mut state = fresh_state();
    let info = caller("alice", vec![coin("uusd", 500)]);
    submit_order(
        &mut state,
        &engine_env(),
        &info,
        native("uusd", 500),
        token("FEE", 450),
        100,
        Some("pool1".to_string()),
    )
    .unwrap();
    let info2 = caller("alice", vec![coin("uusd", 600)]);
    submit_order(
        &mut state,
        &engine_env(),
        &info2,
        native("uusd", 600),
        token("FEE", 480),
        100,
        Some("pool2".to_string()),
    )
    .unwrap();
    let resp = execute_order(&mut state, &caller("bob", vec![]), 2, Some(490)).unwrap();
    assert_eq!(
        resp.messages,
        vec![
            Instruction::Swap { pool: "pool2".to_string(), offer: native("uusd", 600) },
            Instruction::TransferToken {
                token: "FEE".to_string(),
                recipient: "alice".to_string(),
                amount: 480,
            },
            Instruction::TransferToken {
                token: "FEE".to_string(),
                recipient: "bob".to_string(),
                amount: 10,
            },
            Instruction::TransferToken {
                token: "FEE".to_string(),
                recipient: "bob".to_string(),
                amount: 100,
            },
        ]
    );
    assert_eq!(
        resp.event,
        Some(Event::Execute { order_id: 2, fee_amount: 100, excess_amount: 10 })
    );
    assert_eq!(
        query(&state, QueryMsg::Order { order_id: 2 }).unwrap_err(),
        ContractError::NotFound
    );
    assert!(query(&state, QueryMsg::Order { order_id: 1 }).is_ok());
}

#[test]
fn execute_without_excess_pays_owner_and_fee_only() {
    let mut state = fresh_state();
    let info = caller("alice", vec![coin("uusd", 500)]);
    submit_order(
        &mut state,
        &engine_env(),
        &info,
        native("uusd", 500),
        token("FEE", 480),
        100,
        Some("pool1".to_string()),
    )
    .unwrap();
    let resp = execute_order(&mut state, &caller("bob", vec![]), 1, Some(480)).unwrap();
    assert_eq!(resp.messages.len(), 3);
    assert_eq!(
        resp.event,
        Some(Event::Execute { order_id: 1, fee_amount: 100, excess_amount: 0 })
    );
}

#[test]
fn execute_rejects_insufficient_simulated_return() {
    let mut state = fresh_state();
    let info = caller("alice", vec![coin("uusd", 500)]);
    submit_order(
        &mut state,
        &engine_env(),
        &info,
        native("uusd", 500),
        token("FEE", 480),
        100,
        Some("pool1".to_string()),
    )
    .unwrap();
    let err = execute_order(&mut state, &caller("bob", vec![]), 1, Some(479)).unwrap_err();
    assert_eq!(err, ContractError::InsufficientReturn);
    assert_eq!(state.orders.len(), 1);
    assert!(query(&state, QueryMsg::Order { order_id: 1 }).is_ok());
}

#[test]
fn execute_rejects_unavailable_venue() {
    let mut state = fresh_state();
    let info = caller("alice", vec![coin("uusd", 500)]);
    submit_order(
        &mut state,
        &engine_env(),
        &info,
        native("uusd", 500),
        token("FEE", 480),
        100,
        Some("pool1".to_string()),
    )
    .unwrap();
    let err = execute_order(&mut state, &caller("bob", vec![]), 1, None).unwrap_err();
    assert_eq!(err, ContractError::VenueUnavailable);
    assert_eq!(state.orders.len(), 1);
}

#[test]
fn execute_unknown_order_is_not_found() {
    let mut state = fresh_state();
    let err = execute_order(&mut state, &caller("bob", vec![]), 3, Some(1000)).unwrap_err();
    assert_eq!(err, ContractError::NotFound);
}

#[test]
fn submit_then_query_round_trip() {
    let mut state = fresh_state();
    let info = caller("alice", vec![coin("uusd", 500)]);
    submit_order(
        &mut state,
        &engine_env(),
        &info,
        native("uusd", 500),
        token("FEE", 480),
        100,
        Some("pool1".to_string()),
    )
    .unwrap();
    match query(&state, QueryMsg::Order { order_id: 1 }).unwrap() {
        QueryAnswer::Order(o) => {
            assert_eq!(o.order_id, 1);
            assert_eq!(o.bidder_addr, "alice");
            assert_eq!(o.pair_addr, "pool1");
            assert_eq!(o.offer_asset, native("uusd", 500));
            assert_eq!(o.ask_asset, token("FEE", 480));
            assert_eq!(o.fee_amount, 100);
        },
        _ => panic!("wrong answer variant"),
    }
}

#[test]
fn ids_are_never_reused_after_deletion() {
    let mut state = fresh_state();
    for _ in 0..2 {
        let info = caller("alice", vec![coin("uusd", 500)]);
        submit_order(
            &mut state,
            &engine_env(),
            &info,
            native("uusd", 500),
            token("FEE", 480),
            100,
            Some("pool1".to_string()),
        )
        .unwrap();
    }
    cancel_order(&mut state, &caller("alice", vec![]), 2).unwrap();
    assert_eq!(state.last_order_id, 2);
    let info = caller("alice", vec![coin("uusd", 500)]);
    let resp = submit_order(
        &mut state,
        &engine_env(),
        &info,
        native("uusd", 500),
        token("FEE", 480),
        100,
        Some("pool1".to_string()),
    )
    .unwrap();
    assert_eq!(
        resp.event,
        Some(Event::Submit {
            order_id: 3,
            bidder_addr: "alice".to_string(),
            offer_asset: native("uusd", 500),
            ask_asset: token("FEE", 480),
        })
    );
    assert_eq!(state.last_order_id, 3);
}
