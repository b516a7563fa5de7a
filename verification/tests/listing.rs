use limit_order::asset::{Asset, AssetInfo, Coin};
use limit_order::contract::instantiate;
use limit_order::msg::{Env, InstantiateMsg, MessageInfo, OrderBy};
use limit_order::order::submit_order;
use limit_order::query::{query_config, query_last_order_id, query_orders};
use limit_order::state::{calc_range_end, calc_range_start, read_orders, read_orders_by_user, State};

fn listing_state(count: u64) -> State {
    let mut state = instantiate(
        InstantiateMsg {
            fee_token: "FEE".to_string(),
            min_fee_amount: 100,
            exchange_registry: "R".to_string(),
        },
        true,
        true,
    )
    .unwrap();
    for i in 0..count {
        let sender = if i % 2 == 0 { "alice" } else { "bob" };
        let info = MessageInfo {
            sender: sender.to_string(),
            funds: vec![Coin { denom: "uusd".to_string(), amount: 500 + i as u128 }],
        };
        submit_order(
            &mut state,
            &Env { contract_address: "engine".to_string() },
            &info,
            Asset {
                info: AssetInfo::Native { denom: "uusd".to_string() },
                amount: 500 + i as u128,
            },
            Asset {
                info: AssetInfo::Token { contract_addr: "FEE".to_string() },
                amount: 480,
            },
            100,
            Some("pool".to_string()),
        )
        .unwrap();
    }
    state
}

fn ids(orders: &[limit_order::state::OrderInfo]) -> Vec<u64> {
    orders.iter().map(|o| o.order_id).collect()
}

#[test]
fn default_listing_is_descending_with_default_limit() {
    let state = listing_state(12);
    let page = read_orders(&state, None, None, None);
    assert_eq!(ids(&page), vec![12, 11, 10, 9, 8, 7, 6, 5, 4, 3]);
}

#[test]
fn ascending_cursor_is_exclusive_and_lists_only_greater_ids() {
    let state = listing_state(12);
    let page = read_orders(&state, Some(5), None, Some(OrderBy::Asc));
    assert_eq!(ids(&page), vec![6, 7, 8, 9, 10, 11, 12]);
}

#[test]
fn descending_cursor_is_exclusive_and_lists_only_smaller_ids() {
    let state = listing_state(12);
    let page = read_orders(&state, Some(5), None, Some(OrderBy::Desc));
    assert_eq!(ids(&page), vec![4, 3, 2, 1]);
}

#[test]
fn listing_respects_requested_limit() {
    let state = listing_state(12);
    let page = read_orders(&state, None, Some(10), Some(OrderBy::Asc));
    assert_eq!(ids(&page), vec![1, 2, 3, 4, 5, 6, 7, 8, 9, 10]);
}

#[test]
fn limit_is_clamped_to_the_maximum() {
    let state = listing_state(35);
    let page = read_orders(&state, None, Some(50), Some(OrderBy::Asc));
    assert_eq!(page.len(), 30);
    assert_eq!(page[0].order_id, 1);
    assert_eq!(page[29].order_id, 30);
}

#[test]
fn owner_scoped_listing_is_a_subset_with_that_owner_only() {
    let state = listing_state(12);
    let alice = "alice".to_string();
    let scoped = read_orders_by_user(&state, &alice, None, Some(30), Some(OrderBy::Asc));
    assert_eq!(ids(&scoped), vec![1, 3, 5, 7, 9, 11]);
    let global = read_orders(&state, None, Some(30), Some(OrderBy::Asc));
    for order in &scoped {
        assert_eq!(order.bidder_addr, "alice");
        assert!(global.iter().any(|g| g.order_id == order.order_id));
    }
}

#[test]
fn owner_scoped_listing_honours_cursor_and_direction() {
    let state = listing_state(12);
    let alice = "alice".to_string();
    let asc = read_orders_by_user(&state, &alice, Some(5), Some(30), Some(OrderBy::Asc));
    assert_eq!(ids(&asc), vec![7, 9, 11]);
    let desc = read_orders_by_user(&state, &alice, Some(5), Some(30), Some(OrderBy::Desc));
    assert_eq!(ids(&desc), vec![3, 1]);
}

#[test]
fn query_orders_projects_every_stored_field() {
    let state = listing_state(3);
    let resp = query_orders(&state, None, None, None, Some(OrderBy::Asc));
    assert_eq!(resp.orders.len(), 3);
    assert_eq!(resp.orders[0].order_id, 1);
    assert_eq!(resp.orders[0].bidder_addr, "alice");
    assert_eq!(resp.orders[0].pair_addr, "pool");
    assert_eq!(resp.orders[0].offer_asset.amount, 500);
    assert_eq!(resp.orders[0].fee_amount, 100);
    assert_eq!(resp.orders[1].bidder_addr, "bob");
}

#[test]
fn query_orders_scoped_to_unknown_owner_is_empty() {
    let state = listing_state(4);
    let resp = query_orders(&state, Some("carol".to_string()), None, None, None);
    assert_eq!(resp.orders.len(), 0);
}

#[test]
fn config_and_counter_queries_project_the_singletons() {
    let state = listing_state(2);
    let config = query_config(&state);
    assert_eq!(config.fee_token, "FEE");
    assert_eq!(config.min_fee_amount, 100);
    assert_eq!(config.exchange_registry, "R");
    assert_eq!(query_last_order_id(&state).last_order_id, 2);
}

#[test]
fn range_keys_wrap_the_cursor_in_big_endian_form() {
    assert_eq!(calc_range_start(None), None);
    assert_eq!(calc_range_end(None), None);
    assert_eq!(calc_range_start(Some(258)), Some(vec![0, 0, 0, 0, 0, 0, 1, 2, 1]));
    assert_eq!(calc_range_end(Some(258)), Some(vec![0, 0, 0, 0, 0, 0, 1, 2]));
    assert_eq!(
        calc_range_end(Some(u64::MAX)),
        Some(vec![255, 255, 255, 255, 255, 255, 255, 255])
    );
}
