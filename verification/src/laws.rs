use vstd::prelude::*;

use crate::asset::{Asset, AssetInfo};
use crate::error::ContractError;
use crate::msg::{Env, MessageInfo, OrderResponse, Response};
use crate::order::{cancel_post, execute_post, submit_post};
use crate::query::spec_query_order;
use crate::state::{
    lemma_find_idx_props, spec_find_idx, spec_get_order, spec_order_matches, spec_page,
    spec_selected, OrderInfo, State,
};

verus! {

/// What one order contributes to the escrowed total of a given asset
/// identity: its offered amount when the identities agree, nothing
/// otherwise.
pub open spec fn spec_offer_contribution(o: OrderInfo, a: AssetInfo) -> int {
    if o.offer_asset.info == a {
        o.offer_asset.amount as int
    } else {
        0
    }
}

/// The total amount of one asset identity the open orders hold in escrow.
pub open spec fn spec_escrowed_offers(orders: Seq<OrderInfo>, a: AssetInfo) -> int
    decreases orders.len(),
{
    if orders.len() == 0 {
        0
    } else {
        spec_escrowed_offers(orders.drop_last(), a) + spec_offer_contribution(orders.last(), a)
    }
}

/// The total fee amount, in the configured fee token, the open orders hold
/// in escrow.
pub open spec fn spec_escrowed_fees(orders: Seq<OrderInfo>) -> int
    decreases orders.len(),
{
    if orders.len() == 0 {
        0
    } else {
        spec_escrowed_fees(orders.drop_last()) + orders.last().fee_amount
    }
}

proof fn lemma_escrowed_offers_push(s: Seq<OrderInfo>, o: OrderInfo, a: AssetInfo)
    ensures
        spec_escrowed_offers(s.push(o), a) == spec_escrowed_offers(s, a) + spec_offer_contribution(
            o,
            a,
        ),
{
    assert(s.push(o).drop_last() =~= s);
    assert(s.push(o).last() == o);
}

proof fn lemma_escrowed_fees_push(s: Seq<OrderInfo>, o: OrderInfo)
    ensures
        spec_escrowed_fees(s.push(o)) == spec_escrowed_fees(s) + o.fee_amount,
{
    assert(s.push(o).drop_last() =~= s);
    assert(s.push(o).last() == o);
}

proof fn lemma_escrowed_offers_remove(s: Seq<OrderInfo>, j: int, a: AssetInfo)
    requires
        0 <= j < s.len(),
    ensures
        spec_escrowed_offers(s.remove(j), a) == spec_escrowed_offers(s, a)
            - spec_offer_contribution(s[j], a),
    decreases s.len(),
{
    if j == s.len() - 1 {
        assert(s.remove(j) =~= s.drop_last());
    } else {
        let t = s.remove(j);
        assert(t.drop_last() =~= s.drop_last().remove(j));
        assert(t.last() == s.last());
        lemma_escrowed_offers_remove(s.drop_last(), j, a);
        assert(s.drop_last()[j] == s[j]);
    }
}

proof fn lemma_escrowed_fees_remove(s: Seq<OrderInfo>, j: int)
    requires
        0 <= j < s.len(),
    ensures
        spec_escrowed_fees(s.remove(j)) == spec_escrowed_fees(s) - s[j].fee_amount,
    decreases s.len(),
{
    if j == s.len() - 1 {
        assert(s.remove(j) =~= s.drop_last());
    } else {
        let t = s.remove(j);
        assert(t.drop_last() =~= s.drop_last().remove(j));
        assert(t.last() == s.last());
        lemma_escrowed_fees_remove(s.drop_last(), j);
        assert(s.drop_last()[j] == s[j]);
    }
}

/// The secondary index never diverges from the primary table: in every
/// well-formed state the two have the same length and agree, entry for
/// entry, on order id and owner.
pub proof fn lemma_index_mirrors_table(s: State)
    requires
        s.wf(),
    ensures
        s.orders_by_user@.len() == s.orders@.len(),
        forall|k: int|
            0 <= k < s.orders@.len() ==> (#[trigger] s.orders_by_user@[k]).order_id
                == s.orders@[k].order_id && s.orders_by_user@[k].bidder_addr
                == s.orders@[k].bidder_addr,
{
}

/// A successful submission assigns a fresh id: the counter moves up by
/// exactly one, the new record carries the new counter value and sits at
/// the end of the table, and no record the table held before ever carried
/// that id — ids are never reused, even after deletion, because every
/// stored id stays at or below the counter and the counter never moves
/// back.
pub proof fn lemma_submit_fresh_id(
    pre: State,
    post: State,
    env: Env,
    info: MessageInfo,
    offer_asset: Asset,
    ask_asset: Asset,
    fee_amount: u128,
    resolved_pool: Option<String>,
    r: Result<Response, ContractError>,
)
    requires
        pre.wf(),
        pre.last_order_id < u64::MAX,
        submit_post(pre, post, env, info, offer_asset, ask_asset, fee_amount, resolved_pool, r),
        r is Ok,
    ensures
        post.last_order_id == pre.last_order_id + 1,
        post.orders@.len() == pre.orders@.len() + 1,
        post.orders@.last().order_id == post.last_order_id,
        forall|k: int|
            0 <= k < pre.orders@.len() ==> (#[trigger] pre.orders@[k]).order_id
                < post.last_order_id,
{
}

/// Escrow accounting at submission: the escrowed total of exactly the
/// offered asset grows by the offered amount, the escrowed fee total grows
/// by the fee, and the returned pull instructions (stated in `submit_post`)
/// bring exactly those amounts into the contract's custody — an offer pull
/// for a token offer, the attached coins for a native one, and the fee
/// pull. A held balance that covered the escrow before the call therefore
/// covers it after.
pub proof fn lemma_submit_escrow(
    pre: State,
    post: State,
    env: Env,
    info: MessageInfo,
    offer_asset: Asset,
    ask_asset: Asset,
    fee_amount: u128,
    resolved_pool: Option<String>,
    r: Result<Response, ContractError>,
)
    requires
        pre.wf(),
        pre.last_order_id < u64::MAX,
        submit_post(pre, post, env, info, offer_asset, ask_asset, fee_amount, resolved_pool, r),
        r is Ok,
    ensures
        forall|a: AssetInfo|
            spec_escrowed_offers(post.orders@, a) == spec_escrowed_offers(pre.orders@, a) + (
            if offer_asset.info == a {
                offer_asset.amount as int
            } else {
                0
            }),
        spec_escrowed_fees(post.orders@) == spec_escrowed_fees(pre.orders@) + fee_amount,
{
    let order = OrderInfo {
        order_id: (pre.last_order_id + 1) as u64,
        bidder_addr: info.sender,
        pair_addr: resolved_pool->Some_0,
        offer_asset,
        ask_asset,
        fee_amount,
    };
    assert forall|a: AssetInfo|
        spec_escrowed_offers(post.orders@, a) == spec_escrowed_offers(pre.orders@, a) + (
        if offer_asset.info == a {
            offer_asset.amount as int
        } else {
            0
        }) by {
        lemma_escrowed_offers_push(pre.orders@, order, a);
    }
    lemma_escrowed_fees_push(pre.orders@, order);
}

/// Cancel is permitted to the exact owner alone: any other caller receives
/// `Unauthorized` and the state is left exactly as it was, so no asset
/// moves.
pub proof fn lemma_cancel_owner_only(
    pre: State,
    post: State,
    info: MessageInfo,
    order_id: u64,
    r: Result<Response, ContractError>,
)
    requires
        pre.wf(),
        cancel_post(pre, post, info, order_id, r),
        match spec_get_order(pre.orders@, order_id) {
            Some(order) => order.bidder_addr@ != info.sender@,
            None => false,
        },
    ensures
        r == Err::<Response, ContractError>(ContractError::Unauthorized),
        post == pre,
{
}

/// Escrow accounting at cancellation: the escrowed totals shrink by exactly
/// the removed order's offer amount and fee, and the refund instructions
/// (stated in `cancel_post`) pay exactly those amounts back to the owner.
pub proof fn lemma_cancel_escrow(
    pre: State,
    post: State,
    info: MessageInfo,
    order_id: u64,
    r: Result<Response, ContractError>,
)
    requires
        pre.wf(),
        cancel_post(pre, post, info, order_id, r),
        r is Ok,
    ensures
        spec_get_order(pre.orders@, order_id) is Some,
        forall|a: AssetInfo|
            spec_escrowed_offers(post.orders@, a) == spec_escrowed_offers(pre.orders@, a)
                - spec_offer_contribution(spec_get_order(pre.orders@, order_id)->Some_0, a),
        spec_escrowed_fees(post.orders@) == spec_escrowed_fees(pre.orders@) - spec_get_order(
            pre.orders@,
            order_id,
        )->Some_0.fee_amount,
{
    let j = spec_find_idx(pre.orders@, order_id);
    lemma_find_idx_props(pre.orders@, order_id);
    let order = spec_get_order(pre.orders@, order_id)->Some_0;
    assert forall|a: AssetInfo|
        spec_escrowed_offers(post.orders@, a) == spec_escrowed_offers(pre.orders@, a)
            - spec_offer_contribution(order, a) by {
        lemma_escrowed_offers_remove(pre.orders@, j, a);
    }
    lemma_escrowed_fees_remove(pre.orders@, j);
}

/// The settlement floor: whenever the venue's simulated return falls
/// strictly below the order's minimum ask amount, the call fails with
/// `InsufficientReturn`, no instruction is emitted, and the order remains
/// open, untouched.
pub proof fn lemma_execute_floor(
    pre: State,
    post: State,
    info: MessageInfo,
    order_id: u64,
    sim: u128,
    r: Result<Response, ContractError>,
)
    requires
        pre.wf(),
        execute_post(pre, post, info, order_id, Some(sim), r),
        match spec_get_order(pre.orders@, order_id) {
            Some(order) => sim < order.ask_asset.amount,
            None => false,
        },
    ensures
        r == Err::<Response, ContractError>(ContractError::InsufficientReturn),
        post == pre,
        spec_get_order(post.orders@, order_id) == spec_get_order(pre.orders@, order_id),
{
}

/// Escrow accounting at settlement: the escrowed totals shrink by exactly
/// the settled order's offer amount and fee. The instructions stated in
/// `execute_post` move the whole escrowed offer into the swap and the fee
/// to the executor, and pay the owner and the executor out of the swap's
/// own return (the ask amount plus the excess equals the simulated return),
/// not out of any other order's escrow.
pub proof fn lemma_execute_escrow(
    pre: State,
    post: State,
    info: MessageInfo,
    order_id: u64,
    simulated_return: Option<u128>,
    r: Result<Response, ContractError>,
)
    requires
        pre.wf(),
        execute_post(pre, post, info, order_id, simulated_return, r),
        r is Ok,
    ensures
        spec_get_order(pre.orders@, order_id) is Some,
        forall|a: AssetInfo|
            spec_escrowed_offers(post.orders@, a) == spec_escrowed_offers(pre.orders@, a)
                - spec_offer_contribution(spec_get_order(pre.orders@, order_id)->Some_0, a),
        spec_escrowed_fees(post.orders@) == spec_escrowed_fees(pre.orders@) - spec_get_order(
            pre.orders@,
            order_id,
        )->Some_0.fee_amount,
{
    let j = spec_find_idx(pre.orders@, order_id);
    lemma_find_idx_props(pre.orders@, order_id);
    let order = spec_get_order(pre.orders@, order_id)->Some_0;
    assert forall|a: AssetInfo|
        spec_escrowed_offers(post.orders@, a) == spec_escrowed_offers(pre.orders@, a)
            - spec_offer_contribution(order, a) by {
        lemma_escrowed_offers_remove(pre.orders@, j, a);
    }
    lemma_escrowed_fees_remove(pre.orders@, j);
}

/// Round-trip: after a successful submission, looking the new id up returns
/// a response whose fields are exactly the submitted offer, ask and fee,
/// the sender as owner, and the pool the venue resolved.
pub proof fn lemma_submit_round_trip(
    pre: State,
    post: State,
    env: Env,
    info: MessageInfo,
    offer_asset: Asset,
    ask_asset: Asset,
    fee_amount: u128,
    resolved_pool: Option<String>,
    r: Result<Response, ContractError>,
)
    requires
        pre.wf(),
        pre.last_order_id < u64::MAX,
        submit_post(pre, post, env, info, offer_asset, ask_asset, fee_amount, resolved_pool, r),
        r is Ok,
    ensures
        resolved_pool matches Some(pool) && spec_query_order(post, post.last_order_id)
            == Ok::<OrderResponse, ContractError>(
            OrderResponse {
                order_id: post.last_order_id,
                bidder_addr: info.sender,
                pair_addr: pool,
                offer_asset,
                ask_asset,
                fee_amount,
            },
        ),
{
    let new_id = (pre.last_order_id + 1) as u64;
    lemma_find_idx_props(post.orders@, new_id);
    let idx = spec_find_idx(post.orders@, new_id);
    let n = post.orders@.len();
    assert(n == pre.orders@.len() + 1);
    assert(post.orders@[n - 1].order_id == new_id);
    if idx < n - 1 {
        assert(post.orders@[idx] == pre.orders@[idx]);
        assert(pre.orders@[idx].order_id <= pre.last_order_id);
        assert(false);
    }
    assert(idx == n - 1);
}

/// A page never exceeds the requested size.
pub proof fn lemma_page_limit(
    orders: Seq<OrderInfo>,
    owner: Option<Seq<char>>,
    start_after: Option<u64>,
    asc: bool,
    limit: int,
)
    requires
        limit >= 0,
    ensures
        spec_page(orders, owner, start_after, asc, limit).len() <= limit,
{
}

/// The cursor is exclusive and directional: an ascending page lists only
/// ids strictly greater than the cursor, a descending page only ids
/// strictly less than it.
pub proof fn lemma_page_cursor(
    orders: Seq<OrderInfo>,
    owner: Option<Seq<char>>,
    n: u64,
    asc: bool,
    limit: int,
)
    requires
        limit >= 0,
    ensures
        forall|k: int|
            0 <= k < spec_page(orders, owner, Some(n), asc, limit).len() ==> (if asc {
                (#[trigger] spec_page(orders, owner, Some(n), asc, limit)[k]).order_id > n
            } else {
                spec_page(orders, owner, Some(n), asc, limit)[k].order_id < n
            }),
{
    lemma_selected_props(orders, owner, Some(n), asc);
    let sel = spec_selected(orders, owner, Some(n), asc);
    let page = spec_page(orders, owner, Some(n), asc, limit);
    assert forall|k: int| 0 <= k < page.len() implies (if asc {
        (#[trigger] page[k]).order_id > n
    } else {
        page[k].order_id < n
    }) by {
        if asc {
            assert(page[k] == sel[k]);
            assert(spec_order_matches(sel[k], owner, Some(n), asc));
        } else {
            assert(page[k] == sel.reverse()[k]);
            assert(sel.reverse()[k] == sel[sel.len() - 1 - k]);
            assert(spec_order_matches(sel[sel.len() - 1 - k], owner, Some(n), asc));
        }
    }
}

proof fn lemma_selected_props(
    orders: Seq<OrderInfo>,
    owner: Option<Seq<char>>,
    start_after: Option<u64>,
    asc: bool,
)
    ensures
        spec_selected(orders, owner, start_after, asc).len() <= orders.len(),
        forall|k: int|
            0 <= k < spec_selected(orders, owner, start_after, asc).len()
                ==> spec_order_matches(
                #[trigger] spec_selected(orders, owner, start_after, asc)[k],
                owner,
                start_after,
                asc,
            ),
    decreases orders.len(),
{
    reveal_with_fuel(Seq::<_>::filter, 2);
    if orders.len() > 0 {
        let sub = orders.drop_last();
        lemma_selected_props(sub, owner, start_after, asc);
        let sel = spec_selected(orders, owner, start_after, asc);
        let subsel = spec_selected(sub, owner, start_after, asc);
        if spec_order_matches(orders.last(), owner, start_after, asc) {
            assert(sel == subsel.push(orders.last()));
            assert forall|k: int| 0 <= k < sel.len() implies spec_order_matches(
                sel[k],
                owner,
                start_after,
                asc,
            ) by {
                if k < subsel.len() {
                    assert(sel[k] == subsel[k]);
                }
            }
        } else {
            assert(sel == subsel);
        }
    }
}

proof fn lemma_selected_membership(
    orders: Seq<OrderInfo>,
    owner: Option<Seq<char>>,
    start_after: Option<u64>,
    asc: bool,
)
    ensures
        forall|x: OrderInfo|
            #[trigger] spec_selected(orders, owner, start_after, asc).contains(x)
                ==> orders.contains(x),
    decreases orders.len(),
{
    reveal_with_fuel(Seq::<_>::filter, 2);
    if orders.len() > 0 {
        let sub = orders.drop_last();
        lemma_selected_membership(sub, owner, start_after, asc);
        let sel = spec_selected(orders, owner, start_after, asc);
        let subsel = spec_selected(sub, owner, start_after, asc);
        assert forall|x: OrderInfo| sel.contains(x) implies orders.contains(x) by {
            let i = choose|i: int| 0 <= i < sel.len() && sel[i] == x;
            if spec_order_matches(orders.last(), owner, start_after, asc) && i == sel.len()
                - 1 {
                assert(orders[orders.len() - 1] == x);
            } else {
                assert(subsel[i] == x);
                assert(subsel.contains(x));
                let m = choose|m: int| 0 <= m < sub.len() && sub[m] == x;
                assert(orders[m] == x);
            }
        }
    }
}

proof fn lemma_selected_complete(
    orders: Seq<OrderInfo>,
    owner: Option<Seq<char>>,
    start_after: Option<u64>,
    asc: bool,
)
    ensures
        forall|m: int|
            0 <= m < orders.len() && spec_order_matches(
                #[trigger] orders[m],
                owner,
                start_after,
                asc,
            ) ==> spec_selected(orders, owner, start_after, asc).contains(orders[m]),
    decreases orders.len(),
{
    reveal_with_fuel(Seq::<_>::filter, 2);
    if orders.len() > 0 {
        let sub = orders.drop_last();
        lemma_selected_complete(sub, owner, start_after, asc);
        let sel = spec_selected(orders, owner, start_after, asc);
        let subsel = spec_selected(sub, owner, start_after, asc);
        assert forall|m: int|
            0 <= m < orders.len() && spec_order_matches(
                orders[m],
                owner,
                start_after,
                asc,
            ) implies sel.contains(orders[m]) by {
            if m == orders.len() - 1 {
                assert(sel == subsel.push(orders.last()));
                assert(sel[sel.len() - 1] == orders[m]);
            } else {
                assert(sub[m] == orders[m]);
                assert(subsel.contains(sub[m]));
                let i = choose|i: int| 0 <= i < subsel.len() && subsel[i] == sub[m];
                assert(sel[i] == orders[m]);
            }
        }
    }
}

/// An owner-scoped page holds only that owner's orders, each of them open
/// in the table and each of them part of the global selection for the same
/// cursor and direction — owner scoping selects a subset, never fresh
/// records.
pub proof fn lemma_page_owner_scoped(
    orders: Seq<OrderInfo>,
    u: Seq<char>,
    start_after: Option<u64>,
    asc: bool,
    limit: int,
)
    requires
        limit >= 0,
    ensures
        forall|k: int|
            0 <= k < spec_page(orders, Some(u), start_after, asc, limit).len() ==> {
                let x = #[trigger] spec_page(orders, Some(u), start_after, asc, limit)[k];
                x.bidder_addr@ == u && orders.contains(x) && spec_selected(
                    orders,
                    None,
                    start_after,
                    asc,
                ).contains(x)
            },
{
    let sel = spec_selected(orders, Some(u), start_after, asc);
    let page = spec_page(orders, Some(u), start_after, asc, limit);
    lemma_selected_props(orders, Some(u), start_after, asc);
    lemma_selected_membership(orders, Some(u), start_after, asc);
    lemma_selected_complete(orders, None, start_after, asc);
    assert forall|k: int| 0 <= k < page.len() implies {
        let x = #[trigger] page[k];
        x.bidder_addr@ == u && orders.contains(x) && spec_selected(
            orders,
            None,
            start_after,
            asc,
        ).contains(x)
    } by {
        let x = page[k];
        if asc {
            assert(x == sel[k]);
        } else {
            assert(x == sel.reverse()[k]);
            assert(sel.reverse()[k] == sel[sel.len() - 1 - k]);
        }
        assert(sel.contains(x));
        assert(orders.contains(x));
        assert(spec_order_matches(x, Some(u), start_after, asc));
        let m = choose|m: int| 0 <= m < orders.len() && orders[m] == x;
        assert(spec_order_matches(orders[m], None, start_after, asc));
        assert(spec_selected(orders, None, start_after, asc).contains(orders[m]));
    }
}

} // verus!
