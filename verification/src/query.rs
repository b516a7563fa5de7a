use vstd::prelude::*;

use crate::error::ContractError;
use crate::msg::{ConfigResponse, LastOrderIdResponse, OrderBy, OrderResponse, OrdersResponse};
use crate::state::{
    find_order_idx, lemma_find_idx_props, read_orders, read_orders_by_user, spec_clamped_limit,
    spec_get_order, spec_page, OrderInfo, State,
};

verus! {

/// What a single-order lookup returns: the stored record projected into its
/// response, or `NotFound` when no open order carries the id.
pub open spec fn spec_query_order(state: State, order_id: u64) -> Result<
    OrderResponse,
    ContractError,
> {
    match spec_get_order(state.orders@, order_id) {
        Some(order) => Ok(order.spec_res()),
        None => Err(ContractError::NotFound),
    }
}

/// The projection of one listing page into its response records.
pub open spec fn spec_orders_responses(page: Seq<OrderInfo>) -> Seq<OrderResponse> {
    page.map_values(|o: OrderInfo| o.spec_res())
}

/// The owner filter of a listing request, as a sequence of characters.
pub open spec fn spec_owner_opt(owner: Option<String>) -> Option<Seq<char>> {
    match owner {
        Some(u) => Some(u@),
        None => None,
    }
}

/// Serves the configuration singleton.
pub fn query_config(state: &State) -> (r: ConfigResponse)
    ensures
        r == state.config.spec_res(),
{
    state.config.as_res()
}

/// Serves one order by id, or `NotFound` when it was never created or is no
/// longer open.
pub fn query_order(state: &State, order_id: u64) -> (r: Result<OrderResponse, ContractError>)
    ensures
        r == spec_query_order(*state, order_id),
{
    match find_order_idx(&state.orders, order_id) {
        Some(j) => {
            proof {
                lemma_find_idx_props(state.orders@, order_id);
            }
            Ok(state.orders[j].as_res())
        },
        None => Err(ContractError::NotFound),
    }
}

/// Serves one page of the listing, owner-scoped when `bidder_addr` is
/// given, global otherwise, under the pagination contract of the storage
/// layer.
pub fn query_orders(
    state: &State,
    bidder_addr: Option<String>,
    start_after: Option<u64>,
    limit: Option<u32>,
    order_by: Option<OrderBy>,
) -> (r: OrdersResponse)
    requires
        state.wf(),
    ensures
        r.orders@ == spec_orders_responses(
            spec_page(
                state.orders@,
                spec_owner_opt(bidder_addr),
                start_after,
                order_by == Some(OrderBy::Asc),
                spec_clamped_limit(limit),
            ),
        ),
{
    let page = match &bidder_addr {
        Some(user) => read_orders_by_user(state, user, start_after, limit, order_by),
        None => read_orders(state, start_after, limit, order_by),
    };
    let n = page.len();
    let mut orders: Vec<OrderResponse> = Vec::new();
    let mut i: usize = 0;
    while i < n
        invariant
            n == page@.len(),
            0 <= i <= n,
            orders@ == spec_orders_responses(page@.subrange(0, i as int)),
        decreases n - i,
    {
        orders.push(page[i].as_res());
        proof {
            assert(spec_orders_responses(page@.subrange(0, (i + 1) as int)) =~=
                spec_orders_responses(page@.subrange(0, i as int)).push(page@[i as int].spec_res()));
        }
        i += 1;
    }
    proof {
        assert(page@.subrange(0, n as int) =~= page@);
    }
    OrdersResponse { orders }
}

/// Serves the id the counter last assigned.
pub fn query_last_order_id(state: &State) -> (r: LastOrderIdResponse)
    ensures
        r == (LastOrderIdResponse { last_order_id: state.last_order_id }),
{
    LastOrderIdResponse { last_order_id: state.last_order_id }
}

} // verus!
