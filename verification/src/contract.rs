use vstd::prelude::*;

use crate::error::ContractError;
use crate::msg::{
    Env, ExecuteMsg, InstantiateMsg, LastOrderIdResponse, MessageInfo, OrderBy, QueryMsg, Response,
};
use crate::msg::{ConfigResponse, OrderResponse, OrdersResponse};
use crate::order::{cancel_order, cancel_post, execute_order, execute_post, submit_order, submit_post};
use crate::query::{
    query_config, query_last_order_id, query_order, query_orders, spec_orders_responses,
    spec_owner_opt, spec_query_order,
};
use crate::state::{spec_clamped_limit, spec_page, Config, State};

verus! {

/// The structured answer a query returns, one variant per question.
#[derive(Debug, PartialEq, Eq)]
pub enum QueryAnswer {
    Config(ConfigResponse),
    Order(OrderResponse),
    Orders(OrdersResponse),
    LastOrderId(LastOrderIdResponse),
}

/// What initialization does: with both identities resolved by the host it
/// commits the configuration as submitted and a counter at zero over an
/// empty table, and otherwise it fails with `InvalidAddress` and creates
/// nothing.
pub open spec fn instantiate_post(
    msg: InstantiateMsg,
    fee_token_resolved: bool,
    registry_resolved: bool,
    r: Result<State, ContractError>,
) -> bool {
    if fee_token_resolved && registry_resolved {
        r matches Ok(s) && s.wf() && s.config == (Config {
            fee_token: msg.fee_token,
            min_fee_amount: msg.min_fee_amount,
            exchange_registry: msg.exchange_registry,
        }) && s.last_order_id == 0 && s.orders@.len() == 0 && s.orders_by_user@.len() == 0
    } else {
        r == Err::<State, ContractError>(ContractError::InvalidAddress)
    }
}

/// Bootstraps the engine's state. The host resolves the two identities the
/// message names; `fee_token_resolved` and `registry_resolved` carry its
/// verdicts, and either identity failing to resolve fails the call.
pub fn instantiate(
    msg: InstantiateMsg,
    fee_token_resolved: bool,
    registry_resolved: bool,
) -> (r: Result<State, ContractError>)
    ensures
        instantiate_post(msg, fee_token_resolved, registry_resolved, r),
{
    if !(fee_token_resolved && registry_resolved) {
        return Err(ContractError::InvalidAddress);
    }
    Ok(
        State {
            config: Config {
                fee_token: msg.fee_token,
                min_fee_amount: msg.min_fee_amount,
                exchange_registry: msg.exchange_registry,
            },
            last_order_id: 0,
            orders: Vec::new(),
            orders_by_user: Vec::new(),
        },
    )
}

/// Routes one state-changing call to its handler. `resolved_pool` is the
/// venue directory's answer for a submission's asset pair and
/// `simulated_return` the venue's quote for a settlement; each is consulted
/// only by its own operation, and a cancellation reads neither.
pub fn execute(
    state: &mut State,
    env: &Env,
    info: &MessageInfo,
    msg: ExecuteMsg,
    resolved_pool: Option<String>,
    simulated_return: Option<u128>,
) -> (r: Result<Response, ContractError>)
    requires
        old(state).wf(),
        old(state).last_order_id < u64::MAX,
    ensures
        final(state).wf(),
        match msg {
            ExecuteMsg::SubmitOrder { offer_asset, ask_asset, fee_amount } => submit_post(
                *old(state),
                *final(state),
                *env,
                *info,
                offer_asset,
                ask_asset,
                fee_amount,
                resolved_pool,
                r,
            ),
            ExecuteMsg::CancelOrder { order_id } => cancel_post(
                *old(state),
                *final(state),
                *info,
                order_id,
                r,
            ),
            ExecuteMsg::ExecuteOrder { order_id } => execute_post(
                *old(state),
                *final(state),
                *info,
                order_id,
                simulated_return,
                r,
            ),
        },
{
    match msg {
        ExecuteMsg::SubmitOrder { offer_asset, ask_asset, fee_amount } => submit_order(
            state,
            env,
            info,
            offer_asset,
            ask_asset,
            fee_amount,
            resolved_pool,
        ),
        ExecuteMsg::CancelOrder { order_id } => cancel_order(state, info, order_id),
        ExecuteMsg::ExecuteOrder { order_id } => execute_order(
            state,
            info,
            order_id,
            simulated_return,
        ),
    }
}

/// Routes one read-only question to its projection. Queries never change
/// state and need no authorization.
pub fn query(state: &State, msg: QueryMsg) -> (r: Result<QueryAnswer, ContractError>)
    requires
        state.wf(),
    ensures
        match msg {
            QueryMsg::Config {  } => r matches Ok(a) && a matches QueryAnswer::Config(c) && c
                == state.config.spec_res(),
            QueryMsg::Order { order_id } => match spec_query_order(*state, order_id) {
                Ok(resp) => r matches Ok(a) && a matches QueryAnswer::Order(o) && o == resp,
                Err(e) => r == Err::<QueryAnswer, ContractError>(e),
            },
            QueryMsg::Orders { bidder_addr, start_after, limit, order_by } => r matches Ok(a)
                && a matches QueryAnswer::Orders(res) && res.orders@ == spec_orders_responses(
                spec_page(
                    state.orders@,
                    spec_owner_opt(bidder_addr),
                    start_after,
                    order_by == Some(OrderBy::Asc),
                    spec_clamped_limit(limit),
                ),
            ),
            QueryMsg::LastOrderId {  } => r matches Ok(a) && a == QueryAnswer::LastOrderId(
                LastOrderIdResponse { last_order_id: state.last_order_id },
            ),
        },
{
    match msg {
        QueryMsg::Config {  } => Ok(QueryAnswer::Config(query_config(state))),
        QueryMsg::Order { order_id } => match query_order(state, order_id) {
            Ok(o) => Ok(QueryAnswer::Order(o)),
            Err(e) => Err(e),
        },
        QueryMsg::Orders { bidder_addr, start_after, limit, order_by } => Ok(
            QueryAnswer::Orders(query_orders(state, bidder_addr, start_after, limit, order_by)),
        ),
        QueryMsg::LastOrderId {  } => Ok(QueryAnswer::LastOrderId(query_last_order_id(state))),
    }
}

} // verus!
