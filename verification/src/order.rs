use vstd::prelude::*;

use crate::asset::{spec_attached_ok, spec_transfer, Asset, AssetInfo, Instruction};
use crate::error::ContractError;
use crate::msg::{Env, Event, MessageInfo, Response};
use crate::state::{
    find_order_idx, lemma_find_idx_props, remove_order, spec_find_idx, spec_get_order,
    store_new_order, OrderInfo, State, UserOrderKey,
};

verus! {

/// The fee for a given amount, as an asset: always denominated in the
/// configured fee token, never in a native coin.
pub open spec fn spec_fee_asset(fee_token: String, amount: u128) -> Asset {
    Asset { info: AssetInfo::Token { contract_addr: fee_token }, amount }
}

fn fee_asset(fee_token: &String, amount: u128) -> (a: Asset)
    ensures
        a == spec_fee_asset(*fee_token, amount),
{
    Asset { info: AssetInfo::Token { contract_addr: fee_token.clone() }, amount }
}

/// Everything a submission does, or the exact error it fails with and that
/// it then changed nothing. On success the counter moves up by one, the new
/// order is appended to both the table and the owner index under the new id,
/// and the returned instructions pull the escrow in: the offer asset from
/// the sender when it is a token (a native offer is already attached), and
/// the fee, always in the configured fee token, from the sender.
pub open spec fn submit_post(
    pre: State,
    post: State,
    env: Env,
    info: MessageInfo,
    offer_asset: Asset,
    ask_asset: Asset,
    fee_amount: u128,
    resolved_pool: Option<String>,
    r: Result<Response, ContractError>,
) -> bool {
    if fee_amount < pre.config.min_fee_amount {
        r == Err::<Response, ContractError>(ContractError::InvalidFee) && post == pre
    } else {
        match resolved_pool {
            None => r == Err::<Response, ContractError>(ContractError::NoMarket) && post == pre,
            Some(pool) => if !spec_attached_ok(offer_asset, info.funds@) {
                r == Err::<Response, ContractError>(ContractError::PaymentMismatch) && post == pre
            } else {
                let order = OrderInfo {
                    order_id: (pre.last_order_id + 1) as u64,
                    bidder_addr: info.sender,
                    pair_addr: pool,
                    offer_asset,
                    ask_asset,
                    fee_amount,
                };
                let fee_pull = Instruction::PullToken {
                    token: pre.config.fee_token,
                    owner: info.sender,
                    recipient: env.contract_address,
                    amount: fee_amount,
                };
                &&& post.config == pre.config
                &&& post.last_order_id == pre.last_order_id + 1
                &&& post.orders@ == pre.orders@.push(order)
                &&& post.orders_by_user@ == pre.orders_by_user@.push(
                    UserOrderKey { bidder_addr: info.sender, order_id: order.order_id },
                )
                &&& r matches Ok(resp) && resp.messages@ == (match offer_asset.info {
                    AssetInfo::Token { contract_addr } => seq![
                        Instruction::PullToken {
                            token: contract_addr,
                            owner: info.sender,
                            recipient: env.contract_address,
                            amount: offer_asset.amount,
                        },
                        fee_pull,
                    ],
                    AssetInfo::Native { .. } => seq![fee_pull],
                }) && resp.event == Some(
                    Event::Submit {
                        order_id: order.order_id,
                        bidder_addr: info.sender,
                        offer_asset,
                        ask_asset,
                    },
                )
            },
        }
    }
}

/// Opens an order: checks the fee floor, requires a venue pool resolved for
/// the pair, checks a native offer was attached, escrows offer and fee, and
/// persists the record under the next id. `resolved_pool` is the venue
/// directory's answer for the (offer, ask) pair, handed in by the host;
/// `None` means no market exists.
pub fn submit_order(
    state: &mut State,
    env: &Env,
    info: &MessageInfo,
    offer_asset: Asset,
    ask_asset: Asset,
    fee_amount: u128,
    resolved_pool: Option<String>,
) -> (r: Result<Response, ContractError>)
    requires
        old(state).wf(),
        old(state).last_order_id < u64::MAX,
    ensures
        final(state).wf(),
        submit_post(
            *old(state),
            *final(state),
            *env,
            *info,
            offer_asset,
            ask_asset,
            fee_amount,
            resolved_pool,
            r,
        ),
{
    if fee_amount < state.config.min_fee_amount {
        return Err(ContractError::InvalidFee);
    }
    let pool = match resolved_pool {
        Some(p) => p,
        None => {
            return Err(ContractError::NoMarket);
        },
    };
    let mut messages: Vec<Instruction> = Vec::new();
    match &offer_asset.info {
        AssetInfo::Native { .. } => {
            match offer_asset.assert_attached(&info.funds) {
                Ok(_) => {},
                Err(e) => {
                    return Err(e);
                },
            }
        },
        AssetInfo::Token { .. } => {
            messages.push(
                offer_asset.to_pull_instruction(
                    info.sender.clone(),
                    env.contract_address.clone(),
                ),
            );
        },
    }
    let fee = fee_asset(&state.config.fee_token, fee_amount);
    messages.push(fee.to_pull_instruction(info.sender.clone(), env.contract_address.clone()));
    proof {
        let fee_pull = Instruction::PullToken {
            token: state.config.fee_token,
            owner: info.sender,
            recipient: env.contract_address,
            amount: fee_amount,
        };
        let oinfo = offer_asset.info;
        match oinfo {
            AssetInfo::Token { contract_addr } => {
                assert(messages@ =~= seq![
                    Instruction::PullToken {
                        token: contract_addr,
                        owner: info.sender,
                        recipient: env.contract_address,
                        amount: offer_asset.amount,
                    },
                    fee_pull,
                ]);
            },
            AssetInfo::Native { .. } => {
                assert(messages@ =~= seq![fee_pull]);
            },
        }
    }
    let mut new_order = OrderInfo {
        order_id: 0,
        bidder_addr: info.sender.clone(),
        pair_addr: pool,
        offer_asset: offer_asset.clone(),
        ask_asset: ask_asset.clone(),
        fee_amount,
    };
    store_new_order(state, &mut new_order);
    let event = Event::Submit {
        order_id: new_order.order_id,
        bidder_addr: info.sender.clone(),
        offer_asset,
        ask_asset,
    };
    Ok(Response { messages, event: Some(event) })
}

/// Everything a cancellation does, or the exact error it fails with and
/// that it then changed nothing. Only the exact owner may cancel. On
/// success the record leaves both the table and the owner index, and the
/// returned instructions refund the whole escrow to the owner: the offer
/// asset, and the fee in the configured fee token.
pub open spec fn cancel_post(
    pre: State,
    post: State,
    info: MessageInfo,
    order_id: u64,
    r: Result<Response, ContractError>,
) -> bool {
    match spec_get_order(pre.orders@, order_id) {
        None => r == Err::<Response, ContractError>(ContractError::NotFound) && post == pre,
        Some(order) => if order.bidder_addr@ != info.sender@ {
            r == Err::<Response, ContractError>(ContractError::Unauthorized) && post == pre
        } else {
            let j = spec_find_idx(pre.orders@, order_id);
            let refund_fee = spec_fee_asset(pre.config.fee_token, order.fee_amount);
            &&& post.config == pre.config
            &&& post.last_order_id == pre.last_order_id
            &&& post.orders@ == pre.orders@.remove(j)
            &&& post.orders_by_user@ == pre.orders_by_user@.remove(j)
            &&& r matches Ok(resp) && resp.messages@ == seq![
                spec_transfer(order.offer_asset, order.bidder_addr),
                spec_transfer(refund_fee, order.bidder_addr),
            ] && resp.event == Some(
                Event::Cancel {
                    order_id,
                    refunded_asset: order.offer_asset,
                    refunded_fee: refund_fee,
                },
            )
        },
    }
}

/// Closes an open order on its owner's demand and refunds the escrow. Any
/// caller other than the exact owner is turned away with `Unauthorized` and
/// nothing moves.
pub fn cancel_order(state: &mut State, info: &MessageInfo, order_id: u64) -> (r: Result<
    Response,
    ContractError,
>)
    requires
        old(state).wf(),
    ensures
        final(state).wf(),
        cancel_post(*old(state), *final(state), *info, order_id, r),
{
    let j = match find_order_idx(&state.orders, order_id) {
        Some(j) => j,
        None => {
            return Err(ContractError::NotFound);
        },
    };
    proof {
        lemma_find_idx_props(state.orders@, order_id);
    }
    let order = state.orders[j].clone();
    if !(order.bidder_addr == info.sender) {
        return Err(ContractError::Unauthorized);
    }
    let mut messages: Vec<Instruction> = Vec::new();
    messages.push(order.offer_asset.to_transfer_instruction(order.bidder_addr.clone()));
    let refund_fee = fee_asset(&state.config.fee_token, order.fee_amount);
    messages.push(refund_fee.to_transfer_instruction(order.bidder_addr.clone()));
    proof {
        assert(messages@ =~= seq![
            spec_transfer(order.offer_asset, order.bidder_addr),
            spec_transfer(refund_fee, order.bidder_addr),
        ]);
    }
    remove_order(state, &order);
    let event = Event::Cancel {
        order_id,
        refunded_asset: order.offer_asset,
        refunded_fee: refund_fee,
    };
    Ok(Response { messages, event: Some(event) })
}

/// Everything a settlement does, or the exact error it fails with and that
/// it then changed nothing — in particular, when the venue's simulated
/// return falls below the order's floor, no instruction is emitted and the
/// order stays open. On success the record leaves both indices and the
/// returned instructions run in order: swap the whole escrowed offer at the
/// order's pool, pay the owner exactly the ask amount, pay any excess over
/// it to the executor, and pay the fee to the executor.
pub open spec fn execute_post(
    pre: State,
    post: State,
    info: MessageInfo,
    order_id: u64,
    simulated_return: Option<u128>,
    r: Result<Response, ContractError>,
) -> bool {
    match spec_get_order(pre.orders@, order_id) {
        None => r == Err::<Response, ContractError>(ContractError::NotFound) && post == pre,
        Some(order) => match simulated_return {
            None => r == Err::<Response, ContractError>(ContractError::VenueUnavailable) && post
                == pre,
            Some(sim) => if sim < order.ask_asset.amount {
                r == Err::<Response, ContractError>(ContractError::InsufficientReturn) && post
                    == pre
            } else {
                let j = spec_find_idx(pre.orders@, order_id);
                let excess = (sim - order.ask_asset.amount) as u128;
                let swap = Instruction::Swap { pool: order.pair_addr, offer: order.offer_asset };
                let pay_owner = spec_transfer(order.ask_asset, order.bidder_addr);
                let pay_excess = spec_transfer(
                    Asset { info: order.ask_asset.info, amount: excess },
                    info.sender,
                );
                let pay_fee = spec_transfer(
                    spec_fee_asset(pre.config.fee_token, order.fee_amount),
                    info.sender,
                );
                &&& post.config == pre.config
                &&& post.last_order_id == pre.last_order_id
                &&& post.orders@ == pre.orders@.remove(j)
                &&& post.orders_by_user@ == pre.orders_by_user@.remove(j)
                &&& r matches Ok(resp) && resp.messages@ == (if excess > 0 {
                    seq![swap, pay_owner, pay_excess, pay_fee]
                } else {
                    seq![swap, pay_owner, pay_fee]
                }) && resp.event == Some(
                    Event::Execute {
                        order_id,
                        fee_amount: order.fee_amount,
                        excess_amount: excess,
                    },
                )
            },
        },
    }
}

/// Settles an open order through the venue. Any caller may trigger this:
/// the executor earns the fee and any price improvement as the incentive.
/// `simulated_return` is the venue's quote for swapping the whole escrowed
/// offer at the order's pool, handed in by the host; `None` means the venue
/// call failed. The order's ask amount is a hard floor: a quote below it
/// fails the whole call and the order stays open.
pub fn execute_order(
    state: &mut State,
    info: &MessageInfo,
    order_id: u64,
    simulated_return: Option<u128>,
) -> (r: Result<Response, ContractError>)
    requires
        old(state).wf(),
    ensures
        final(state).wf(),
        execute_post(*old(state), *final(state), *info, order_id, simulated_return, r),
{
    let j = match find_order_idx(&state.orders, order_id) {
        Some(j) => j,
        None => {
            return Err(ContractError::NotFound);
        },
    };
    proof {
        lemma_find_idx_props(state.orders@, order_id);
    }
    let order = state.orders[j].clone();
    let sim = match simulated_return {
        Some(sim) => sim,
        None => {
            return Err(ContractError::VenueUnavailable);
        },
    };
    if sim < order.ask_asset.amount {
        return Err(ContractError::InsufficientReturn);
    }
    let excess = sim - order.ask_asset.amount;
    let mut messages: Vec<Instruction> = Vec::new();
    messages.push(
        Instruction::Swap { pool: order.pair_addr.clone(), offer: order.offer_asset.clone() },
    );
    messages.push(order.ask_asset.to_transfer_instruction(order.bidder_addr.clone()));
    if excess > 0 {
        let excess_asset = Asset { info: order.ask_asset.info.clone(), amount: excess };
        messages.push(excess_asset.to_transfer_instruction(info.sender.clone()));
    }
    let fee = fee_asset(&state.config.fee_token, order.fee_amount);
    messages.push(fee.to_transfer_instruction(info.sender.clone()));
    proof {
        let swap = Instruction::Swap { pool: order.pair_addr, offer: order.offer_asset };
        let pay_owner = spec_transfer(order.ask_asset, order.bidder_addr);
        let pay_excess = spec_transfer(
            Asset { info: order.ask_asset.info, amount: excess },
            info.sender,
        );
        let pay_fee = spec_transfer(fee, info.sender);
        if excess > 0 {
            assert(messages@ =~= seq![swap, pay_owner, pay_excess, pay_fee]);
        } else {
            assert(messages@ =~= seq![swap, pay_owner, pay_fee]);
        }
    }
    remove_order(state, &order);
    let event = Event::Execute { order_id, fee_amount: order.fee_amount, excess_amount: excess };
    Ok(Response { messages, event: Some(event) })
}

} // verus!
