use vstd::prelude::*;

use crate::asset::{Asset, Coin, Instruction};

verus! {

/// The call context the host hands to every invocation: the engine's own
/// address (escrow custodian and pull recipient).
pub struct Env {
    pub contract_address: String,
}

/// Who invoked the call and which native coins they attached.
pub struct MessageInfo {
    pub sender: String,
    pub funds: Vec<Coin>,
}

/// Bootstraps the configuration singleton.
pub struct InstantiateMsg {
    pub fee_token: String,
    pub min_fee_amount: u128,
    pub exchange_registry: String,
}

/// The three state-changing operations.
pub enum ExecuteMsg {
    /// Escrow an offer asset and a fee against a minimum acceptable return.
    /// Token funds must have been approved for pulling beforehand; native
    /// funds must be attached to this very call.
    SubmitOrder { offer_asset: Asset, ask_asset: Asset, fee_amount: u128 },
    /// Owner-only: refund the escrow and close the order.
    CancelOrder { order_id: u64 },
    /// Open to any executor: settle the order through the venue and collect
    /// the fee plus any price improvement as the incentive.
    ExecuteOrder { order_id: u64 },
}

/// The read-only projections. All queries are public; none changes state.
pub enum QueryMsg {
    Config {},
    Order { order_id: u64 },
    Orders {
        bidder_addr: Option<String>,
        start_after: Option<u64>,
        limit: Option<u32>,
        order_by: Option<OrderBy>,
    },
    LastOrderId {},
}

/// Direction of a paginated listing. The default, when unspecified, is
/// descending.
#[derive(Clone, Copy, Debug, PartialEq, Eq, Structural)]
pub enum OrderBy {
    Asc,
    Desc,
}

#[derive(Debug, PartialEq, Eq)]
pub struct ConfigResponse {
    pub fee_token: String,
    pub min_fee_amount: u128,
    pub exchange_registry: String,
}

#[derive(Debug, PartialEq, Eq)]
pub struct OrderResponse {
    pub order_id: u64,
    pub bidder_addr: String,
    pub pair_addr: String,
    pub offer_asset: Asset,
    pub ask_asset: Asset,
    pub fee_amount: u128,
}

#[derive(Debug, PartialEq, Eq)]
pub struct OrdersResponse {
    pub orders: Vec<OrderResponse>,
}

#[derive(Clone, Copy, Debug, PartialEq, Eq, Structural)]
pub struct LastOrderIdResponse {
    pub last_order_id: u64,
}

/// No migration path exists in this scope; the message is kept for schema
/// stability.
#[derive(Clone, Copy, Debug, PartialEq, Eq, Structural)]
pub struct MigrateMsg {}

/// The structured event a successful operation reports back to the host.
#[derive(Debug, PartialEq, Eq)]
pub enum Event {
    Submit { order_id: u64, bidder_addr: String, offer_asset: Asset, ask_asset: Asset },
    Cancel { order_id: u64, refunded_asset: Asset, refunded_fee: Asset },
    Execute { order_id: u64, fee_amount: u128, excess_amount: u128 },
}

/// What a successful state-changing call hands back: the outbound
/// instructions the host must execute in order, all or nothing, and the
/// event describing what happened.
#[derive(Debug, PartialEq, Eq)]
pub struct Response {
    pub messages: Vec<Instruction>,
    pub event: Option<Event>,
}

} // verus!
