use vstd::prelude::*;

use crate::asset::Asset;
use crate::msg::{ConfigResponse, OrderBy, OrderResponse};

verus! {

/// The configuration singleton: written once at instantiation, read on
/// every lifecycle operation, never deleted.
#[derive(Debug, PartialEq, Eq)]
pub struct Config {
    /// The token every fee is denominated in; fees are never native coins.
    pub fee_token: String,
    /// The smallest fee a submission may carry.
    pub min_fee_amount: u128,
    /// The directory of exchange pools consulted at submission time.
    pub exchange_registry: String,
}

/// One open order. Presence in storage is the whole state: an order exists
/// if and only if it is still open, and a record is never mutated after
/// creation.
#[derive(Debug, PartialEq, Eq)]
pub struct OrderInfo {
    pub order_id: u64,
    pub bidder_addr: String,
    /// The venue pool resolved for the pair at submission time.
    pub pair_addr: String,
    /// The asset escrowed by the contract.
    pub offer_asset: Asset,
    /// The minimum acceptable receipt: identity plus floor amount.
    pub ask_asset: Asset,
    pub fee_amount: u128,
}

/// One entry of the owner-scoped secondary index: a presence marker that
/// exists exactly when the order with this id exists and belongs to this
/// bidder.
#[derive(Debug, PartialEq, Eq)]
pub struct UserOrderKey {
    pub bidder_addr: String,
    pub order_id: u64,
}

/// The whole persisted state of the engine, as the host's key-value ledger
/// holds it: the configuration, the id counter, the primary order table in
/// ascending id order, and the owner-scoped secondary index kept in step
/// with it.
#[derive(Debug)]
pub struct State {
    pub config: Config,
    /// Incremented by exactly one on every successful submission; never
    /// decremented, so ids are never reused even after deletion.
    pub last_order_id: u64,
    pub orders: Vec<OrderInfo>,
    pub orders_by_user: Vec<UserOrderKey>,
}

impl Clone for Config {
    fn clone(&self) -> (r: Self)
        ensures
            r == *self,
    {
        Config {
            fee_token: self.fee_token.clone(),
            min_fee_amount: self.min_fee_amount,
            exchange_registry: self.exchange_registry.clone(),
        }
    }
}

impl Clone for OrderInfo {
    fn clone(&self) -> (r: Self)
        ensures
            r == *self,
    {
        OrderInfo {
            order_id: self.order_id,
            bidder_addr: self.bidder_addr.clone(),
            pair_addr: self.pair_addr.clone(),
            offer_asset: self.offer_asset.clone(),
            ask_asset: self.ask_asset.clone(),
            fee_amount: self.fee_amount,
        }
    }
}

impl Config {
    /// The projection of the configuration into its response form.
    pub open spec fn spec_res(self) -> ConfigResponse {
        ConfigResponse {
            fee_token: self.fee_token,
            min_fee_amount: self.min_fee_amount,
            exchange_registry: self.exchange_registry,
        }
    }

    /// Projects the configuration into its query response.
    pub fn as_res(&self) -> (r: ConfigResponse)
        ensures
            r == self.spec_res(),
    {
        ConfigResponse {
            fee_token: self.fee_token.clone(),
            min_fee_amount: self.min_fee_amount,
            exchange_registry: self.exchange_registry.clone(),
        }
    }
}

impl OrderInfo {
    /// The projection of an order into its response form: every stored
    /// field, unchanged.
    pub open spec fn spec_res(self) -> OrderResponse {
        OrderResponse {
            order_id: self.order_id,
            bidder_addr: self.bidder_addr,
            pair_addr: self.pair_addr,
            offer_asset: self.offer_asset,
            ask_asset: self.ask_asset,
            fee_amount: self.fee_amount,
        }
    }

    /// Projects an order into its query response.
    pub fn as_res(&self) -> (r: OrderResponse)
        ensures
            r == self.spec_res(),
    {
        OrderResponse {
            order_id: self.order_id,
            bidder_addr: self.bidder_addr.clone(),
            pair_addr: self.pair_addr.clone(),
            offer_asset: self.offer_asset.clone(),
            ask_asset: self.ask_asset.clone(),
            fee_amount: self.fee_amount,
        }
    }
}

impl State {
    /// Well-formedness of the persisted state, established at instantiation
    /// and preserved by every operation:
    /// the primary table is strictly ascending by order id, every id lies
    /// between one and the counter, and the secondary index mirrors the
    /// primary table entry for entry.
    pub open spec fn wf(self) -> bool {
        &&& forall|i: int, j: int|
            0 <= i < j < self.orders@.len() ==> #[trigger] self.orders@[i].order_id
                < #[trigger] self.orders@[j].order_id
        &&& forall|i: int|
            0 <= i < self.orders@.len() ==> 1 <= (#[trigger] self.orders@[i]).order_id
                <= self.last_order_id
        &&& self.orders_by_user@.len() == self.orders@.len()
        &&& forall|i: int|
            0 <= i < self.orders@.len() ==> (#[trigger] self.orders_by_user@[i]).order_id
                == self.orders@[i].order_id && self.orders_by_user@[i].bidder_addr
                == self.orders@[i].bidder_addr
    }
}

/// The position of the order with the given id, or the sequence's length
/// when no order carries it. Ids are unique in a well-formed table, so this
/// names the only possible position.
pub open spec fn spec_find_idx(orders: Seq<OrderInfo>, order_id: u64) -> int
    decreases orders.len(),
{
    if orders.len() == 0 {
        0
    } else if orders[0].order_id == order_id {
        0
    } else {
        1 + spec_find_idx(orders.subrange(1, orders.len() as int), order_id)
    }
}

/// The stored order with the given id, if it is open.
pub open spec fn spec_get_order(orders: Seq<OrderInfo>, order_id: u64) -> Option<OrderInfo> {
    let j = spec_find_idx(orders, order_id);
    if j < orders.len() {
        Some(orders[j])
    } else {
        None
    }
}

pub proof fn lemma_find_idx_props(orders: Seq<OrderInfo>, order_id: u64)
    ensures
        0 <= spec_find_idx(orders, order_id) <= orders.len(),
        spec_find_idx(orders, order_id) < orders.len() ==> orders[spec_find_idx(
            orders,
            order_id,
        )].order_id == order_id,
        forall|k: int|
            0 <= k < spec_find_idx(orders, order_id) ==> (#[trigger] orders[k]).order_id
                != order_id,
    decreases orders.len(),
{
    if orders.len() > 0 && orders[0].order_id != order_id {
        let sub = orders.subrange(1, orders.len() as int);
        lemma_find_idx_props(sub, order_id);
        assert forall|k: int|
            0 <= k < spec_find_idx(orders, order_id) implies (#[trigger] orders[k]).order_id
            != order_id by {
            if k > 0 {
                assert(orders[k] == sub[k - 1]);
            }
        }
    }
}

/// Scans the primary table for an order id; the returned position, when
/// present, is exactly the one `spec_find_idx` names.
pub(crate) fn find_order_idx(orders: &Vec<OrderInfo>, order_id: u64) -> (r: Option<usize>)
    ensures
        match r {
            Some(j) => j == spec_find_idx(orders@, order_id) && j < orders@.len(),
            None => spec_find_idx(orders@, order_id) == orders@.len(),
        },
{
    let n = orders.len();
    let mut i: usize = 0;
    while i < n
        invariant
            n == orders@.len(),
            0 <= i <= n,
            forall|k: int| 0 <= k < i ==> (#[trigger] orders@[k]).order_id != order_id,
        decreases n - i,
    {
        if orders[i].order_id == order_id {
            proof {
                lemma_find_idx_props(orders@, order_id);
            }
            return Some(i);
        }
        i += 1;
    }
    proof {
        lemma_find_idx_props(orders@, order_id);
    }
    None
}

/// Allocates the next order id, stamps it into the order and persists the
/// record under the primary key and the (owner, id) secondary key. The
/// counter moves up by exactly one and the new id is larger than every id
/// the table has ever held, so ids are never reused.
pub fn store_new_order(state: &mut State, order: &mut OrderInfo)
    requires
        old(state).wf(),
        old(state).last_order_id < u64::MAX,
    ensures
        final(state).wf(),
        final(state).config == old(state).config,
        final(state).last_order_id == old(state).last_order_id + 1,
        *final(order) == (OrderInfo { order_id: final(state).last_order_id, ..*old(order) }),
        final(state).orders@ == old(state).orders@.push(*final(order)),
        final(state).orders_by_user@ == old(state).orders_by_user@.push(
            UserOrderKey {
                bidder_addr: old(order).bidder_addr,
                order_id: final(state).last_order_id,
            },
        ),
{
    let new_id = state.last_order_id + 1;
    order.order_id = new_id;
    state.orders.push(order.clone());
    state.orders_by_user.push(
        UserOrderKey { bidder_addr: order.bidder_addr.clone(), order_id: new_id },
    );
    state.last_order_id = new_id;
}

/// Removes the order from both the primary table and the secondary index,
/// by its id. Absent ids leave the state untouched. The counter never moves
/// back.
pub fn remove_order(state: &mut State, order: &OrderInfo)
    requires
        old(state).wf(),
    ensures
        final(state).wf(),
        final(state).config == old(state).config,
        final(state).last_order_id == old(state).last_order_id,
        ({
            let j = spec_find_idx(old(state).orders@, order.order_id);
            if j < old(state).orders@.len() {
                final(state).orders@ == old(state).orders@.remove(j)
                    && final(state).orders_by_user@ == old(state).orders_by_user@.remove(j)
            } else {
                final(state).orders@ == old(state).orders@
                    && final(state).orders_by_user@ == old(state).orders_by_user@
            }
        }),
{
    match find_order_idx(&state.orders, order.order_id) {
        Some(j) => {
            state.orders.remove(j);
            state.orders_by_user.remove(j);
        },
        None => {},
    }
}

/// The largest number of records one listing may return.
pub const MAX_LIMIT: u32 = 30;

/// The number of records a listing returns when no limit is given.
pub const DEFAULT_LIMIT: u32 = 10;

/// Whether one order belongs in a listing: it matches the requested owner,
/// if any, and sits strictly beyond the exclusive cursor — above it for an
/// ascending scan, below it for a descending one.
pub open spec fn spec_order_matches(
    o: OrderInfo,
    owner: Option<Seq<char>>,
    start_after: Option<u64>,
    asc: bool,
) -> bool {
    &&& match owner {
        Some(u) => o.bidder_addr@ == u,
        None => true,
    }
    &&& match start_after {
        Some(n) => if asc {
            o.order_id > n
        } else {
            o.order_id < n
        },
        None => true,
    }
}

/// The orders of the table that belong in a listing, still in ascending id
/// order.
pub open spec fn spec_selected(
    orders: Seq<OrderInfo>,
    owner: Option<Seq<char>>,
    start_after: Option<u64>,
    asc: bool,
) -> Seq<OrderInfo> {
    orders.filter(|o: OrderInfo| spec_order_matches(o, owner, start_after, asc))
}

/// The selected records walked in the requested direction, cut off after
/// `limit` of them.
pub open spec fn spec_cut(selected: Seq<OrderInfo>, asc: bool, limit: int) -> Seq<OrderInfo>
    recommends
        limit >= 0,
{
    let directed = if asc {
        selected
    } else {
        selected.reverse()
    };
    if limit < directed.len() {
        directed.subrange(0, limit)
    } else {
        directed
    }
}

/// One page of a listing: the matching orders, walked in the requested
/// direction, cut off after `limit` records.
pub open spec fn spec_page(
    orders: Seq<OrderInfo>,
    owner: Option<Seq<char>>,
    start_after: Option<u64>,
    asc: bool,
    limit: int,
) -> Seq<OrderInfo>
    recommends
        limit >= 0,
{
    spec_cut(spec_selected(orders, owner, start_after, asc), asc, limit)
}

/// Walks the whole primary table once, keeps the records beyond the
/// cursor, and serves the requested page in the requested direction.
fn collect_page(
    orders: &Vec<OrderInfo>,
    start_after: Option<u64>,
    asc: bool,
    limit: usize,
) -> (r: Vec<OrderInfo>)
    ensures
        r@ == spec_page(orders@, None, start_after, asc, limit as int),
{
    let n = orders.len();
    let mut selected: Vec<OrderInfo> = Vec::new();
    let mut i: usize = 0;
    while i < n
        invariant
            n == orders@.len(),
            0 <= i <= n,
            selected@ == spec_selected(orders@.subrange(0, i as int), None, start_after, asc),
        decreases n - i,
    {
        let ghost s0 = orders@.subrange(0, i as int);
        let ghost s1 = orders@.subrange(0, (i + 1) as int);
        let order = &orders[i];
        let cursor_ok = match start_after {
            Some(c) => if asc {
                order.order_id > c
            } else {
                order.order_id < c
            },
            None => true,
        };
        if cursor_ok {
            selected.push(orders[i].clone());
        }
        proof {
            assert(s1.drop_last() =~= s0);
            assert(s1.last() == orders@[i as int]);
            reveal_with_fuel(Seq::<_>::filter, 2);
            if spec_order_matches(orders@[i as int], None, start_after, asc) {
                assert(spec_selected(s1, None, start_after, asc) == spec_selected(
                    s0,
                    None,
                    start_after,
                    asc,
                ).push(orders@[i as int]));
            } else {
                assert(spec_selected(s1, None, start_after, asc) == spec_selected(
                    s0,
                    None,
                    start_after,
                    asc,
                ));
            }
        }
        i += 1;
    }
    proof {
        assert(orders@.subrange(0, n as int) =~= orders@);
    }
    cut_page(selected, asc, limit)
}

fn cut_page(selected: Vec<OrderInfo>, asc: bool, limit: usize) -> (r: Vec<OrderInfo>)
    ensures
        r@ == spec_cut(selected@, asc, limit as int),
{
    let m = selected.len();
    let take = if limit < m {
        limit
    } else {
        m
    };
    let mut page: Vec<OrderInfo> = Vec::new();
    if asc {
        let mut j: usize = 0;
        while j < take
            invariant
                take <= m == selected@.len(),
                0 <= j <= take,
                page@ == selected@.subrange(0, j as int),
            decreases take - j,
        {
            page.push(selected[j].clone());
            proof {
                assert(selected@.subrange(0, j + 1 as int) =~= selected@.subrange(
                    0,
                    j as int,
                ).push(selected@[j as int]));
            }
            j += 1;
        }
        proof {
            if take == m {
                assert(selected@.subrange(0, m as int) =~= selected@);
            }
        }
    } else {
        let mut j: usize = 0;
        while j < take
            invariant
                take <= m == selected@.len(),
                0 <= j <= take,
                page@ == selected@.reverse().subrange(0, j as int),
            decreases take - j,
        {
            page.push(selected[m - 1 - j].clone());
            proof {
                assert(selected@.reverse()[j as int] == selected@[m - 1 - j as int]);
                assert(selected@.reverse().subrange(0, j + 1 as int) =~= selected@.reverse()
                    .subrange(0, j as int).push(selected@.reverse()[j as int]));
            }
            j += 1;
        }
        proof {
            if take == m {
                assert(selected@.reverse().subrange(0, m as int) =~= selected@.reverse());
            }
        }
    }
    page
}

/// Clamps a requested page size to the configured maximum, or falls back to
/// the default when none was asked for.
pub open spec fn spec_clamped_limit(limit: Option<u32>) -> int {
    match limit {
        Some(l) => if l > MAX_LIMIT {
            MAX_LIMIT as int
        } else {
            l as int
        },
        None => DEFAULT_LIMIT as int,
    }
}

fn clamp_limit(limit: Option<u32>) -> (r: usize)
    ensures
        r as int == spec_clamped_limit(limit),
{
    match limit {
        Some(l) => if l > MAX_LIMIT {
            MAX_LIMIT as usize
        } else {
            l as usize
        },
        None => DEFAULT_LIMIT as usize,
    }
}

/// Serves one page of the global listing. `start_after` is an exclusive
/// cursor; the direction defaults to descending when unspecified; the page
/// size is clamped to the configured maximum.
pub fn read_orders(
    state: &State,
    start_after: Option<u64>,
    limit: Option<u32>,
    order_by: Option<OrderBy>,
) -> (r: Vec<OrderInfo>)
    ensures
        r@ == spec_page(
            state.orders@,
            None,
            start_after,
            order_by == Some(OrderBy::Asc),
            spec_clamped_limit(limit),
        ),
{
    let asc = matches!(order_by, Some(OrderBy::Asc));
    collect_page(&state.orders, start_after, asc, clamp_limit(limit))
}

/// Serves one page of the owner-scoped listing by walking the secondary
/// index — which stores only presence, keyed by owner and id — and
/// re-fetching each matching record from the primary table. The
/// well-formedness invariant says the two never diverge, so every re-fetch
/// finds its record.
pub fn read_orders_by_user(
    state: &State,
    user: &String,
    start_after: Option<u64>,
    limit: Option<u32>,
    order_by: Option<OrderBy>,
) -> (r: Vec<OrderInfo>)
    requires
        state.wf(),
    ensures
        r@ == spec_page(
            state.orders@,
            Some(user@),
            start_after,
            order_by == Some(OrderBy::Asc),
            spec_clamped_limit(limit),
        ),
{
    let asc = matches!(order_by, Some(OrderBy::Asc));
    let n = state.orders_by_user.len();
    let mut selected: Vec<OrderInfo> = Vec::new();
    let mut i: usize = 0;
    while i < n
        invariant
            state.wf(),
            n == state.orders_by_user@.len(),
            0 <= i <= n,
            selected@ == spec_selected(
                state.orders@.subrange(0, i as int),
                Some(user@),
                start_after,
                asc,
            ),
        decreases n - i,
    {
        let ghost s0 = state.orders@.subrange(0, i as int);
        let ghost s1 = state.orders@.subrange(0, (i + 1) as int);
        let entry = &state.orders_by_user[i];
        let owner_ok = entry.bidder_addr == *user;
        let cursor_ok = match start_after {
            Some(c) => if asc {
                entry.order_id > c
            } else {
                entry.order_id < c
            },
            None => true,
        };
        if owner_ok && cursor_ok {
            selected.push(state.orders[i].clone());
        }
        proof {
            assert(entry.order_id == state.orders@[i as int].order_id);
            assert(entry.bidder_addr == state.orders@[i as int].bidder_addr);
            assert(s1.drop_last() =~= s0);
            assert(s1.last() == state.orders@[i as int]);
            reveal_with_fuel(Seq::<_>::filter, 2);
            if spec_order_matches(state.orders@[i as int], Some(user@), start_after, asc) {
                assert(spec_selected(s1, Some(user@), start_after, asc) == spec_selected(
                    s0,
                    Some(user@),
                    start_after,
                    asc,
                ).push(state.orders@[i as int]));
            } else {
                assert(spec_selected(s1, Some(user@), start_after, asc) == spec_selected(
                    s0,
                    Some(user@),
                    start_after,
                    asc,
                ));
            }
        }
        i += 1;
    }
    proof {
        assert(state.orders@.subrange(0, state.orders@.len() as int) =~= state.orders@);
    }
    cut_page(selected, asc, clamp_limit(limit))
}

/// The big-endian bytes of an order id, the form in which ids are laid out
/// as storage keys so that byte order agrees with numeric order.
pub open spec fn spec_u64_be_bytes(x: u64) -> Seq<u8> {
    seq![
        ((x >> 56) & 0xff) as u8,
        ((x >> 48) & 0xff) as u8,
        ((x >> 40) & 0xff) as u8,
        ((x >> 32) & 0xff) as u8,
        ((x >> 24) & 0xff) as u8,
        ((x >> 16) & 0xff) as u8,
        ((x >> 8) & 0xff) as u8,
        (x & 0xff) as u8,
    ]
}

fn u64_be_bytes(x: u64) -> (r: Vec<u8>)
    ensures
        r@ == spec_u64_be_bytes(x),
{
    proof {
        assert((x >> 56) & 0xff < 256 && (x >> 48) & 0xff < 256 && (x >> 40) & 0xff < 256 && (x
            >> 32) & 0xff < 256 && (x >> 24) & 0xff < 256 && (x >> 16) & 0xff < 256 && (x >> 8)
            & 0xff < 256 && x & 0xff < 256) by (bit_vector);
    }
    let mut v: Vec<u8> = Vec::new();
    v.push(((x >> 56) & 0xff) as u8);
    v.push(((x >> 48) & 0xff) as u8);
    v.push(((x >> 40) & 0xff) as u8);
    v.push(((x >> 32) & 0xff) as u8);
    v.push(((x >> 24) & 0xff) as u8);
    v.push(((x >> 16) & 0xff) as u8);
    v.push(((x >> 8) & 0xff) as u8);
    v.push((x & 0xff) as u8);
    proof {
        assert(v@ =~= spec_u64_be_bytes(x));
    }
    v
}

/// The first byte-level key strictly after the cursor's own key: the
/// cursor's big-endian bytes with one byte appended, so an ascending scan
/// that starts here skips the cursor itself and nothing else.
pub fn calc_range_start(start_after: Option<u64>) -> (r: Option<Vec<u8>>)
    ensures
        match start_after {
            Some(id) => r matches Some(v) && v@ == spec_u64_be_bytes(id).push(1u8),
            None => r is None,
        },
{
    match start_after {
        Some(id) => {
            let mut v = u64_be_bytes(id);
            v.push(1);
            Some(v)
        },
        None => None,
    }
}

/// The byte-level key of the cursor itself, the exclusive upper end of a
/// descending scan: everything strictly below the cursor is served.
pub fn calc_range_end(start_after: Option<u64>) -> (r: Option<Vec<u8>>)
    ensures
        match start_after {
            Some(id) => r matches Some(v) && v@ == spec_u64_be_bytes(id),
            None => r is None,
        },
{
    match start_after {
        Some(id) => Some(u64_be_bytes(id)),
        None => None,
    }
}

} // verus!
