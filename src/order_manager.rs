//! The decisions of the order pipeline: which signals become orders, what an
//! order becomes once the venue has answered, and what gets written.
//!
//! The caller performs the writes and the venue call in this order: insert
//! the order, submit it, then the status update and the trade.

use vstd::prelude::*;
use crate::domain::{is_open_status, can_transition, Order, OrderStatus, OrderType, Position, Side, Signal, Trade};
use crate::fixed::SCALE;
use crate::risk::{admits, RiskManager, RiskState};
use crate::runtime::{fresh_id, now_millis};
use crate::venue::OrderResponse;

verus! {

/// The fee estimate, in basis points of the notional.
pub const FEE_BPS: u64 = 20;

pub struct OrderView {
    pub id: Seq<char>,
    pub market_id: Seq<char>,
    pub side: Side,
    pub token_id: Seq<char>,
    pub price: u64,
    pub size: u64,
    pub order_type: OrderType,
    pub status: OrderStatus,
    pub created_at: i64,
}

impl View for Order {
    type V = OrderView;

    open spec fn view(&self) -> OrderView {
        OrderView {
            id: self.id@,
            market_id: self.market_id@,
            side: self.side,
            token_id: self.token_id@,
            price: self.price,
            size: self.size,
            order_type: self.order_type,
            status: self.status,
            created_at: self.created_at,
        }
    }
}

pub struct TradeView {
    pub id: Seq<char>,
    pub order_id: Seq<char>,
    pub market_id: Seq<char>,
    pub side: Side,
    pub price: u64,
    pub size: u64,
    pub fee: u64,
    pub timestamp: i64,
}

impl View for Trade {
    type V = TradeView;

    open spec fn view(&self) -> TradeView {
        TradeView {
            id: self.id@,
            order_id: self.order_id@,
            market_id: self.market_id@,
            side: self.side,
            price: self.price,
            size: self.size,
            fee: self.fee,
            timestamp: self.timestamp,
        }
    }
}

/// The sum of `size * avg_price` over the positions, each rounded down.
pub open spec fn exposure_sum(ps: Seq<Position>) -> int
    decreases ps.len(),
{
    if ps.len() == 0 {
        0
    } else {
        exposure_sum(ps.drop_last()) + ps.last().size * ps.last().avg_price / (SCALE as int)
    }
}

/// The total exposure, saturating at the largest `u64`.
pub open spec fn exposure_spec(ps: Seq<Position>) -> u64 {
    if exposure_sum(ps) > u64::MAX { u64::MAX } else { exposure_sum(ps) as u64 }
}

/// The estimated fee of a fill: 20 basis points of `price * size`, rounded down.
pub open spec fn fee_spec(price: u64, size: u64) -> int {
    price * size * FEE_BPS / (SCALE * 10_000)
}

/// The order a signal becomes: GTC, pending, on the signal's token.
pub open spec fn order_for(s: Signal, id: Seq<char>, created_at: i64) -> OrderView {
    OrderView {
        id,
        market_id: s.market_id@,
        side: s.side,
        token_id: s.token_id@,
        price: s.price,
        size: s.size,
        order_type: OrderType::GTC,
        status: OrderStatus::Pending,
        created_at,
    }
}

/// Whether the venue accepted the order.
pub open spec fn accepted(result: Result<OrderResponse, String>) -> bool {
    result matches Ok(resp) && resp.success
}

/// The trade recorded for an accepted order.
pub open spec fn trade_for(o: OrderView, id: Seq<char>, timestamp: i64) -> TradeView {
    TradeView {
        id,
        order_id: o.id,
        market_id: o.market_id,
        side: o.side,
        price: o.price,
        size: o.size,
        fee: fee_spec(o.price, o.size) as u64,
        timestamp,
    }
}

/// A write to the store.
pub enum WriteView {
    InsertOrder(OrderView),
    UpdateStatus(Seq<char>, OrderStatus),
    InsertTrade(TradeView),
}

/// Everything written to the store for one signal: nothing when risk rejects
/// it; else the pending order, then its status after the venue's answer, then
/// a trade when the venue accepted it.
pub open spec fn signal_writes(
    risk: RiskState,
    s: Signal,
    bankroll: u64,
    positions: Seq<Position>,
    order_id: Seq<char>,
    created_at: i64,
    result: Result<OrderResponse, String>,
    trade_id: Seq<char>,
    traded_at: i64,
) -> Seq<WriteView> {
    if !admits(risk, s.size, s.price, bankroll, exposure_spec(positions)) {
        Seq::empty()
    } else {
        let o = order_for(s, order_id, created_at);
        if accepted(result) {
            seq![
                WriteView::InsertOrder(o),
                WriteView::UpdateStatus(order_id, OrderStatus::Open),
                WriteView::InsertTrade(trade_for(o, trade_id, traded_at)),
            ]
        } else {
            seq![WriteView::InsertOrder(o), WriteView::UpdateStatus(order_id, OrderStatus::Failed)]
        }
    }
}

/// The total exposure of the positions, `sum(size * avg_price)`.
pub fn total_exposure(positions: &Vec<Position>) -> (r: u64)
    ensures
        r == exposure_spec(positions@),
{
    let mut acc: u64 = 0;
    let mut i: usize = 0;
    while i < positions.len()
        invariant
            i <= positions@.len(),
            acc == exposure_spec(positions@.subrange(0, i as int)),
            exposure_sum(positions@.subrange(0, i as int)) >= 0,
        decreases positions@.len() - i,
    {
        let p = &positions[i];
        assert(positions@.subrange(0, i + 1).drop_last() =~= positions@.subrange(0, i as int));
        assert(p.size as int * p.avg_price as int <= u64::MAX as int * u64::MAX as int) by (nonlinear_arith);
        let term: u128 = (p.size as u128) * (p.avg_price as u128) / (SCALE as u128);
        assert(term <= p.size as int * p.avg_price as int) by (nonlinear_arith)
            requires term == p.size as int * p.avg_price as int / 1_000_000, p.size >= 0, p.avg_price >= 0;
        let sum: u128 = acc as u128 + term;
        acc = if sum > u64::MAX as u128 { u64::MAX } else { sum as u64 };
        i = i + 1;
    }
    assert(positions@.subrange(0, positions@.len() as int) =~= positions@);
    acc
}

/// Whether risk admits `signal` at this bankroll, with the exposure of these
/// positions.
pub fn admit_signal(risk: &RiskManager, signal: &Signal, bankroll: u64, positions: &Vec<Position>) -> (r: bool)
    ensures
        r == admits(risk@, signal.size, signal.price, bankroll, exposure_spec(positions@)),
{
    let exposure = total_exposure(positions);
    risk.check_signal(signal, bankroll, exposure)
}

/// The estimated fee of a fill at a price of at most one.
pub fn estimated_fee(price: u64, size: u64) -> (r: u64)
    requires
        price <= SCALE,
    ensures
        r == fee_spec(price, size),
{
    assert(price as int * size as int <= 1_000_000 * u64::MAX as int) by (nonlinear_arith)
        requires price <= 1_000_000, size <= u64::MAX;
    let n: u128 = (price as u128) * (size as u128) * (FEE_BPS as u128);
    let r: u128 = n / ((SCALE as u128) * 10_000);
    assert(r <= u64::MAX) by (nonlinear_arith)
        requires r == n / 10_000_000_000, n <= 20_000_000 * u64::MAX as int, n >= 0;
    r as u64
}

/// The order for `signal` under the given id and creation time.
pub fn order_from_signal(signal: &Signal, id: String, created_at: i64) -> (r: Order)
    ensures
        r@ == order_for(*signal, id@, created_at),
{
    Order {
        id,
        market_id: signal.market_id.clone(),
        side: signal.side,
        token_id: signal.token_id.clone(),
        price: signal.price,
        size: signal.size,
        order_type: OrderType::GTC,
        status: OrderStatus::Pending,
        created_at,
    }
}

/// A new pending order for `signal`, under a fresh id and the current time.
pub fn mint_order(signal: &Signal) -> (r: Order)
    ensures
        r@ == order_for(*signal, r.id@, r.created_at),
{
    order_from_signal(signal, fresh_id(), now_millis())
}

/// The order for `signal` if risk admits it, else `None`.
pub fn plan_order(risk: &RiskManager, signal: &Signal, bankroll: u64, positions: &Vec<Position>) -> (r: Option<Order>)
    ensures
        match r {
            Some(o) => admits(risk@, signal.size, signal.price, bankroll, exposure_spec(positions@))
                && o@ == order_for(*signal, o.id@, o.created_at),
            None => !admits(risk@, signal.size, signal.price, bankroll, exposure_spec(positions@)),
        },
{
    if admit_signal(risk, signal, bankroll, positions) {
        Some(mint_order(signal))
    } else {
        None
    }
}

/// What a pending order becomes after the venue's answer: `Open` with a trade
/// when accepted, `Failed` with none on a rejection or a transport error.
pub fn settle_with(order: &Order, result: &Result<OrderResponse, String>, trade_id: String, traded_at: i64) -> (r: (
    OrderStatus,
    Option<Trade>,
))
    requires
        order.price <= SCALE,
    ensures
        accepted(*result) ==> (r.0 == OrderStatus::Open && (r.1 matches Some(t) && t@ == trade_for(order@, trade_id@, traded_at))),
        !accepted(*result) ==> r.0 == OrderStatus::Failed && r.1 is None,
{
    let ok = match result {
        Ok(resp) => resp.success,
        Err(_) => false,
    };
    if ok {
        let trade = Trade {
            id: trade_id,
            order_id: order.id.clone(),
            market_id: order.market_id.clone(),
            side: order.side,
            price: order.price,
            size: order.size,
            fee: estimated_fee(order.price, order.size),
            timestamp: traded_at,
        };
        (OrderStatus::Open, Some(trade))
    } else {
        (OrderStatus::Failed, None)
    }
}

/// `settle_with` under a fresh trade id and the current time.
pub fn settle(order: &Order, result: &Result<OrderResponse, String>) -> (r: (OrderStatus, Option<Trade>))
    requires
        order.price <= SCALE,
    ensures
        accepted(*result) ==> (r.0 == OrderStatus::Open && (r.1 matches Some(t) && t@ == trade_for(order@, t.id@, t.timestamp))),
        !accepted(*result) ==> r.0 == OrderStatus::Failed && r.1 is None,
{
    settle_with(order, result, fresh_id(), now_millis())
}

/// The ids of the orders that cancelling everything moves to `Cancelled`: those
/// still pending or open, in order.
pub fn cancellations(orders: &Vec<Order>) -> (r: Vec<String>)
    ensures
        r@.map_values(|s: String| s@) == orders@.filter(|o: Order| is_open_status(o.status)).map_values(|o: Order| o.id@),
{
    let mut ids: Vec<String> = Vec::new();
    let mut i: usize = 0;
    while i < orders.len()
        invariant
            i <= orders@.len(),
            ids@.map_values(|s: String| s@) == orders@.subrange(0, i as int).filter(|o: Order| is_open_status(o.status)).map_values(
                |o: Order| o.id@,
            ),
        decreases orders@.len() - i,
    {
        let ghost prev = ids@;
        assert(orders@.subrange(0, i + 1).drop_last() =~= orders@.subrange(0, i as int));
        reveal(Seq::filter);
        if orders[i].status == OrderStatus::Pending || orders[i].status == OrderStatus::Open {
            ids.push(orders[i].id.clone());
            assert(ids@.map_values(|s: String| s@) =~= prev.map_values(|s: String| s@).push(orders@[i as int].id@));
        }
        i = i + 1;
    }
    assert(orders@.subrange(0, orders@.len() as int) =~= orders@);
    ids
}

/// A signal that risk rejects writes nothing: no order and no trade.
pub proof fn lemma_rejected_signal_writes_nothing(
    risk: RiskState,
    s: Signal,
    bankroll: u64,
    positions: Seq<Position>,
    order_id: Seq<char>,
    created_at: i64,
    result: Result<OrderResponse, String>,
    trade_id: Seq<char>,
    traded_at: i64,
)
    requires
        !admits(risk, s.size, s.price, bankroll, exposure_spec(positions)),
    ensures
        signal_writes(risk, s, bankroll, positions, order_id, created_at, result, trade_id, traded_at).len() == 0,
{
}

/// An admitted signal that the venue accepts writes exactly one order, with
/// the signal's fields, and exactly one trade, which references that order.
pub proof fn lemma_accepted_signal_writes_order_and_trade(
    risk: RiskState,
    s: Signal,
    bankroll: u64,
    positions: Seq<Position>,
    order_id: Seq<char>,
    created_at: i64,
    result: Result<OrderResponse, String>,
    trade_id: Seq<char>,
    traded_at: i64,
)
    requires
        admits(risk, s.size, s.price, bankroll, exposure_spec(positions)),
        accepted(result),
    ensures
        ({
            let w = signal_writes(risk, s, bankroll, positions, order_id, created_at, result, trade_id, traded_at);
            &&& w.filter(|x: WriteView| x is InsertOrder) == seq![WriteView::InsertOrder(order_for(s, order_id, created_at))]
            &&& w.filter(|x: WriteView| x is InsertTrade).len() == 1
            &&& w.filter(|x: WriteView| x is InsertTrade)[0]->InsertTrade_0.order_id == order_id
            &&& w.filter(|x: WriteView| x is UpdateStatus) == seq![WriteView::UpdateStatus(order_id, OrderStatus::Open)]
        }),
{
    let w = signal_writes(risk, s, bankroll, positions, order_id, created_at, result, trade_id, traded_at);
    reveal_with_fuel(Seq::filter, 4);
    assert(w.drop_last().drop_last().drop_last() =~= Seq::<WriteView>::empty());
    assert(w.drop_last().drop_last().drop_last().filter(|x: WriteView| x is InsertOrder) =~= Seq::<WriteView>::empty());
    assert(w.drop_last().drop_last().drop_last().filter(|x: WriteView| x is InsertTrade) =~= Seq::<WriteView>::empty());
    assert(w.drop_last().drop_last().drop_last().filter(|x: WriteView| x is UpdateStatus) =~= Seq::<WriteView>::empty());
    assert(w.filter(|x: WriteView| x is InsertOrder) =~= seq![WriteView::InsertOrder(order_for(s, order_id, created_at))]);
    assert(w.filter(|x: WriteView| x is UpdateStatus) =~= seq![WriteView::UpdateStatus(order_id, OrderStatus::Open)]);
}

/// An admitted signal that the venue rejects, or whose submission fails,
/// writes exactly one order, then moves it to `Failed`, and writes no trade.
pub proof fn lemma_failed_signal_writes_failed_order(
    risk: RiskState,
    s: Signal,
    bankroll: u64,
    positions: Seq<Position>,
    order_id: Seq<char>,
    created_at: i64,
    result: Result<OrderResponse, String>,
    trade_id: Seq<char>,
    traded_at: i64,
)
    requires
        admits(risk, s.size, s.price, bankroll, exposure_spec(positions)),
        !accepted(result),
    ensures
        ({
            let w = signal_writes(risk, s, bankroll, positions, order_id, created_at, result, trade_id, traded_at);
            &&& w.filter(|x: WriteView| x is InsertOrder) == seq![WriteView::InsertOrder(order_for(s, order_id, created_at))]
            &&& w.filter(|x: WriteView| x is InsertTrade).len() == 0
            &&& w.last() == WriteView::UpdateStatus(order_id, OrderStatus::Failed)
        }),
{
    let w = signal_writes(risk, s, bankroll, positions, order_id, created_at, result, trade_id, traded_at);
    reveal_with_fuel(Seq::filter, 3);
    assert(w.drop_last().drop_last() =~= Seq::<WriteView>::empty());
    assert(w.drop_last().drop_last().filter(|x: WriteView| x is InsertOrder) =~= Seq::<WriteView>::empty());
    assert(w.drop_last().drop_last().filter(|x: WriteView| x is InsertTrade) =~= Seq::<WriteView>::empty());
    assert(w.filter(|x: WriteView| x is InsertOrder) =~= seq![WriteView::InsertOrder(order_for(s, order_id, created_at))]);
}

/// The statuses a signal's order goes through follow the lifecycle: it is
/// written `Pending`, and its one status update is a legal move from there.
pub proof fn lemma_signal_lifecycle_is_legal(
    risk: RiskState,
    s: Signal,
    bankroll: u64,
    positions: Seq<Position>,
    order_id: Seq<char>,
    created_at: i64,
    result: Result<OrderResponse, String>,
    trade_id: Seq<char>,
    traded_at: i64,
)
    ensures
        ({
            let w = signal_writes(risk, s, bankroll, positions, order_id, created_at, result, trade_id, traded_at);
            w.len() > 0 ==> {
                &&& w[0] is InsertOrder
                &&& w[0]->InsertOrder_0.status == OrderStatus::Pending
                &&& w[1] is UpdateStatus
                &&& w[1]->UpdateStatus_0 == order_id
                &&& can_transition(OrderStatus::Pending, w[1]->UpdateStatus_1)
                &&& forall|k: int| 2 <= k < w.len() ==> !(#[trigger] w[k] is UpdateStatus)
            }
        }),
{
}

/// Cancelling an open order is a legal move. (Cancelling a pending one, which
/// cancelling everything also does, is not among the lifecycle's moves.)
pub proof fn lemma_cancel_open_is_legal()
    ensures
        can_transition(OrderStatus::Open, OrderStatus::Cancelled),
        !can_transition(OrderStatus::Pending, OrderStatus::Cancelled),
{
}

} // verus!
