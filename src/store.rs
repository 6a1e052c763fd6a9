//! How the domain values are stored: rows of the store's tables, and the
//! decisions on what to write. Enumerations are stored as their uppercase
//! names; reading accepts those and falls back to a default for other text.

use vstd::prelude::*;
use crate::domain::{
    is_open_status, lemma_order_type_text_round_trip, lemma_side_text_round_trip,
    lemma_status_text_round_trip, order_type_of_text, order_type_text, side_of_text, side_text,
    status_of_text, status_text, Order, OrderStatus, OrderType, Position, Side, Trade,
};
use crate::order_manager::{OrderView, TradeView};
use crate::text::owned;

verus! {

#[derive(Clone, Debug)]
pub struct OrderRow {
    pub id: String,
    pub market_id: String,
    pub side: String,
    pub token_id: String,
    pub price: u64,
    pub size: u64,
    pub order_type: String,
    pub status: String,
    pub created_at: i64,
}

#[derive(Clone, Debug)]
pub struct TradeRow {
    pub id: String,
    pub order_id: String,
    pub market_id: String,
    pub side: String,
    pub price: u64,
    pub size: u64,
    pub fee: u64,
    pub timestamp: i64,
}

#[derive(Clone, Debug)]
pub struct PositionRow {
    pub market_id: String,
    pub token_id: String,
    pub side: String,
    pub size: u64,
    pub avg_price: u64,
    pub current_price: u64,
    pub pnl: i64,
}

pub struct OrderRowView {
    pub id: Seq<char>,
    pub market_id: Seq<char>,
    pub side: Seq<char>,
    pub token_id: Seq<char>,
    pub price: u64,
    pub size: u64,
    pub order_type: Seq<char>,
    pub status: Seq<char>,
    pub created_at: i64,
}

impl View for OrderRow {
    type V = OrderRowView;

    open spec fn view(&self) -> OrderRowView {
        OrderRowView {
            id: self.id@,
            market_id: self.market_id@,
            side: self.side@,
            token_id: self.token_id@,
            price: self.price,
            size: self.size,
            order_type: self.order_type@,
            status: self.status@,
            created_at: self.created_at,
        }
    }
}

pub struct PositionRowView {
    pub market_id: Seq<char>,
    pub token_id: Seq<char>,
    pub side: Seq<char>,
    pub size: u64,
    pub avg_price: u64,
    pub current_price: u64,
    pub pnl: i64,
}

impl View for PositionRow {
    type V = PositionRowView;

    open spec fn view(&self) -> PositionRowView {
        PositionRowView {
            market_id: self.market_id@,
            token_id: self.token_id@,
            side: self.side@,
            size: self.size,
            avg_price: self.avg_price,
            current_price: self.current_price,
            pnl: self.pnl,
        }
    }
}

/// The row an order is stored as.
pub open spec fn order_row_of(o: OrderView) -> OrderRowView {
    OrderRowView {
        id: o.id,
        market_id: o.market_id,
        side: side_text(o.side),
        token_id: o.token_id,
        price: o.price,
        size: o.size,
        order_type: order_type_text(o.order_type),
        status: status_text(o.status),
        created_at: o.created_at,
    }
}

/// The order a row reads as.
pub open spec fn order_of_row(r: OrderRowView) -> OrderView {
    OrderView {
        id: r.id,
        market_id: r.market_id,
        side: side_of_text(r.side),
        token_id: r.token_id,
        price: r.price,
        size: r.size,
        order_type: order_type_of_text(r.order_type),
        status: status_of_text(r.status),
        created_at: r.created_at,
    }
}

/// The order a trade's row reads as.
pub open spec fn trade_of_row(r: TradeRow) -> TradeView {
    TradeView {
        id: r.id@,
        order_id: r.order_id@,
        market_id: r.market_id@,
        side: side_of_text(r.side@),
        price: r.price,
        size: r.size,
        fee: r.fee,
        timestamp: r.timestamp,
    }
}

impl Order {
    pub fn to_row(&self) -> (r: OrderRow)
        ensures
            r@ == order_row_of(self@),
    {
        OrderRow {
            id: self.id.clone(),
            market_id: self.market_id.clone(),
            side: owned(self.side.as_str()),
            token_id: self.token_id.clone(),
            price: self.price,
            size: self.size,
            order_type: owned(self.order_type.as_str()),
            status: owned(self.status.as_str()),
            created_at: self.created_at,
        }
    }

    pub fn from_row(row: &OrderRow) -> (r: Order)
        ensures
            r@ == order_of_row(row@),
    {
        Order {
            id: row.id.clone(),
            market_id: row.market_id.clone(),
            side: Side::from_text(row.side.as_str()),
            token_id: row.token_id.clone(),
            price: row.price,
            size: row.size,
            order_type: OrderType::from_text(row.order_type.as_str()),
            status: OrderStatus::from_text(row.status.as_str()),
            created_at: row.created_at,
        }
    }
}

impl Trade {
    pub fn to_row(&self) -> (r: TradeRow)
        ensures
            r.id@ == self.id@,
            r.order_id@ == self.order_id@,
            r.market_id@ == self.market_id@,
            r.side@ == side_text(self.side),
            r.price == self.price,
            r.size == self.size,
            r.fee == self.fee,
            r.timestamp == self.timestamp,
    {
        TradeRow {
            id: self.id.clone(),
            order_id: self.order_id.clone(),
            market_id: self.market_id.clone(),
            side: owned(self.side.as_str()),
            price: self.price,
            size: self.size,
            fee: self.fee,
            timestamp: self.timestamp,
        }
    }

    pub fn from_row(row: &TradeRow) -> (r: Trade)
        ensures
            r@ == trade_of_row(*row),
    {
        Trade {
            id: row.id.clone(),
            order_id: row.order_id.clone(),
            market_id: row.market_id.clone(),
            side: Side::from_text(row.side.as_str()),
            price: row.price,
            size: row.size,
            fee: row.fee,
            timestamp: row.timestamp,
        }
    }
}

impl Position {
    pub fn to_row(&self) -> (r: PositionRow)
        ensures
            r@ == (PositionRowView {
                market_id: self.market_id@,
                token_id: self.token_id@,
                side: side_text(self.side),
                size: self.size,
                avg_price: self.avg_price,
                current_price: self.current_price,
                pnl: self.pnl,
            }),
    {
        PositionRow {
            market_id: self.market_id.clone(),
            token_id: self.token_id.clone(),
            side: owned(self.side.as_str()),
            size: self.size,
            avg_price: self.avg_price,
            current_price: self.current_price,
            pnl: self.pnl,
        }
    }

    pub fn from_row(row: &PositionRow) -> (r: Position)
        ensures
            r.market_id@ == row.market_id@,
            r.token_id@ == row.token_id@,
            r.side == side_of_text(row.side@),
            r.size == row.size,
            r.avg_price == row.avg_price,
            r.current_price == row.current_price,
            r.pnl == row.pnl,
    {
        Position {
            market_id: row.market_id.clone(),
            token_id: row.token_id.clone(),
            side: Side::from_text(row.side.as_str()),
            size: row.size,
            avg_price: row.avg_price,
            current_price: row.current_price,
            pnl: row.pnl,
        }
    }
}

/// Storing an order and reading it back gives the same order.
pub proof fn lemma_order_row_round_trip(o: OrderView)
    ensures
        order_of_row(order_row_of(o)) == o,
{
    lemma_side_text_round_trip(o.side);
    lemma_order_type_text_round_trip(o.order_type);
    lemma_status_text_round_trip(o.status);
}

/// The write that records a position: an upsert on its key, or a delete once
/// its size is zero.
pub enum PositionWrite {
    Upsert(PositionRow),
    Delete { market_id: String, token_id: String },
}

/// The positions table: one row per (market id, token id).
pub type PositionTable = Map<(Seq<char>, Seq<char>), PositionRowView>;

pub open spec fn apply_position_write(t: PositionTable, w: PositionWrite) -> PositionTable {
    match w {
        PositionWrite::Upsert(row) => t.insert((row.market_id@, row.token_id@), row@),
        PositionWrite::Delete { market_id, token_id } => t.remove((market_id@, token_id@)),
    }
}

/// Every row of the table holds a nonzero size.
pub open spec fn sizes_positive(t: PositionTable) -> bool {
    forall|k| #[trigger] t.contains_key(k) ==> t[k].size > 0
}

/// The write for a position: delete it when its size is zero, else upsert it.
pub fn position_write(p: &Position) -> (r: PositionWrite)
    ensures
        match r {
            PositionWrite::Upsert(row) => p.size > 0 && row@ == (PositionRowView {
                market_id: p.market_id@,
                token_id: p.token_id@,
                side: side_text(p.side),
                size: p.size,
                avg_price: p.avg_price,
                current_price: p.current_price,
                pnl: p.pnl,
            }),
            PositionWrite::Delete { market_id, token_id } => p.size == 0 && market_id@ == p.market_id@
                && token_id@ == p.token_id@,
        },
{
    if p.size == 0 {
        PositionWrite::Delete { market_id: p.market_id.clone(), token_id: p.token_id.clone() }
    } else {
        PositionWrite::Upsert(p.to_row())
    }
}

/// The write a position gives keeps every stored size positive: a position
/// that becomes zero is deleted, not stored.
pub proof fn lemma_position_write_keeps_sizes_positive(t: PositionTable, w: PositionWrite)
    requires
        sizes_positive(t),
        w is Upsert ==> w->Upsert_0@.size > 0,
    ensures
        sizes_positive(apply_position_write(t, w)),
{
}

/// Applying the same position write twice leaves the table as applying it once.
pub proof fn lemma_position_write_idempotent(t: PositionTable, w: PositionWrite)
    ensures
        apply_position_write(apply_position_write(t, w), w) == apply_position_write(t, w),
{
    assert(apply_position_write(apply_position_write(t, w), w) =~= apply_position_write(t, w));
}

/// The statuses of the orders table, by order id.
pub type StatusTable = Map<Seq<char>, OrderStatus>;

/// Cancelling everything: every pending or open order becomes `Cancelled`.
pub open spec fn cancel_all_spec(t: StatusTable) -> StatusTable {
    t.map_values(|s: OrderStatus| if is_open_status(s) { OrderStatus::Cancelled } else { s })
}

/// After cancelling everything no order is pending or open, and cancelling
/// again changes nothing.
pub proof fn lemma_cancel_all_idempotent(t: StatusTable)
    ensures
        forall|id| #[trigger] cancel_all_spec(t).contains_key(id) ==> !is_open_status(cancel_all_spec(t)[id]),
        cancel_all_spec(cancel_all_spec(t)) == cancel_all_spec(t),
{
    assert(cancel_all_spec(cancel_all_spec(t)) =~= cancel_all_spec(t));
}

/// The statuses after moving each of `ids` to `Cancelled`, in order.
pub open spec fn apply_cancels(t: StatusTable, ids: Seq<Seq<char>>) -> StatusTable
    decreases ids.len(),
{
    if ids.len() == 0 {
        t
    } else {
        apply_cancels(t, ids.drop_last()).insert(ids.last(), OrderStatus::Cancelled)
    }
}

proof fn lemma_apply_cancels(t: StatusTable, ids: Seq<Seq<char>>, k: Seq<char>)
    ensures
        apply_cancels(t, ids).contains_key(k) == (t.contains_key(k) || ids.contains(k)),
        apply_cancels(t, ids).contains_key(k) ==> apply_cancels(t, ids)[k] == (if ids.contains(k) {
            OrderStatus::Cancelled
        } else {
            t[k]
        }),
    decreases ids.len(),
{
    if ids.len() > 0 {
        let init = ids.drop_last();
        lemma_apply_cancels(t, init, k);
        if init.contains(k) {
            let i = choose|i: int| 0 <= i < init.len() && init[i] == k;
            assert(ids[i] == k);
        }
        if ids.contains(k) && k != ids.last() {
            let i = choose|i: int| 0 <= i < ids.len() && ids[i] == k;
            assert(init[i] == k);
        }
        if k == ids.last() {
            assert(ids[ids.len() - 1] == k);
        }
    }
}

proof fn lemma_filter_member<A>(s: Seq<A>, pred: spec_fn(A) -> bool, j: int)
    requires
        0 <= j < s.filter(pred).len(),
    ensures
        exists|i: int| 0 <= i < s.len() && s[i] == s.filter(pred)[j],
    decreases s.len(),
{
    reveal(Seq::filter);
    let init = s.drop_last();
    if j < init.filter(pred).len() {
        lemma_filter_member(init, pred, j);
        let i = choose|i: int| 0 <= i < init.len() && init[i] == init.filter(pred)[j];
        assert(s[i] == init[i]);
    } else {
        assert(s[s.len() - 1] == s.filter(pred)[j]);
    }
}

/// Moving to `Cancelled` the orders that `cancellations` picks out of a list
/// of the store's open orders cancels everything, as `cancel_all_spec` says.
pub proof fn lemma_cancellations_cancel_all(t: StatusTable, open: Seq<Order>)
    requires
        forall|i: int| 0 <= i < open.len() ==> t.contains_key(#[trigger] open[i].id@) && t[open[i].id@]
            == open[i].status,
        forall|id: Seq<char>| #[trigger] t.contains_key(id) && is_open_status(t[id]) ==> exists|i: int|
            0 <= i < open.len() && open[i].id@ == id,
    ensures
        apply_cancels(t, open.filter(|o: Order| is_open_status(o.status)).map_values(|o: Order| o.id@))
            == cancel_all_spec(t),
{
    broadcast use vstd::seq_lib::group_filter_ensures;

    let f = open.filter(|o: Order| is_open_status(o.status));
    let ids = f.map_values(|o: Order| o.id@);
    assert forall|k: Seq<char>| #[trigger] ids.contains(k) <==> (t.contains_key(k) && is_open_status(t[k])) by {
        if ids.contains(k) {
            let j = choose|j: int| 0 <= j < ids.len() && ids[j] == k;
            lemma_filter_member(open, |o: Order| is_open_status(o.status), j);
            let i = choose|i: int| 0 <= i < open.len() && open[i] == f[j];
            assert(open[i].id@ == k);
        }
        if t.contains_key(k) && is_open_status(t[k]) {
            let i = choose|i: int| 0 <= i < open.len() && open[i].id@ == k;
            assert(f.contains(open[i]));
            let j = choose|j: int| 0 <= j < f.len() && f[j] == open[i];
            assert(ids[j] == k);
        }
    }
    assert forall|k: Seq<char>| ids.contains(k) implies t.contains_key(k) by {}
    let a = apply_cancels(t, ids);
    let c = cancel_all_spec(t);
    assert forall|k: Seq<char>| #[trigger] a.contains_key(k) <==> c.contains_key(k) by {
        lemma_apply_cancels(t, ids, k);
    }
    assert forall|k: Seq<char>| #[trigger] a.contains_key(k) implies a[k] == c[k] by {
        lemma_apply_cancels(t, ids, k);
    }
    assert(a =~= c);
}

} // verus!
