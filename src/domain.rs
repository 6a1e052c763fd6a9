//! Value types shared by every stage of the pipeline.
//!
//! Quantities are fixed-point (see `fixed`); timestamps are milliseconds
//! since the Unix epoch, UTC.

use vstd::prelude::*;
use crate::text::same_text;

verus! {

#[derive(Clone, Copy, Debug, PartialEq, Eq, Structural)]
pub enum Side {
    Buy,
    Sell,
}

#[derive(Clone, Copy, Debug, PartialEq, Eq, Structural)]
pub enum OrderType {
    GTC,
    GTD,
    FOK,
}

#[derive(Clone, Copy, Debug, PartialEq, Eq, Structural)]
pub enum OrderStatus {
    Pending,
    Open,
    Filled,
    Cancelled,
    Failed,
}

/// The text a side is written as, on the wire and in storage.
pub open spec fn side_text(s: Side) -> Seq<char> {
    match s {
        Side::Buy => "BUY"@,
        Side::Sell => "SELL"@,
    }
}

/// The text an order type is written as.
pub open spec fn order_type_text(t: OrderType) -> Seq<char> {
    match t {
        OrderType::GTC => "GTC"@,
        OrderType::GTD => "GTD"@,
        OrderType::FOK => "FOK"@,
    }
}

/// The text an order status is stored as.
pub open spec fn status_text(s: OrderStatus) -> Seq<char> {
    match s {
        OrderStatus::Pending => "PENDING"@,
        OrderStatus::Open => "OPEN"@,
        OrderStatus::Filled => "FILLED"@,
        OrderStatus::Cancelled => "CANCELLED"@,
        OrderStatus::Failed => "FAILED"@,
    }
}

/// The side written as `t`; any text other than that of `Buy` reads as `Sell`.
pub open spec fn side_of_text(t: Seq<char>) -> Side {
    if t == "BUY"@ { Side::Buy } else { Side::Sell }
}

/// The order type written as `t`; unknown text reads as `GTC`.
pub open spec fn order_type_of_text(t: Seq<char>) -> OrderType {
    if t == "GTD"@ {
        OrderType::GTD
    } else if t == "FOK"@ {
        OrderType::FOK
    } else {
        OrderType::GTC
    }
}

/// The status stored as `t`; unknown text reads as `Pending`.
pub open spec fn status_of_text(t: Seq<char>) -> OrderStatus {
    if t == "OPEN"@ {
        OrderStatus::Open
    } else if t == "FILLED"@ {
        OrderStatus::Filled
    } else if t == "CANCELLED"@ {
        OrderStatus::Cancelled
    } else if t == "FAILED"@ {
        OrderStatus::Failed
    } else {
        OrderStatus::Pending
    }
}

impl Side {
    pub fn as_str(&self) -> (r: &'static str)
        ensures
            r@ == side_text(*self),
    {
        match self {
            Side::Buy => "BUY",
            Side::Sell => "SELL",
        }
    }

    /// Reads a side back from its text.
    pub fn from_text(t: &str) -> (r: Side)
        ensures
            r == side_of_text(t@),
    {
        if same_text(t, "BUY") { Side::Buy } else { Side::Sell }
    }
}

impl OrderType {
    pub fn as_str(&self) -> (r: &'static str)
        ensures
            r@ == order_type_text(*self),
    {
        match self {
            OrderType::GTC => "GTC",
            OrderType::GTD => "GTD",
            OrderType::FOK => "FOK",
        }
    }

    /// Reads an order type back from its text, defaulting to `GTC`.
    pub fn from_text(t: &str) -> (r: OrderType)
        ensures
            r == order_type_of_text(t@),
    {
        if same_text(t, "GTD") {
            OrderType::GTD
        } else if same_text(t, "FOK") {
            OrderType::FOK
        } else {
            OrderType::GTC
        }
    }
}

/// The legal moves of an order's lifecycle.
pub open spec fn can_transition(from: OrderStatus, to: OrderStatus) -> bool {
    match from {
        OrderStatus::Pending => to == OrderStatus::Open || to == OrderStatus::Failed,
        OrderStatus::Open => to == OrderStatus::Filled || to == OrderStatus::Cancelled
            || to == OrderStatus::Failed,
        _ => false,
    }
}

/// Whether an order in this status still rests (or may rest) at the venue.
pub open spec fn is_open_status(s: OrderStatus) -> bool {
    s == OrderStatus::Pending || s == OrderStatus::Open
}

impl OrderStatus {
    pub fn as_str(&self) -> (r: &'static str)
        ensures
            r@ == status_text(*self),
    {
        match self {
            OrderStatus::Pending => "PENDING",
            OrderStatus::Open => "OPEN",
            OrderStatus::Filled => "FILLED",
            OrderStatus::Cancelled => "CANCELLED",
            OrderStatus::Failed => "FAILED",
        }
    }

    /// Reads a status back from its text, defaulting to `Pending`.
    pub fn from_text(t: &str) -> (r: OrderStatus)
        ensures
            r == status_of_text(t@),
    {
        if same_text(t, "OPEN") {
            OrderStatus::Open
        } else if same_text(t, "FILLED") {
            OrderStatus::Filled
        } else if same_text(t, "CANCELLED") {
            OrderStatus::Cancelled
        } else if same_text(t, "FAILED") {
            OrderStatus::Failed
        } else {
            OrderStatus::Pending
        }
    }

    /// Whether the lifecycle allows moving from `self` to `to`.
    pub fn can_move_to(&self, to: OrderStatus) -> (r: bool)
        ensures
            r == can_transition(*self, to),
    {
        match self {
            OrderStatus::Pending => to == OrderStatus::Open || to == OrderStatus::Failed,
            OrderStatus::Open => to == OrderStatus::Filled || to == OrderStatus::Cancelled
                || to == OrderStatus::Failed,
            _ => false,
        }
    }

    /// Whether no further transition is possible.
    pub fn is_terminal(&self) -> (r: bool)
        ensures
            r == (forall|to: OrderStatus| !can_transition(*self, to)),
    {
        let r = match self {
            OrderStatus::Filled | OrderStatus::Cancelled | OrderStatus::Failed => true,
            _ => false,
        };
        if !r {
            assert(can_transition(*self, OrderStatus::Failed));
        }
        r
    }
}

/// Reading the stored text of a side gives the side back.
pub proof fn lemma_side_text_round_trip(s: Side)
    ensures
        side_of_text(side_text(s)) == s,
{
    reveal_strlit("BUY");
    reveal_strlit("SELL");
    assert("BUY"@.len() != "SELL"@.len());
}

/// Reading the stored text of an order type gives the order type back.
pub proof fn lemma_order_type_text_round_trip(t: OrderType)
    ensures
        order_type_of_text(order_type_text(t)) == t,
{
    reveal_strlit("GTC");
    reveal_strlit("GTD");
    reveal_strlit("FOK");
    assert("GTC"@[2] != "GTD"@[2]);
    assert("GTC"@[0] != "FOK"@[0]);
}

/// Reading the stored text of a status gives the status back.
pub proof fn lemma_status_text_round_trip(s: OrderStatus)
    ensures
        status_of_text(status_text(s)) == s,
{
    reveal_strlit("PENDING");
    reveal_strlit("OPEN");
    reveal_strlit("FILLED");
    reveal_strlit("CANCELLED");
    reveal_strlit("FAILED");
    assert("OPEN"@.len() != "PENDING"@.len());
    assert("FILLED"@.len() != "PENDING"@.len());
    assert("FILLED"@.len() != "OPEN"@.len());
    assert("CANCELLED"@.len() != "PENDING"@.len());
    assert("CANCELLED"@.len() != "OPEN"@.len());
    assert("CANCELLED"@.len() != "FILLED"@.len());
    assert("FAILED"@.len() != "PENDING"@.len());
    assert("FAILED"@.len() != "OPEN"@.len());
    assert("FAILED"@[2] != "FILLED"@[2]);
    assert("FAILED"@.len() != "CANCELLED"@.len());
}

#[derive(Clone, Debug)]
pub struct TokenInfo {
    pub token_id: String,
    pub outcome: String,
}

#[derive(Clone, Debug)]
pub struct Market {
    pub id: String,
    pub question: String,
    pub tokens: Vec<TokenInfo>,
    /// Milliseconds since the Unix epoch, when known.
    pub end_date: Option<i64>,
    pub active: bool,
}

/// An order of this bot, from creation on.
#[derive(Clone, Debug)]
pub struct Order {
    pub id: String,
    pub market_id: String,
    pub side: Side,
    pub token_id: String,
    pub price: u64,
    pub size: u64,
    pub order_type: OrderType,
    pub status: OrderStatus,
    pub created_at: i64,
}

/// Holdings in one outcome token; one per (market_id, token_id).
#[derive(Clone, Debug)]
pub struct Position {
    pub market_id: String,
    pub token_id: String,
    pub side: Side,
    pub size: u64,
    pub avg_price: u64,
    pub current_price: u64,
    pub pnl: i64,
}

/// A fill recorded against an order.
#[derive(Clone, Debug)]
pub struct Trade {
    pub id: String,
    pub order_id: String,
    pub market_id: String,
    pub side: Side,
    pub price: u64,
    pub size: u64,
    pub fee: u64,
    pub timestamp: i64,
}

/// A strategy's proposal to trade; `confidence` is a fraction of `SCALE`.
/// `token_id` is the outcome token to trade.
#[derive(Clone, Debug)]
pub struct Signal {
    pub strategy: String,
    pub market_id: String,
    pub token_id: String,
    pub side: Side,
    pub confidence: u64,
    pub price: u64,
    pub size: u64,
}

#[derive(Clone, Copy, Debug, PartialEq, Eq, Structural)]
pub struct BookLevel {
    pub price: u64,
    pub size: u64,
}

/// Bids best (highest) first, asks best (lowest) first.
#[derive(Clone, Debug)]
pub struct OrderBook {
    pub bids: Vec<BookLevel>,
    pub asks: Vec<BookLevel>,
    pub timestamp: i64,
}

impl OrderBook {
    /// The mean of the best bid and the best ask, rounded down; `None` when a
    /// side is empty.
    pub fn midpoint(&self) -> (r: Option<u64>)
        ensures
            r == (if self.bids@.len() > 0 && self.asks@.len() > 0 {
                Some(((self.bids@[0].price + self.asks@[0].price) / 2) as u64)
            } else {
                None
            }),
    {
        if self.bids.len() == 0 || self.asks.len() == 0 {
            return None;
        }
        let bid = self.bids[0].price as u128;
        let ask = self.asks[0].price as u128;
        Some(((bid + ask) / 2) as u64)
    }

    /// The best ask minus the best bid; `None` when a side is empty.
    pub fn spread(&self) -> (r: Option<i128>)
        ensures
            r == (if self.bids@.len() > 0 && self.asks@.len() > 0 {
                Some((self.asks@[0].price - self.bids@[0].price) as i128)
            } else {
                None
            }),
    {
        if self.bids.len() == 0 || self.asks.len() == 0 {
            return None;
        }
        Some(self.asks[0].price as i128 - self.bids[0].price as i128)
    }
}

/// A normalized market-data event, as every feed emits it.
#[derive(Clone, Debug)]
pub enum MarketData {
    PolymarketPrice { market_id: String, token_id: String, price: u64, timestamp: i64 },
    PolymarketOrderBook { market_id: String, token_id: String, book: OrderBook },
    BinanceTicker { symbol: String, price: u64, timestamp: i64 },
}

#[derive(Clone, Copy, Debug, PartialEq, Eq, Structural)]
pub struct PnlSnapshot {
    pub timestamp: i64,
    pub bankroll: u64,
    pub pnl_total: i64,
}

} // verus!
