//! Turning feed messages into normalized market data. Each message gives at
//! most one event; a message that does not fit gives none.

use vstd::prelude::*;
use crate::domain::{BookLevel, MarketData, OrderBook};
use crate::fixed::{fixed_of_text, parse_fixed};
use crate::runtime::now_millis;
use crate::text::same_text;

verus! {

/// A book level as a feed writes it: decimal text.
#[derive(Clone, Debug)]
pub struct RawLevel {
    pub price: String,
    pub size: String,
}

/// A message of the venue's market channel, with the fields the bot reads.
#[derive(Clone, Debug)]
pub struct WsMessage {
    pub msg_type: Option<String>,
    pub market: Option<String>,
    pub asset_id: Option<String>,
    pub price: Option<String>,
    pub bids: Option<Vec<RawLevel>>,
    pub asks: Option<Vec<RawLevel>>,
}

/// A spot ticker: the symbol and the last price as text.
#[derive(Clone, Debug)]
pub struct SpotTicker {
    pub symbol: String,
    pub last_price: String,
}

/// The value of a decimal text when it is one and fits in a `u64`.
pub open spec fn fixed_value(t: Seq<char>) -> Option<u64> {
    match fixed_of_text(t) {
        Some(v) => if v <= u64::MAX { Some(v as u64) } else { None },
        None => None,
    }
}

/// The levels whose price and size both read as numbers, in order.
pub open spec fn levels_of(ls: Seq<RawLevel>) -> Seq<BookLevel>
    decreases ls.len(),
{
    if ls.len() == 0 {
        Seq::empty()
    } else {
        let rest = levels_of(ls.drop_last());
        match (fixed_value(ls.last().price@), fixed_value(ls.last().size@)) {
            (Some(p), Some(s)) => rest.push(BookLevel { price: p, size: s }),
            _ => rest,
        }
    }
}

/// The text of an optional field, empty when absent.
pub open spec fn text_or_empty(t: Option<String>) -> Seq<char> {
    match t {
        Some(s) => s@,
        None => Seq::empty(),
    }
}

/// The levels of an optional list, none when absent.
pub open spec fn opt_levels(ls: Option<Vec<RawLevel>>) -> Seq<BookLevel> {
    match ls {
        Some(v) => levels_of(v@),
        None => Seq::empty(),
    }
}

fn read_fixed(t: &str) -> (r: Option<u64>)
    ensures
        r == fixed_value(t@),
{
    parse_fixed(t)
}

/// The readable levels of `ls`, in order.
pub fn parse_levels(ls: &Vec<RawLevel>) -> (r: Vec<BookLevel>)
    ensures
        r@ == levels_of(ls@),
{
    let mut out: Vec<BookLevel> = Vec::new();
    let mut i: usize = 0;
    while i < ls.len()
        invariant
            i <= ls@.len(),
            out@ == levels_of(ls@.subrange(0, i as int)),
        decreases ls@.len() - i,
    {
        assert(ls@.subrange(0, i + 1).drop_last() =~= ls@.subrange(0, i as int));
        let price = read_fixed(ls[i].price.as_str());
        let size = read_fixed(ls[i].size.as_str());
        match (price, size) {
            (Some(p), Some(s)) => {
                out.push(BookLevel { price: p, size: s });
            },
            _ => {},
        }
        i = i + 1;
    }
    assert(ls@.subrange(0, ls@.len() as int) =~= ls@);
    out
}

fn parse_opt_levels(ls: &Option<Vec<RawLevel>>) -> (r: Vec<BookLevel>)
    ensures
        r@ == opt_levels(*ls),
{
    match ls {
        Some(v) => parse_levels(v),
        None => Vec::new(),
    }
}

fn text_of(t: &Option<String>) -> (r: String)
    ensures
        r@ == text_or_empty(*t),
{
    match t {
        Some(s) => s.clone(),
        None => String::new(),
    }
}

/// The event a venue message gives: a price for type `price` with a readable
/// price, a book (of its readable levels) for type `book`, none otherwise. The
/// event is stamped with the current time.
pub fn normalize_ws_message(msg: &WsMessage) -> (r: Option<MarketData>)
    ensures
        match r {
            Some(MarketData::PolymarketPrice { market_id, token_id, price, .. }) => {
                &&& msg.msg_type matches Some(t) && t@ == "price"@
                &&& msg.price matches Some(p) && fixed_value(p@) == Some(price)
                &&& market_id@ == text_or_empty(msg.market)
                &&& token_id@ == text_or_empty(msg.asset_id)
            },
            Some(MarketData::PolymarketOrderBook { market_id, token_id, book }) => {
                &&& msg.msg_type matches Some(t) && t@ == "book"@
                &&& book.bids@ == opt_levels(msg.bids)
                &&& book.asks@ == opt_levels(msg.asks)
                &&& market_id@ == text_or_empty(msg.market)
                &&& token_id@ == text_or_empty(msg.asset_id)
            },
            Some(MarketData::BinanceTicker { .. }) => false,
            None => match msg.msg_type {
                Some(t) => t@ != "book"@ && (t@ == "price"@ ==> (msg.price matches Some(p) ==> fixed_value(p@) is None)),
                None => true,
            },
        },
{
    proof {
        reveal_strlit("price");
        reveal_strlit("book");
        assert("price"@.len() != "book"@.len());
    }
    let kind = match &msg.msg_type {
        Some(t) => t,
        None => {
            return None;
        },
    };
    if same_text(kind.as_str(), "price") {
        let text = match &msg.price {
            Some(p) => p,
            None => {
                return None;
            },
        };
        match read_fixed(text.as_str()) {
            Some(price) => Some(MarketData::PolymarketPrice {
                market_id: text_of(&msg.market),
                token_id: text_of(&msg.asset_id),
                price,
                timestamp: now_millis(),
            }),
            None => None,
        }
    } else if same_text(kind.as_str(), "book") {
        let book = OrderBook {
            bids: parse_opt_levels(&msg.bids),
            asks: parse_opt_levels(&msg.asks),
            timestamp: now_millis(),
        };
        Some(MarketData::PolymarketOrderBook {
            market_id: text_of(&msg.market),
            token_id: text_of(&msg.asset_id),
            book,
        })
    } else {
        None
    }
}

/// The event a spot ticker gives: the symbol at its last price, when that
/// price reads as a number; stamped with the current time.
pub fn normalize_ticker(t: &SpotTicker) -> (r: Option<MarketData>)
    ensures
        match r {
            Some(MarketData::BinanceTicker { symbol, price, .. }) => symbol@ == t.symbol@
                && fixed_value(t.last_price@) == Some(price),
            Some(_) => false,
            None => fixed_value(t.last_price@) is None,
        },
{
    match read_fixed(t.last_price.as_str()) {
        Some(price) => Some(MarketData::BinanceTicker { symbol: t.symbol.clone(), price, timestamp: now_millis() }),
        None => None,
    }
}

} // verus!
