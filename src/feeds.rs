//! The aggregator: keeps the last known prices and books, and runs the
//! strategies on every market-data event.

use vstd::prelude::*;
use crate::domain::{BookLevel, MarketData, OrderBook, Signal};
use crate::strategy::{signals_view, SignalView, Strategy, StrategyContext};
use crate::table::Table;

verus! {

pub struct BookView {
    pub bids: Seq<BookLevel>,
    pub asks: Seq<BookLevel>,
    pub timestamp: i64,
}

impl View for OrderBook {
    type V = BookView;

    open spec fn view(&self) -> BookView {
        BookView { bids: self.bids@, asks: self.asks@, timestamp: self.timestamp }
    }
}

/// What an event tells the aggregator's state.
pub enum EventView {
    Price { token_id: Seq<char>, price: u64 },
    Book { token_id: Seq<char>, book: BookView },
    Spot { symbol: Seq<char>, price: u64 },
}

impl View for MarketData {
    type V = EventView;

    open spec fn view(&self) -> EventView {
        match self {
            MarketData::PolymarketPrice { token_id, price, .. } => EventView::Price { token_id: token_id@, price: *price },
            MarketData::PolymarketOrderBook { token_id, book, .. } => EventView::Book { token_id: token_id@, book: book@ },
            MarketData::BinanceTicker { symbol, price, .. } => EventView::Spot { symbol: symbol@, price: *price },
        }
    }
}

/// The aggregator's market state: token prices, token books, spot prices.
pub struct MarketView {
    pub prices: Map<Seq<char>, u64>,
    pub books: Map<Seq<char>, BookView>,
    pub spot: Map<Seq<char>, u64>,
}

/// The state after one event: the event's entry replaces the earlier one.
pub open spec fn apply_event(s: MarketView, e: EventView) -> MarketView {
    match e {
        EventView::Price { token_id, price } => MarketView { prices: s.prices.insert(token_id, price), ..s },
        EventView::Book { token_id, book } => MarketView { books: s.books.insert(token_id, book), ..s },
        EventView::Spot { symbol, price } => MarketView { spot: s.spot.insert(symbol, price), ..s },
    }
}

/// The state after a sequence of events, in order of arrival.
pub open spec fn fold_events(s: MarketView, es: Seq<EventView>) -> MarketView
    decreases es.len(),
{
    if es.len() == 0 {
        s
    } else {
        apply_event(fold_events(s, es.drop_last()), es.last())
    }
}

/// The market state held in a context.
pub open spec fn market_view(ctx: &StrategyContext) -> MarketView {
    MarketView {
        prices: ctx.prices@,
        books: ctx.orderbooks@.map_values(|b: OrderBook| b@),
        spot: ctx.binance_prices@,
    }
}

/// The signals of the enabled strategies, strategy by strategy in order.
pub open spec fn all_signals(strategies: Seq<Strategy>, ctx: &StrategyContext) -> Seq<SignalView>
    decreases strategies.len(),
{
    if strategies.len() == 0 {
        Seq::empty()
    } else {
        let rest = all_signals(strategies.drop_last(), ctx);
        if strategies.last().spec_enabled() {
            rest + strategies.last().spec_evaluate(ctx)
        } else {
            rest
        }
    }
}

impl OrderBook {
    /// A copy of the book.
    pub fn copy(&self) -> (r: OrderBook)
        ensures
            r@ == self@,
    {
        OrderBook { bids: copy_levels(&self.bids), asks: copy_levels(&self.asks), timestamp: self.timestamp }
    }
}

fn copy_levels(v: &Vec<BookLevel>) -> (r: Vec<BookLevel>)
    ensures
        r@ == v@,
{
    let mut r: Vec<BookLevel> = Vec::new();
    let mut i: usize = 0;
    while i < v.len()
        invariant
            i <= v@.len(),
            r@ == v@.subrange(0, i as int),
        decreases v@.len() - i,
    {
        r.push(v[i]);
        i = i + 1;
        assert(r@ =~= v@.subrange(0, i as int));
    }
    assert(v@.subrange(0, v@.len() as int) =~= v@);
    r
}

/// Drives the strategies from the market-data stream.
pub struct FeedAggregator {
    pub strategies: Vec<Strategy>,
    /// The state and the context the strategies see.
    pub ctx: StrategyContext,
}

impl FeedAggregator {
    pub open spec fn wf(&self) -> bool {
        self.ctx.wf()
    }

    /// The market state the aggregator holds.
    pub open spec fn state(&self) -> MarketView {
        market_view(&self.ctx)
    }

    /// An aggregator with no market data yet.
    pub fn new(strategies: Vec<Strategy>, bankroll: u64) -> (r: Self)
        ensures
            r.wf(),
            r.strategies == strategies,
            r.state() == (MarketView { prices: Map::empty(), books: Map::empty(), spot: Map::empty() }),
            r.ctx.bankroll == bankroll,
    {
        let r = FeedAggregator { strategies, ctx: StrategyContext::new(bankroll) };
        assert(market_view(&r.ctx).books =~= Map::<Seq<char>, BookView>::empty());
        r
    }

    /// Records what `event` tells about the market.
    pub fn update_state(&mut self, event: &MarketData)
        requires
            old(self).wf(),
        ensures
            final(self).wf(),
            final(self).strategies == old(self).strategies,
            final(self).state() == apply_event(old(self).state(), event@),
            final(self).ctx.bankroll == old(self).ctx.bankroll,
    {
        let ghost before = market_view(&self.ctx);
        match event {
            MarketData::PolymarketPrice { token_id, price, .. } => {
                self.ctx.prices.insert(token_id.clone(), *price);
            },
            MarketData::PolymarketOrderBook { token_id, book, .. } => {
                self.ctx.orderbooks.insert(token_id.clone(), book.copy());
            },
            MarketData::BinanceTicker { symbol, price, .. } => {
                self.ctx.binance_prices.insert(symbol.clone(), *price);
            },
        }
        assert(market_view(&self.ctx).books =~= apply_event(before, event@).books);
    }

    /// Runs every enabled strategy on the current state at this bankroll,
    /// with `event` as the latest event, and returns their signals.
    pub fn run_strategies(&mut self, event: MarketData, bankroll: u64) -> (r: Vec<Signal>)
        requires
            old(self).wf(),
        ensures
            final(self).wf(),
            final(self).strategies == old(self).strategies,
            final(self).state() == old(self).state(),
            final(self).ctx.bankroll == bankroll,
            final(self).ctx.latest_event == Some(event),
            signals_view(r@) == all_signals(final(self).strategies@, &final(self).ctx),
    {
        self.ctx.bankroll = bankroll;
        self.ctx.latest_event = Some(event);
        let mut out: Vec<Signal> = Vec::new();
        let mut i: usize = 0;
        while i < self.strategies.len()
            invariant
                self.wf(),
                i <= self.strategies@.len(),
                signals_view(out@) == all_signals(self.strategies@.subrange(0, i as int), &self.ctx),
            decreases self.strategies@.len() - i,
        {
            let strategy = &self.strategies[i];
            assert(self.strategies@.subrange(0, i + 1).drop_last() =~= self.strategies@.subrange(0, i as int));
            if strategy.enabled() {
                let mut found = strategy.evaluate(&self.ctx);
                let ghost prev = out@;
                let ghost more = found@;
                out.append(&mut found);
                assert(signals_view(out@) =~= signals_view(prev) + signals_view(more));
            }
            i = i + 1;
        }
        assert(self.strategies@.subrange(0, self.strategies@.len() as int) =~= self.strategies@);
        out
    }

    /// Handles one event: updates the state first, then runs the strategies,
    /// so that they see this event and every one before it.
    pub fn handle_event(&mut self, event: MarketData, bankroll: u64) -> (r: Vec<Signal>)
        requires
            old(self).wf(),
        ensures
            final(self).wf(),
            final(self).strategies == old(self).strategies,
            final(self).state() == apply_event(old(self).state(), event@),
            final(self).ctx.bankroll == bankroll,
            final(self).ctx.latest_event == Some(event),
            signals_view(r@) == all_signals(final(self).strategies@, &final(self).ctx),
    {
        self.update_state(&event);
        self.run_strategies(event, bankroll)
    }
}

/// Handling the events one by one leaves the state that the whole sequence
/// induces: the state after event `n + 1` is event `n + 1` applied to the
/// state after the first `n`, and nothing else.
pub proof fn lemma_state_follows_events(s: MarketView, es: Seq<EventView>, n: int)
    requires
        0 <= n < es.len(),
    ensures
        fold_events(s, es.take(n + 1)) == apply_event(fold_events(s, es.take(n)), es[n]),
{
    assert(es.take(n + 1).drop_last() =~= es.take(n));
}

/// After a sequence of events, the known price of a token is the price of the
/// last price event for it.
pub proof fn lemma_last_price_wins(s: MarketView, es: Seq<EventView>, n: int, t: Seq<char>, p: u64)
    requires
        0 <= n < es.len(),
        es[n] == (EventView::Price { token_id: t, price: p }),
        forall|j: int| n < j < es.len() ==> !(#[trigger] es[j] is Price && es[j]->Price_token_id == t),
    ensures
        fold_events(s, es).prices.contains_key(t),
        fold_events(s, es).prices[t] == p,
    decreases es.len(),
{
    if n < es.len() - 1 {
        let init = es.drop_last();
        assert forall|j: int| n < j < init.len() implies !(#[trigger] init[j] is Price && init[j]->Price_token_id == t) by {
            assert(init[j] == es[j]);
        }
        lemma_last_price_wins(s, init, n, t, p);
        assert(!(es[es.len() - 1] is Price && es[es.len() - 1]->Price_token_id == t));
    } else {
        assert(es.drop_last().len() == n);
    }
}

} // verus!
