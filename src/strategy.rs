//! What strategies see and what they propose.

use vstd::prelude::*;
use crate::domain::{MarketData, OrderBook, Position, Side, Signal};
use crate::intra_arb::IntraArbStrategy;
use crate::latency_arb::LatencyArbStrategy;
use crate::table::Table;

verus! {

/// A signal as a mathematical value.
pub struct SignalView {
    pub strategy: Seq<char>,
    pub market_id: Seq<char>,
    pub token_id: Seq<char>,
    pub side: Side,
    pub confidence: u64,
    pub price: u64,
    pub size: u64,
}

impl View for Signal {
    type V = SignalView;

    open spec fn view(&self) -> SignalView {
        SignalView {
            strategy: self.strategy@,
            market_id: self.market_id@,
            token_id: self.token_id@,
            side: self.side,
            confidence: self.confidence,
            price: self.price,
            size: self.size,
        }
    }
}

/// The views of a list of signals.
pub open spec fn signals_view(s: Seq<Signal>) -> Seq<SignalView> {
    s.map_values(|x: Signal| x@)
}

/// The data a strategy evaluates: the bankroll, the positions, the last
/// known prices and books, and the event being handled.
pub struct StrategyContext {
    pub bankroll: u64,
    pub positions: Vec<Position>,
    /// token id to last price
    pub prices: Table<u64>,
    /// token id to last book
    pub orderbooks: Table<OrderBook>,
    /// spot symbol to last price
    pub binance_prices: Table<u64>,
    pub latest_event: Option<MarketData>,
}

impl StrategyContext {
    /// An empty context at this bankroll.
    pub fn new(bankroll: u64) -> (r: Self)
        ensures
            r.wf(),
            r.bankroll == bankroll,
            r.positions@.len() == 0,
            r.prices@ == Map::<Seq<char>, u64>::empty(),
            r.orderbooks@ == Map::<Seq<char>, OrderBook>::empty(),
            r.binance_prices@ == Map::<Seq<char>, u64>::empty(),
            r.latest_event is None,
    {
        StrategyContext {
            bankroll,
            positions: Vec::new(),
            prices: Table::new(),
            orderbooks: Table::new(),
            binance_prices: Table::new(),
            latest_event: None,
        }
    }

    pub open spec fn wf(&self) -> bool {
        &&& self.prices.wf()
        &&& self.orderbooks.wf()
        &&& self.binance_prices.wf()
    }
}

/// The strategies the aggregator runs.
pub enum Strategy {
    LatencyArb(LatencyArbStrategy),
    IntraArb(IntraArbStrategy),
}

impl Strategy {
    pub open spec fn spec_name(&self) -> Seq<char> {
        match self {
            Strategy::LatencyArb(_) => "latency_arb"@,
            Strategy::IntraArb(_) => "intra_arb"@,
        }
    }

    pub open spec fn spec_enabled(&self) -> bool {
        match self {
            Strategy::LatencyArb(s) => s.enabled,
            Strategy::IntraArb(s) => s.enabled,
        }
    }

    /// What the strategy proposes in this context.
    pub open spec fn spec_evaluate(&self, ctx: &StrategyContext) -> Seq<SignalView> {
        match self {
            Strategy::LatencyArb(s) => s.spec_signals(ctx),
            Strategy::IntraArb(s) => s.spec_signals(ctx),
        }
    }

    pub fn name(&self) -> (r: &'static str)
        ensures
            r@ == self.spec_name(),
    {
        match self {
            Strategy::LatencyArb(s) => s.name(),
            Strategy::IntraArb(s) => s.name(),
        }
    }

    pub fn enabled(&self) -> (r: bool)
        ensures
            r == self.spec_enabled(),
    {
        match self {
            Strategy::LatencyArb(s) => s.enabled,
            Strategy::IntraArb(s) => s.enabled,
        }
    }

    pub fn evaluate(&self, ctx: &StrategyContext) -> (r: Vec<Signal>)
        requires
            ctx.wf(),
        ensures
            signals_view(r@) == self.spec_evaluate(ctx),
    {
        match self {
            Strategy::LatencyArb(s) => s.evaluate(ctx),
            Strategy::IntraArb(s) => s.evaluate(ctx),
        }
    }
}

} // verus!
