//! Latency arbitrage: trade a threshold market whose price lags the spot
//! price of its reference asset.

use vstd::prelude::*;
use crate::domain::{Position, Side, Signal};
use crate::fixed::SCALE;
use crate::strategy::{signals_view, SignalView, StrategyContext};
use crate::text::{owned, same_text};

verus! {

/// The highest confidence the strategy ever claims (0.95).
pub const MAX_CONFIDENCE: u64 = 950_000;

/// The YES price at or above which buying is not worth it (0.90).
pub const BUY_CEILING: u64 = 900_000;

/// The YES price at or below which selling is not worth it (0.10).
pub const SELL_FLOOR: u64 = 100_000;

pub struct LatencyArbStrategy {
    pub enabled: bool,
    pub market_id: String,
    pub yes_token_id: String,
    pub no_token_id: String,
    pub binance_symbol: String,
    /// The spot level the market asks about.
    pub threshold_price: u64,
    /// The least relative distance from the threshold worth acting on.
    pub min_edge_pct: u64,
    /// The largest fraction of the bankroll put in one position.
    pub max_position_pct: u64,
}

/// Half-Kelly stake for a bet at `price` with win probability `confidence`,
/// capped at `max_pct` of the bankroll. With `b = 1/p - 1` the Kelly fraction
/// `(b*c - (1-c))/b` equals `(c - p)/(1 - p)`.
pub open spec fn kelly_spec(confidence: u64, price: u64, bankroll: u64, max_pct: u64) -> int {
    if price == 0 || price >= SCALE || confidence <= price {
        0
    } else {
        let half = (confidence - price) * bankroll / (2 * (SCALE - price));
        let cap = bankroll * max_pct / (SCALE as int);
        if half < cap { half } else { cap }
    }
}

/// The confidence claimed at this relative edge (a fraction of `SCALE`):
/// `min(0.95, 0.5 + 5 * edge)`.
pub open spec fn confidence_spec(edge: int) -> u64 {
    if 500_000 + 5 * edge >= MAX_CONFIDENCE { MAX_CONFIDENCE } else { (500_000 + 5 * edge) as u64 }
}

/// The trade of the YES token, if any, for spot price `spot` and YES price
/// `yes` (selling YES stands for buying NO): its side,
/// confidence, price and size.
pub open spec fn latency_decision(
    threshold: u64,
    min_edge: u64,
    max_pct: u64,
    spot: u64,
    yes: u64,
    bankroll: u64,
) -> Option<(Side, u64, u64, u64)> {
    if threshold == 0 {
        None
    } else if spot > threshold && (spot - threshold) * SCALE > min_edge * threshold && yes < BUY_CEILING {
        let c = confidence_spec((spot - threshold) * SCALE / (threshold as int));
        let size = kelly_spec(c, yes, bankroll, max_pct);
        if size > SCALE { Some((Side::Buy, c, yes, size as u64)) } else { None }
    } else if threshold > spot && (threshold - spot) * SCALE > min_edge * threshold && yes > SELL_FLOOR {
        let c = confidence_spec((threshold - spot) * SCALE / (threshold as int));
        let no = if yes >= SCALE { 0 } else { (SCALE - yes) as u64 };
        let size = kelly_spec(c, no, bankroll, max_pct);
        if size > SCALE { Some((Side::Sell, c, yes, size as u64)) } else { None }
    } else {
        None
    }
}

/// Whether some position in `market_id` has a nonzero size.
pub open spec fn has_position(ps: Seq<Position>, market_id: Seq<char>) -> bool {
    exists|i: int| 0 <= i < ps.len() && ps[i].market_id@ == market_id && ps[i].size > 0
}

impl LatencyArbStrategy {
    /// An enabled strategy with a 2% minimum edge and 5% position cap.
    pub fn new(
        market_id: String,
        yes_token_id: String,
        no_token_id: String,
        binance_symbol: String,
        threshold_price: u64,
    ) -> (r: Self)
        ensures
            r.enabled,
            r.market_id == market_id,
            r.yes_token_id == yes_token_id,
            r.no_token_id == no_token_id,
            r.binance_symbol == binance_symbol,
            r.threshold_price == threshold_price,
            r.min_edge_pct == 20_000,
            r.max_position_pct == 50_000,
    {
        LatencyArbStrategy {
            enabled: true,
            market_id,
            yes_token_id,
            no_token_id,
            binance_symbol,
            threshold_price,
            min_edge_pct: 20_000,
            max_position_pct: 50_000,
        }
    }

    pub fn name(&self) -> (r: &'static str)
        ensures
            r@ == "latency_arb"@,
    {
        "latency_arb"
    }

    pub fn enabled(&self) -> (r: bool)
        ensures
            r == self.enabled,
    {
        self.enabled
    }

    /// Half-Kelly sizing; zero for a price outside (0, 1) or a confidence
    /// no higher than the price.
    pub fn kelly_size(&self, confidence: u64, price: u64, bankroll: u64) -> (r: u64)
        requires
            confidence <= SCALE,
        ensures
            r == kelly_spec(confidence, price, bankroll, self.max_position_pct),
            price == 0 || price >= SCALE || confidence == 0 ==> r == 0,
    {
        if price == 0 || price >= SCALE || confidence <= price {
            return 0;
        }
        let edge: u128 = (confidence - price) as u128;
        assert(edge * bankroll <= 1_000_000 * u64::MAX) by (nonlinear_arith)
            requires edge <= 1_000_000, bankroll <= u64::MAX;
        let half: u128 = edge * (bankroll as u128) / (2 * ((SCALE - price) as u128));
        assert(half <= bankroll) by (nonlinear_arith)
            requires
                half == edge * bankroll / (2 * (1_000_000 - price)),
                edge <= 1_000_000 - price,
                price < 1_000_000;
        assert(bankroll as int * self.max_position_pct as int <= u64::MAX as int * u64::MAX as int)
            by (nonlinear_arith);
        let cap: u128 = (bankroll as u128) * (self.max_position_pct as u128) / (SCALE as u128);
        if half < cap { half as u64 } else { cap as u64 }
    }

    /// What this strategy proposes in `ctx`.
    pub open spec fn spec_signals(&self, ctx: &StrategyContext) -> Seq<SignalView> {
        if ctx.binance_prices@.contains_key(self.binance_symbol@) && ctx.prices@.contains_key(self.yes_token_id@)
            && !has_position(ctx.positions@, self.market_id@) {
            match latency_decision(
                self.threshold_price,
                self.min_edge_pct,
                self.max_position_pct,
                ctx.binance_prices@[self.binance_symbol@],
                ctx.prices@[self.yes_token_id@],
                ctx.bankroll,
            ) {
                Some((side, confidence, price, size)) => seq![SignalView {
                    strategy: "latency_arb"@,
                    market_id: self.market_id@,
                    token_id: self.yes_token_id@,
                    side,
                    confidence,
                    price,
                    size,
                }],
                None => Seq::empty(),
            }
        } else {
            Seq::empty()
        }
    }

    fn holds_position(&self, positions: &Vec<Position>) -> (r: bool)
        ensures
            r == has_position(positions@, self.market_id@),
    {
        let mut i: usize = 0;
        while i < positions.len()
            invariant
                i <= positions@.len(),
                forall|j: int| 0 <= j < i ==> !(positions@[j].market_id@ == self.market_id@ && positions@[j].size > 0),
            decreases positions@.len() - i,
        {
            if positions[i].size > 0 && same_text(positions[i].market_id.as_str(), self.market_id.as_str()) {
                return true;
            }
            i = i + 1;
        }
        false
    }

    fn decide(&self, spot: u64, yes: u64, bankroll: u64) -> (r: Option<(Side, u64, u64, u64)>)
        ensures
            r == latency_decision(self.threshold_price, self.min_edge_pct, self.max_position_pct, spot, yes, bankroll),
    {
        let t = self.threshold_price;
        if t == 0 {
            return None;
        }
        assert(self.min_edge_pct as int * t as int <= u64::MAX as int * u64::MAX as int) by (nonlinear_arith);
        let min_gap: u128 = (self.min_edge_pct as u128) * (t as u128);
        if spot > t && ((spot - t) as u128) * (SCALE as u128) > min_gap && yes < BUY_CEILING {
            let c = confidence_at(((spot - t) as u128) * (SCALE as u128) / (t as u128));
            let size = self.kelly_size(c, yes, bankroll);
            if size > SCALE { Some((Side::Buy, c, yes, size)) } else { None }
        } else if t > spot && ((t - spot) as u128) * (SCALE as u128) > min_gap && yes > SELL_FLOOR {
            let c = confidence_at(((t - spot) as u128) * (SCALE as u128) / (t as u128));
            let no: u64 = if yes >= SCALE { 0 } else { SCALE - yes };
            let size = self.kelly_size(c, no, bankroll);
            if size > SCALE { Some((Side::Sell, c, yes, size)) } else { None }
        } else {
            None
        }
    }

    pub fn evaluate(&self, ctx: &StrategyContext) -> (r: Vec<Signal>)
        requires
            ctx.wf(),
        ensures
            signals_view(r@) == self.spec_signals(ctx),
    {
        let mut signals: Vec<Signal> = Vec::new();
        let spot = match ctx.binance_prices.get(self.binance_symbol.as_str()) {
            Some(p) => *p,
            None => {
                assert(signals_view(signals@) =~= self.spec_signals(ctx));
                return signals;
            },
        };
        let yes = match ctx.prices.get(self.yes_token_id.as_str()) {
            Some(p) => *p,
            None => {
                assert(signals_view(signals@) =~= self.spec_signals(ctx));
                return signals;
            },
        };
        if self.holds_position(&ctx.positions) {
            assert(signals_view(signals@) =~= self.spec_signals(ctx));
            return signals;
        }
        match self.decide(spot, yes, ctx.bankroll) {
            Some((side, confidence, price, size)) => {
                signals.push(Signal {
                    strategy: owned(self.name()),
                    market_id: self.market_id.clone(),
                    token_id: self.yes_token_id.clone(),
                    side,
                    confidence,
                    price,
                    size,
                });
            },
            None => {},
        }
        assert(signals_view(signals@) =~= self.spec_signals(ctx));
        signals
    }
}

/// `min(0.95, 0.5 + 5 * edge)`, for a relative edge in fixed point.
fn confidence_at(edge: u128) -> (r: u64)
    requires
        edge <= u64::MAX as int * 1_000_000,
    ensures
        r == confidence_spec(edge as int),
        r <= MAX_CONFIDENCE,
{
    if edge >= 90_000 {
        MAX_CONFIDENCE
    } else {
        (500_000 + 5 * edge) as u64
    }
}

/// Kelly sizing gives nothing for a price outside (0, 1) or a confidence of
/// zero.
pub proof fn lemma_kelly_zero_outside_domain(confidence: u64, price: u64, bankroll: u64, max_pct: u64)
    requires
        price == 0 || price >= SCALE || confidence == 0,
    ensures
        kelly_spec(confidence, price, bankroll, max_pct) == 0,
{
}

/// The half-Kelly stake is at most `max_pct` of the bankroll and at most half
/// the bankroll divided by the price: `size <= min(M * bankroll, 0.5 * bankroll / p)`.
pub proof fn lemma_half_kelly_bound(confidence: u64, price: u64, bankroll: u64, max_pct: u64)
    requires
        confidence <= SCALE,
    ensures
        kelly_spec(confidence, price, bankroll, max_pct) <= bankroll * max_pct / (SCALE as int),
        kelly_spec(confidence, price, bankroll, max_pct) * 2 * price <= bankroll * SCALE,
{
    if !(price == 0 || price >= SCALE || confidence <= price) {
        let e = confidence - price;
        let d = 2 * (SCALE - price);
        let half = e * bankroll / d;
        assert(half * 2 <= bankroll) by (nonlinear_arith)
            requires half == e * bankroll / d, d == 2 * (1_000_000 - price), 0 <= e <= 1_000_000 - price,
                price < 1_000_000, bankroll >= 0;
        let k = kelly_spec(confidence, price, bankroll, max_pct);
        assert(0 <= k <= half);
        assert(k * 2 * price <= bankroll * SCALE) by (nonlinear_arith)
            requires 0 <= k, k * 2 <= bankroll, 0 <= price < 1_000_000, bankroll >= 0;
        assert(kelly_spec(confidence, price, bankroll, max_pct) * 2 * price <= bankroll * SCALE);
    } else {
        let k = kelly_spec(confidence, price, bankroll, max_pct);
        assert(k == 0);
        assert(k * 2 * price <= bankroll * SCALE) by (nonlinear_arith)
            requires k == 0, bankroll >= 0, price >= 0;
    }
}

} // verus!
