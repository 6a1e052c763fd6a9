//! Intra-market arbitrage: buy every outcome of a market whose outcome
//! prices sum to less than one.

use vstd::prelude::*;
use crate::domain::{Side, Signal};
use crate::fixed::SCALE;
use crate::strategy::{signals_view, SignalView, StrategyContext};
use crate::text::owned;

verus! {

/// The share of the bankroll that bounds one leg whatever `max_position_pct`
/// says (0.10).
pub const LEG_CAP_PCT: u64 = 100_000;

pub struct IntraArbStrategy {
    pub enabled: bool,
    /// Each market id with the token ids of all its outcomes.
    pub markets: Vec<(String, Vec<String>)>,
    /// The least shortfall of the price sum below one worth acting on.
    pub min_margin: u64,
    pub max_position_pct: u64,
}

/// Whether a price is known for every token.
pub open spec fn all_priced(prices: Map<Seq<char>, u64>, tokens: Seq<String>) -> bool {
    forall|i: int| 0 <= i < tokens.len() ==> prices.contains_key(#[trigger] tokens[i]@)
}

/// The sum of the known prices of the tokens.
pub open spec fn price_sum(prices: Map<Seq<char>, u64>, tokens: Seq<String>) -> int
    decreases tokens.len(),
{
    if tokens.len() == 0 {
        0
    } else {
        price_sum(prices, tokens.drop_last()) + prices[tokens.last()@]
    }
}

/// The dollar budget per unit of price of each leg: `min(M, 0.10) * bankroll`.
pub open spec fn leg_budget(bankroll: u64, max_pct: u64) -> int {
    let a = bankroll * max_pct / (SCALE as int);
    let b = bankroll * LEG_CAP_PCT / (SCALE as int);
    if a < b { a } else { b }
}

/// The signal buying one outcome of an underpriced market.
pub open spec fn leg_signal(market_id: Seq<char>, token_id: Seq<char>, price: u64, total: int, budget: int) -> SignalView {
    SignalView {
        strategy: "intra_arb"@,
        market_id,
        token_id,
        side: Side::Buy,
        confidence: (SCALE - total) as u64,
        price,
        size: (budget * price / (SCALE as int)) as u64,
    }
}

/// The signals for one market: one Buy per outcome when all prices are known
/// and their sum is below `1 - min_margin`, else none.
pub open spec fn market_signals(
    prices: Map<Seq<char>, u64>,
    market: (String, Vec<String>),
    bankroll: u64,
    min_margin: u64,
    max_pct: u64,
) -> Seq<SignalView> {
    let tokens = market.1@;
    let total = price_sum(prices, tokens);
    if all_priced(prices, tokens) && total + min_margin < SCALE {
        tokens.map_values(|t: String| leg_signal(market.0@, t@, prices[t@], total, leg_budget(bankroll, max_pct)))
    } else {
        Seq::empty()
    }
}

/// The signals for all markets, market by market in order.
pub open spec fn intra_signals(
    prices: Map<Seq<char>, u64>,
    markets: Seq<(String, Vec<String>)>,
    bankroll: u64,
    min_margin: u64,
    max_pct: u64,
) -> Seq<SignalView>
    decreases markets.len(),
{
    if markets.len() == 0 {
        Seq::empty()
    } else {
        intra_signals(prices, markets.drop_last(), bankroll, min_margin, max_pct)
            + market_signals(prices, markets.last(), bankroll, min_margin, max_pct)
    }
}

impl IntraArbStrategy {
    /// An enabled strategy with a 2% margin and a 5% position cap.
    pub fn new(markets: Vec<(String, Vec<String>)>) -> (r: Self)
        ensures
            r.enabled,
            r.markets == markets,
            r.min_margin == 20_000,
            r.max_position_pct == 50_000,
    {
        IntraArbStrategy { enabled: true, markets, min_margin: 20_000, max_position_pct: 50_000 }
    }

    pub open spec fn spec_signals(&self, ctx: &StrategyContext) -> Seq<SignalView> {
        intra_signals(ctx.prices@, self.markets@, ctx.bankroll, self.min_margin, self.max_position_pct)
    }

    pub fn name(&self) -> (r: &'static str)
        ensures
            r@ == "intra_arb"@,
    {
        "intra_arb"
    }

    pub fn enabled(&self) -> (r: bool)
        ensures
            r == self.enabled,
    {
        self.enabled
    }

    pub fn evaluate(&self, ctx: &StrategyContext) -> (r: Vec<Signal>)
        requires
            ctx.wf(),
        ensures
            signals_view(r@) == self.spec_signals(ctx),
    {
        let ghost prices = ctx.prices@;
        let mut signals: Vec<Signal> = Vec::new();
        let mut k: usize = 0;
        while k < self.markets.len()
            invariant
                ctx.wf(),
                prices == ctx.prices@,
                k <= self.markets@.len(),
                signals_view(signals@) == intra_signals(
                    prices,
                    self.markets@.subrange(0, k as int),
                    ctx.bankroll,
                    self.min_margin,
                    self.max_position_pct,
                ),
            decreases self.markets@.len() - k,
        {
            let market = &self.markets[k];
            let tokens = &market.1;
            let ghost ts = tokens@;
            let mut known: Vec<u64> = Vec::new();
            let mut total: u128 = 0;
            let mut complete = true;
            let mut j: usize = 0;
            while complete && j < tokens.len()
                invariant
                    ctx.wf(),
                    prices == ctx.prices@,
                    ts == tokens@,
                    j <= ts.len(),
                    !complete ==> j < ts.len() && !prices.contains_key(ts[j as int]@),
                    known@.len() == j,
                    forall|i: int| 0 <= i < j ==> prices.contains_key(#[trigger] ts[i]@) && known@[i] == prices[ts[i]@],
                    total == price_sum(prices, ts.subrange(0, j as int)),
                    total <= j * u64::MAX,
                decreases ts.len() - j + (if complete { 1int } else { 0int }),
            {
                match ctx.prices.get(tokens[j].as_str()) {
                    Some(p) => {
                        let p = *p;
                        assert(ts.subrange(0, j + 1).drop_last() =~= ts.subrange(0, j as int));
                        known.push(p);
                        total = total + p as u128;
                        j = j + 1;
                    },
                    None => {
                        complete = false;
                    },
                }
            }
            let ghost all = all_priced(prices, ts);
            assert(complete ==> ts.subrange(0, j as int) =~= ts);
            let ghost sum = price_sum(prices, ts);
            assert(self.markets@.subrange(0, k + 1).drop_last() =~= self.markets@.subrange(0, k as int));
            if complete && total + (self.min_margin as u128) < SCALE as u128 {
                let budget = leg_budget_of(ctx.bankroll, self.max_position_pct);
                let confidence: u64 = (SCALE as u128 - total) as u64;
                let ghost before = signals_view(signals@);
                let mut j2: usize = 0;
                while j2 < known.len()
                    invariant
                        ctx.wf(),
                        prices == ctx.prices@,
                        ts == tokens@,
                        known@.len() == ts.len(),
                        forall|i: int| 0 <= i < ts.len() ==> prices.contains_key(#[trigger] ts[i]@) && known@[i] == prices[ts[i]@],
                        j2 <= ts.len(),
                        total == sum,
                        sum == price_sum(prices, ts),
                        sum + self.min_margin < SCALE,
                        budget == leg_budget(ctx.bankroll, self.max_position_pct),
                        confidence == SCALE - sum,
                        signals_view(signals@) == before + ts.subrange(0, j2 as int).map_values(
                            |t: String| leg_signal(market.0@, t@, prices[t@], sum, leg_budget(ctx.bankroll, self.max_position_pct)),
                        ),
                    decreases ts.len() - j2,
                {
                    let price = known[j2];
                    proof {
                        lemma_price_le_sum(prices, ts, j2 as int);
                    }
                    assert(budget as int * price as int <= budget as int * 1_000_000) by (nonlinear_arith)
                        requires price <= 1_000_000;
                    let size: u64 = ((budget as u128) * (price as u128) / (SCALE as u128)) as u64;
                    assert(size <= budget) by (nonlinear_arith)
                        requires size == budget * price / 1_000_000, price <= 1_000_000;
                    let ghost prev = signals@;
                    let sig = Signal {
                        strategy: owned(self.name()),
                        market_id: market.0.clone(),
                        token_id: tokens[j2].clone(),
                        side: Side::Buy,
                        confidence,
                        price,
                        size,
                    };
                    assert(sig@ == leg_signal(market.0@, ts[j2 as int]@, prices[ts[j2 as int]@], sum, leg_budget(ctx.bankroll, self.max_position_pct)));
                    signals.push(sig);
                    assert(signals_view(signals@) =~= signals_view(prev).push(sig@));
                    assert(ts.subrange(0, j2 + 1) =~= ts.subrange(0, j2 as int).push(ts[j2 as int]));
                    assert(signals_view(signals@) =~= before + ts.subrange(0, j2 + 1).map_values(
                        |t: String| leg_signal(market.0@, t@, prices[t@], sum, leg_budget(ctx.bankroll, self.max_position_pct)),
                    ));
                    j2 = j2 + 1;
                }
                assert(ts.subrange(0, ts.len() as int) =~= ts);
            } else {
                assert(!complete ==> !all);
            }
            k = k + 1;
        }
        assert(self.markets@.subrange(0, self.markets@.len() as int) =~= self.markets@);
        signals
    }
}

/// One known price is at most the sum of all of them.
proof fn lemma_price_le_sum(prices: Map<Seq<char>, u64>, ts: Seq<String>, i: int)
    requires
        0 <= i < ts.len(),
        all_priced(prices, ts),
    ensures
        prices[ts[i]@] <= price_sum(prices, ts),
    decreases ts.len(),
{
    let init = ts.drop_last();
    assert forall|k: int| 0 <= k < init.len() implies prices.contains_key(#[trigger] init[k]@) by {
        assert(init[k] == ts[k]);
    }
    lemma_sum_nonneg(prices, init);
    if i < ts.len() - 1 {
        assert(init[i] == ts[i]);
        lemma_price_le_sum(prices, init, i);
    }
}

proof fn lemma_sum_nonneg(prices: Map<Seq<char>, u64>, ts: Seq<String>)
    ensures
        price_sum(prices, ts) >= 0,
    decreases ts.len(),
{
    if ts.len() > 0 {
        lemma_sum_nonneg(prices, ts.drop_last());
    }
}

fn leg_budget_of(bankroll: u64, max_pct: u64) -> (r: u64)
    ensures
        r == leg_budget(bankroll, max_pct),
{
    assert(bankroll as int * max_pct as int <= u64::MAX as int * u64::MAX as int) by (nonlinear_arith);
    let a: u128 = (bankroll as u128) * (max_pct as u128) / (SCALE as u128);
    assert(bankroll as int * 100_000 <= u64::MAX as int * 100_000) by (nonlinear_arith);
    let b: u128 = (bankroll as u128) * (LEG_CAP_PCT as u128) / (SCALE as u128);
    assert(b <= bankroll) by (nonlinear_arith)
        requires b == bankroll * 100_000 / 1_000_000;
    if a < b { a as u64 } else { b as u64 }
}

} // verus!
