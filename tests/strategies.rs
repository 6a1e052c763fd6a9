use polymarket_bot::domain::{Position, Side};
use polymarket_bot::intra_arb::IntraArbStrategy;
use polymarket_bot::latency_arb::LatencyArbStrategy;
use polymarket_bot::strategy::{Strategy, StrategyContext};

const ONE: u64 = 1_000_000;

fn latency() -> LatencyArbStrategy {
    LatencyArbStrategy::new(
        "mkt".to_string(),
        "yes".to_string(),
        "no".to_string(),
        "BTCUSDT".to_string(),
        100_000 * ONE,
    )
}

fn context(bankroll: u64, spot: u64, yes: u64) -> StrategyContext {
    let mut ctx = StrategyContext::new(bankroll);
    ctx.binance_prices.insert("BTCUSDT".to_string(), spot);
    ctx.prices.insert("yes".to_string(), yes);
    ctx
}

#[test]
fn latency_arb_buys_yes_when_spot_is_above_threshold() {
    let s = latency();
    let ctx = context(500 * ONE, 105_000 * ONE, 500_000);
    let signals = s.evaluate(&ctx);
    assert_eq!(signals.len(), 1);
    let sig = &signals[0];
    assert_eq!(sig.side, Side::Buy);
    assert_eq!(sig.strategy, "latency_arb");
    assert_eq!(sig.market_id, "mkt");
    assert_eq!(sig.token_id, "yes");
    assert_eq!(sig.confidence, 750_000);
    assert_eq!(sig.price, 500_000);
    assert_eq!(sig.size, 25 * ONE);
}

#[test]
fn latency_arb_is_silent_when_yes_is_already_expensive() {
    let s = latency();
    let ctx = context(500 * ONE, 105_000 * ONE, 950_000);
    assert!(s.evaluate(&ctx).is_empty());
}

#[test]
fn latency_arb_sells_yes_when_spot_is_below_threshold() {
    let s = latency();
    let ctx = context(500 * ONE, 95_000 * ONE, 500_000);
    let signals = s.evaluate(&ctx);
    assert_eq!(signals.len(), 1);
    assert_eq!(signals[0].side, Side::Sell);
    assert_eq!(signals[0].price, 500_000);
    assert_eq!(signals[0].confidence, 750_000);
    assert_eq!(signals[0].size, 25 * ONE);
}

#[test]
fn latency_arb_waits_for_both_prices() {
    let s = latency();
    let mut ctx = StrategyContext::new(500 * ONE);
    ctx.binance_prices.insert("BTCUSDT".to_string(), 105_000 * ONE);
    assert!(s.evaluate(&ctx).is_empty());
}

#[test]
fn latency_arb_skips_a_market_already_held() {
    let s = latency();
    let mut ctx = context(500 * ONE, 105_000 * ONE, 500_000);
    ctx.positions.push(Position {
        market_id: "mkt".to_string(),
        token_id: "yes".to_string(),
        side: Side::Buy,
        size: 3 * ONE,
        avg_price: 400_000,
        current_price: 500_000,
        pnl: 0,
    });
    assert!(s.evaluate(&ctx).is_empty());
}

#[test]
fn latency_arb_ignores_a_small_edge() {
    let s = latency();
    let ctx = context(500 * ONE, 101_000 * ONE, 500_000);
    assert!(s.evaluate(&ctx).is_empty());
}

#[test]
fn kelly_size_is_zero_outside_the_unit_interval() {
    let s = latency();
    assert_eq!(s.kelly_size(750_000, 0, 500 * ONE), 0);
    assert_eq!(s.kelly_size(750_000, ONE, 500 * ONE), 0);
    assert_eq!(s.kelly_size(750_000, 2 * ONE, 500 * ONE), 0);
    assert_eq!(s.kelly_size(0, 500_000, 500 * ONE), 0);
}

#[test]
fn kelly_size_is_half_kelly_under_the_cap() {
    let mut s = latency();
    s.max_position_pct = ONE;
    // f* = (0.75 - 0.5) / (1 - 0.5) = 0.5; half of it on 500 is 125
    assert_eq!(s.kelly_size(750_000, 500_000, 500 * ONE), 125 * ONE);
    // capped at 5% of the bankroll by default
    assert_eq!(latency().kelly_size(750_000, 500_000, 500 * ONE), 25 * ONE);
}

#[test]
fn kelly_size_respects_the_half_kelly_bound() {
    let mut s = latency();
    s.max_position_pct = ONE;
    for &(c, p) in &[(950_000u64, 100_000u64), (600_000, 500_000), (990_000, 900_000), (ONE, 10_000)] {
        let size = s.kelly_size(c, p, 500 * ONE) as u128;
        assert!(size * 2 * (p as u128) <= 500 * (ONE as u128) * (ONE as u128));
    }
}

#[test]
fn intra_arb_buys_every_outcome_of_an_underpriced_market() {
    let s = IntraArbStrategy::new(vec![("m".to_string(), vec!["a".to_string(), "b".to_string()])]);
    let mut ctx = StrategyContext::new(500 * ONE);
    ctx.prices.insert("a".to_string(), 480_000);
    ctx.prices.insert("b".to_string(), 480_000);
    let signals = s.evaluate(&ctx);
    assert_eq!(signals.len(), 2);
    for (sig, tok) in signals.iter().zip(["a", "b"]) {
        assert_eq!(sig.side, Side::Buy);
        assert_eq!(sig.token_id, tok);
        assert_eq!(sig.market_id, "m");
        assert_eq!(sig.price, 480_000);
        // min(0.05 * 500, 0.10 * 500) * 0.48 = 12
        assert_eq!(sig.size, 12 * ONE);
        assert_eq!(sig.confidence, 40_000);
        assert_eq!(sig.strategy, "intra_arb");
    }
}

#[test]
fn intra_arb_skips_a_market_with_a_missing_price() {
    let s = IntraArbStrategy::new(vec![("m".to_string(), vec!["a".to_string(), "b".to_string()])]);
    let mut ctx = StrategyContext::new(500 * ONE);
    ctx.prices.insert("a".to_string(), 300_000);
    assert!(s.evaluate(&ctx).is_empty());
}

#[test]
fn intra_arb_needs_the_margin() {
    let s = IntraArbStrategy::new(vec![("m".to_string(), vec!["a".to_string(), "b".to_string()])]);
    let mut ctx = StrategyContext::new(500 * ONE);
    ctx.prices.insert("a".to_string(), 490_000);
    ctx.prices.insert("b".to_string(), 495_000);
    assert!(s.evaluate(&ctx).is_empty());
}

#[test]
fn disabled_strategy_reports_its_flag() {
    let mut s = latency();
    s.enabled = false;
    let st = Strategy::LatencyArb(s);
    assert!(!st.enabled());
    assert_eq!(st.name(), "latency_arb");
    assert_eq!(Strategy::IntraArb(IntraArbStrategy::new(vec![])).name(), "intra_arb");
}
