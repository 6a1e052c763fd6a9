use polymarket_bot::config::RiskConfig;
use polymarket_bot::domain::{MarketData, OrderStatus, OrderType, Position, Side, Signal};
use polymarket_bot::feeds::FeedAggregator;
use polymarket_bot::latency_arb::LatencyArbStrategy;
use polymarket_bot::order_manager::{
    cancellations, estimated_fee, order_from_signal, plan_order, settle, settle_with, total_exposure,
};
use polymarket_bot::risk::RiskManager;
use polymarket_bot::strategy::Strategy;
use polymarket_bot::venue::OrderResponse;

const ONE: u64 = 1_000_000;

fn buy_signal() -> Signal {
    Signal {
        strategy: "latency_arb".to_string(),
        market_id: "mkt".to_string(),
        token_id: "yes".to_string(),
        side: Side::Buy,
        confidence: 750_000,
        price: 500_000,
        size: 25 * ONE,
    }
}

fn accepted() -> Result<OrderResponse, String> {
    Ok(OrderResponse { success: true, order_id: Some("remote-1".to_string()), error_msg: None })
}

#[test]
fn accepted_signal_opens_the_order_and_records_a_trade() {
    let risk = RiskManager::new(RiskConfig::default());
    let order = plan_order(&risk, &buy_signal(), 500 * ONE, &vec![]).expect("admitted");
    assert_eq!(order.status, OrderStatus::Pending);
    assert_eq!(order.order_type, OrderType::GTC);
    assert_eq!(order.token_id, "yes");
    assert_eq!(order.market_id, "mkt");
    assert_eq!(order.price, 500_000);
    assert_eq!(order.size, 25 * ONE);
    assert_eq!(order.id.len(), 36);
    let (status, trade) = settle(&order, &accepted());
    assert_eq!(status, OrderStatus::Open);
    let trade = trade.expect("trade");
    assert_eq!(trade.order_id, order.id);
    assert_ne!(trade.id, order.id);
    // 0.002 * 0.5 * 25 = 0.025
    assert_eq!(trade.fee, 25_000);
}

#[test]
fn rejected_signal_makes_no_order() {
    let mut risk = RiskManager::new(RiskConfig::default());
    risk.kill();
    assert!(plan_order(&risk, &buy_signal(), 500 * ONE, &vec![]).is_none());
}

#[test]
fn venue_rejection_fails_the_order_without_a_trade() {
    let order = order_from_signal(&buy_signal(), "o-1".to_string(), 0);
    let resp = Ok(OrderResponse {
        success: false,
        order_id: None,
        error_msg: Some("insufficient funds".to_string()),
    });
    let (status, trade) = settle_with(&order, &resp, "t-1".to_string(), 5);
    assert_eq!(status, OrderStatus::Failed);
    assert!(trade.is_none());
}

#[test]
fn transport_error_fails_the_order_without_a_trade() {
    let order = order_from_signal(&buy_signal(), "o-1".to_string(), 0);
    let (status, trade) = settle_with(&order, &Err("timeout".to_string()), "t-1".to_string(), 5);
    assert_eq!(status, OrderStatus::Failed);
    assert!(trade.is_none());
}

#[test]
fn settle_with_builds_the_trade() {
    let order = order_from_signal(&buy_signal(), "o-1".to_string(), 7);
    let (status, trade) = settle_with(&order, &accepted(), "t-1".to_string(), 9);
    assert_eq!(status, OrderStatus::Open);
    let t = trade.unwrap();
    assert_eq!(t.id, "t-1");
    assert_eq!(t.order_id, "o-1");
    assert_eq!(t.market_id, "mkt");
    assert_eq!(t.side, Side::Buy);
    assert_eq!(t.price, 500_000);
    assert_eq!(t.size, 25 * ONE);
    assert_eq!(t.timestamp, 9);
}

#[test]
fn exposure_counts_size_times_average_price() {
    let p = |size: u64, avg: u64| Position {
        market_id: "m".to_string(),
        token_id: "t".to_string(),
        side: Side::Buy,
        size,
        avg_price: avg,
        current_price: avg,
        pnl: 0,
    };
    assert_eq!(total_exposure(&vec![]), 0);
    assert_eq!(total_exposure(&vec![p(10 * ONE, 500_000), p(4 * ONE, 250_000)]), 6 * ONE);
    assert_eq!(total_exposure(&vec![p(u64::MAX, u64::MAX), p(ONE, ONE)]), u64::MAX);
}

#[test]
fn exposure_blocks_an_order() {
    let risk = RiskManager::new(RiskConfig::default());
    let held = vec![Position {
        market_id: "x".to_string(),
        token_id: "t".to_string(),
        side: Side::Buy,
        size: 180 * ONE,
        avg_price: 500_000,
        current_price: 500_000,
        pnl: 0,
    }];
    assert!(plan_order(&risk, &buy_signal(), 500 * ONE, &held).is_none());
}

#[test]
fn fee_is_twenty_basis_points() {
    assert_eq!(estimated_fee(500_000, 25 * ONE), 25_000);
    assert_eq!(estimated_fee(ONE, 100 * ONE), 200_000);
    assert_eq!(estimated_fee(0, 100 * ONE), 0);
}

#[test]
fn cancel_all_picks_pending_and_open_orders() {
    let mut a = order_from_signal(&buy_signal(), "a".to_string(), 0);
    let mut b = order_from_signal(&buy_signal(), "b".to_string(), 0);
    let mut c = order_from_signal(&buy_signal(), "c".to_string(), 0);
    a.status = OrderStatus::Open;
    b.status = OrderStatus::Filled;
    c.status = OrderStatus::Pending;
    let ids = cancellations(&vec![a.clone(), b.clone(), c.clone()]);
    assert_eq!(ids, vec!["a".to_string(), "c".to_string()]);
    // once cancelled, nothing is left to cancel
    a.status = OrderStatus::Cancelled;
    c.status = OrderStatus::Cancelled;
    assert!(cancellations(&vec![a, b, c]).is_empty());
}

#[test]
fn aggregator_feeds_strategies_the_updated_state() {
    let strat = LatencyArbStrategy::new(
        "mkt".to_string(),
        "yes".to_string(),
        "no".to_string(),
        "BTCUSDT".to_string(),
        100_000 * ONE,
    );
    let mut agg = FeedAggregator::new(vec![Strategy::LatencyArb(strat)], 500 * ONE);
    let first = agg.handle_event(
        MarketData::PolymarketPrice {
            market_id: "mkt".to_string(),
            token_id: "yes".to_string(),
            price: 500_000,
            timestamp: 1,
        },
        500 * ONE,
    );
    assert!(first.is_empty());
    let second = agg.handle_event(
        MarketData::BinanceTicker { symbol: "BTCUSDT".to_string(), price: 105_000 * ONE, timestamp: 2 },
        500 * ONE,
    );
    assert_eq!(second.len(), 1);
    assert_eq!(second[0].size, 25 * ONE);
    // a later price for the same token replaces the earlier one
    let third = agg.handle_event(
        MarketData::PolymarketPrice {
            market_id: "mkt".to_string(),
            token_id: "yes".to_string(),
            price: 950_000,
            timestamp: 3,
        },
        500 * ONE,
    );
    assert!(third.is_empty());
    assert_eq!(agg.ctx.prices.get("yes"), Some(&950_000));
    assert_eq!(agg.ctx.binance_prices.get("BTCUSDT"), Some(&(105_000 * ONE)));
}

#[test]
fn aggregators_fed_the_same_events_agree() {
    let events = || {
        vec![
            MarketData::BinanceTicker { symbol: "BTCUSDT".to_string(), price: 95_000 * ONE, timestamp: 1 },
            MarketData::PolymarketPrice {
                market_id: "mkt".to_string(),
                token_id: "yes".to_string(),
                price: 400_000,
                timestamp: 2,
            },
            MarketData::BinanceTicker { symbol: "BTCUSDT".to_string(), price: 106_000 * ONE, timestamp: 3 },
        ]
    };
    let run = || {
        let strat = LatencyArbStrategy::new(
            "mkt".to_string(),
            "yes".to_string(),
            "no".to_string(),
            "BTCUSDT".to_string(),
            100_000 * ONE,
        );
        let mut agg = FeedAggregator::new(vec![Strategy::LatencyArb(strat)], 500 * ONE);
        events()
            .into_iter()
            .map(|e| agg.handle_event(e, 500 * ONE).iter().map(|s| (s.side, s.price, s.size)).collect::<Vec<_>>())
            .collect::<Vec<_>>()
    };
    let a = run();
    assert_eq!(a, run());
    assert_eq!(a[0].len(), 0);
    assert_eq!(a[1], vec![(Side::Sell, 400_000, 25 * ONE)]);
    assert_eq!(a[2], vec![(Side::Buy, 400_000, 25 * ONE)]);
}
