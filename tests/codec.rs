use polymarket_bot::domain::{BookLevel, MarketData, OrderBook, OrderStatus, OrderType, Position, Side, Trade};
use polymarket_bot::fixed::parse_fixed;
use polymarket_bot::normalize::{normalize_ticker, normalize_ws_message, parse_levels, RawLevel, SpotTicker, WsMessage};
use polymarket_bot::order_manager::order_from_signal;
use polymarket_bot::domain::Signal;
use polymarket_bot::domain::Order;
use polymarket_bot::store::{position_write, OrderRow, PositionWrite};

const ONE: u64 = 1_000_000;

#[test]
fn parse_fixed_reads_decimals() {
    assert_eq!(parse_fixed("0.48"), Some(480_000));
    assert_eq!(parse_fixed("105000"), Some(105_000 * ONE));
    assert_eq!(parse_fixed("105000.25"), Some(105_000 * ONE + 250_000));
    assert_eq!(parse_fixed(".5"), Some(500_000));
    assert_eq!(parse_fixed("7."), Some(7 * ONE));
    assert_eq!(parse_fixed("0.1234567"), Some(123_456));
    assert_eq!(parse_fixed("0"), Some(0));
}

#[test]
fn parse_fixed_rejects_other_text() {
    assert_eq!(parse_fixed(""), None);
    assert_eq!(parse_fixed("."), None);
    assert_eq!(parse_fixed("-1"), None);
    assert_eq!(parse_fixed("1.2.3"), None);
    assert_eq!(parse_fixed("abc"), None);
    assert_eq!(parse_fixed("1e5"), None);
    assert_eq!(parse_fixed("18446744073709551616"), None);
    assert_eq!(parse_fixed("18446744073710"), None);
    assert_eq!(parse_fixed("18446744073709"), Some(18_446_744_073_709 * ONE));
}

#[test]
fn enumerations_round_trip_through_their_text() {
    for s in [Side::Buy, Side::Sell] {
        assert_eq!(Side::from_text(s.as_str()), s);
    }
    for t in [OrderType::GTC, OrderType::GTD, OrderType::FOK] {
        assert_eq!(OrderType::from_text(t.as_str()), t);
    }
    for s in [OrderStatus::Pending, OrderStatus::Open, OrderStatus::Filled, OrderStatus::Cancelled, OrderStatus::Failed] {
        assert_eq!(OrderStatus::from_text(s.as_str()), s);
    }
    assert_eq!(Side::Buy.as_str(), "BUY");
    assert_eq!(OrderStatus::Cancelled.as_str(), "CANCELLED");
}

#[test]
fn unknown_text_reads_as_the_defaults() {
    assert_eq!(OrderType::from_text("XYZ"), OrderType::GTC);
    assert_eq!(OrderStatus::from_text("weird"), OrderStatus::Pending);
    assert_eq!(Side::from_text("buy"), Side::Sell);
}

#[test]
fn lifecycle_moves() {
    assert!(OrderStatus::Pending.can_move_to(OrderStatus::Open));
    assert!(OrderStatus::Pending.can_move_to(OrderStatus::Failed));
    assert!(!OrderStatus::Pending.can_move_to(OrderStatus::Filled));
    assert!(OrderStatus::Open.can_move_to(OrderStatus::Cancelled));
    assert!(!OrderStatus::Open.can_move_to(OrderStatus::Pending));
    assert!(!OrderStatus::Filled.can_move_to(OrderStatus::Open));
    assert!(OrderStatus::Failed.is_terminal());
    assert!(!OrderStatus::Open.is_terminal());
}

#[test]
fn order_row_round_trip() {
    let sig = Signal {
        strategy: "s".to_string(),
        market_id: "m".to_string(),
        token_id: "t".to_string(),
        side: Side::Sell,
        confidence: 1,
        price: 420_000,
        size: 3 * ONE,
    };
    let mut o = order_from_signal(&sig, "id-1".to_string(), 1_700_000_000_000);
    o.status = OrderStatus::Open;
    let row: OrderRow = o.to_row();
    assert_eq!(row.side, "SELL");
    assert_eq!(row.status, "OPEN");
    assert_eq!(row.order_type, "GTC");
    let back = Order::from_row(&row);
    assert_eq!(back.id, o.id);
    assert_eq!(back.market_id, o.market_id);
    assert_eq!(back.token_id, o.token_id);
    assert_eq!(back.side, o.side);
    assert_eq!(back.price, o.price);
    assert_eq!(back.size, o.size);
    assert_eq!(back.order_type, o.order_type);
    assert_eq!(back.status, o.status);
    assert_eq!(back.created_at, o.created_at);
}

#[test]
fn trade_row_round_trip() {
    let t = Trade {
        id: "t".to_string(),
        order_id: "o".to_string(),
        market_id: "m".to_string(),
        side: Side::Buy,
        price: 1,
        size: 2,
        fee: 3,
        timestamp: 4,
    };
    let back = Trade::from_row(&t.to_row());
    assert_eq!((back.id, back.order_id, back.side, back.price, back.size, back.fee, back.timestamp),
        (t.id, t.order_id, t.side, t.price, t.size, t.fee, t.timestamp));
}

#[test]
fn zero_position_is_deleted_and_others_upserted() {
    let mut p = Position {
        market_id: "m".to_string(),
        token_id: "t".to_string(),
        side: Side::Buy,
        size: 0,
        avg_price: 500_000,
        current_price: 500_000,
        pnl: -5,
    };
    match position_write(&p) {
        PositionWrite::Delete { market_id, token_id } => {
            assert_eq!(market_id, "m");
            assert_eq!(token_id, "t");
        }
        PositionWrite::Upsert(_) => panic!("a zero position is not stored"),
    }
    p.size = 2 * ONE;
    match position_write(&p) {
        PositionWrite::Upsert(row) => {
            assert_eq!(row.size, 2 * ONE);
            assert_eq!(row.side, "BUY");
            assert_eq!(row.pnl, -5);
            let again = Position::from_row(&row);
            assert_eq!(again.size, p.size);
            assert_eq!(again.side, p.side);
        }
        PositionWrite::Delete { .. } => panic!("a held position is stored"),
    }
}

#[test]
fn book_midpoint_and_spread() {
    let book = OrderBook {
        bids: vec![BookLevel { price: 480_000, size: 10 }],
        asks: vec![BookLevel { price: 520_000, size: 10 }],
        timestamp: 0,
    };
    assert_eq!(book.midpoint(), Some(500_000));
    assert_eq!(book.spread(), Some(40_000));
    let empty = OrderBook { bids: vec![], asks: book.asks.clone(), timestamp: 0 };
    assert_eq!(empty.midpoint(), None);
    assert_eq!(empty.spread(), None);
}

fn ws(kind: &str) -> WsMessage {
    WsMessage {
        msg_type: Some(kind.to_string()),
        market: Some("m".to_string()),
        asset_id: Some("tok".to_string()),
        price: Some("0.55".to_string()),
        bids: Some(vec![
            RawLevel { price: "0.54".to_string(), size: "100".to_string() },
            RawLevel { price: "bad".to_string(), size: "1".to_string() },
        ]),
        asks: None,
    }
}

#[test]
fn venue_price_message_becomes_a_price_event() {
    match normalize_ws_message(&ws("price")) {
        Some(MarketData::PolymarketPrice { market_id, token_id, price, .. }) => {
            assert_eq!(market_id, "m");
            assert_eq!(token_id, "tok");
            assert_eq!(price, 550_000);
        }
        other => panic!("unexpected {:?}", other),
    }
}

#[test]
fn venue_book_message_keeps_readable_levels() {
    match normalize_ws_message(&ws("book")) {
        Some(MarketData::PolymarketOrderBook { token_id, book, .. }) => {
            assert_eq!(token_id, "tok");
            assert_eq!(book.bids, vec![BookLevel { price: 540_000, size: 100 * ONE }]);
            assert!(book.asks.is_empty());
        }
        other => panic!("unexpected {:?}", other),
    }
}

#[test]
fn other_venue_messages_give_nothing() {
    assert!(normalize_ws_message(&ws("tick_size_change")).is_none());
    let mut m = ws("price");
    m.price = Some("n/a".to_string());
    assert!(normalize_ws_message(&m).is_none());
    m.msg_type = None;
    assert!(normalize_ws_message(&m).is_none());
}

#[test]
fn spot_ticker_becomes_a_ticker_event() {
    let t = SpotTicker { symbol: "BTCUSDT".to_string(), last_price: "105000.50".to_string() };
    match normalize_ticker(&t) {
        Some(MarketData::BinanceTicker { symbol, price, .. }) => {
            assert_eq!(symbol, "BTCUSDT");
            assert_eq!(price, 105_000 * ONE + 500_000);
        }
        other => panic!("unexpected {:?}", other),
    }
    assert!(normalize_ticker(&SpotTicker { symbol: "X".to_string(), last_price: "".to_string() }).is_none());
}

#[test]
fn parse_levels_drops_unreadable_levels() {
    let levels = vec![
        RawLevel { price: "0.1".to_string(), size: "5".to_string() },
        RawLevel { price: "0.2".to_string(), size: "x".to_string() },
        RawLevel { price: "0.3".to_string(), size: "7.5".to_string() },
    ];
    assert_eq!(
        parse_levels(&levels),
        vec![BookLevel { price: 100_000, size: 5 * ONE }, BookLevel { price: 300_000, size: 7_500_000 }]
    );
}

#[test]
fn position_write_is_the_same_for_identical_input() {
    let p = Position {
        market_id: "m".to_string(),
        token_id: "t".to_string(),
        side: Side::Sell,
        size: 4 * ONE,
        avg_price: 250_000,
        current_price: 300_000,
        pnl: 200_000,
    };
    let row = |w: PositionWrite| match w {
        PositionWrite::Upsert(r) => (r.market_id, r.token_id, r.side, r.size, r.avg_price, r.current_price, r.pnl),
        PositionWrite::Delete { .. } => panic!("a held position is stored"),
    };
    assert_eq!(row(position_write(&p)), row(position_write(&p.clone())));
}
