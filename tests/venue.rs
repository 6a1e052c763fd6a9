use polymarket_bot::config::{Config, RiskConfig};
use polymarket_bot::domain::{OrderType, Side};
use polymarket_bot::reconnect::{poll_tick, reconnect_delay, rest_symbol, stream_path, ticker_streams, PollStep};
use polymarket_bot::venue::{auth_headers, order_request, sign, SignError};

fn config(secret: &str) -> Config {
    Config {
        private_key: "0xabc".to_string(),
        polymarket_api_key: "key".to_string(),
        polymarket_secret: secret.to_string(),
        polymarket_passphrase: "pass".to_string(),
        risk: RiskConfig::default(),
        db_path: "bot.db".to_string(),
        dashboard_port: 3001,
    }
}

#[test]
fn sign_matches_a_known_hmac_sha256_vector() {
    // key "Jefe", message "what do ya want for nothing?"
    let sig = sign("SmVmZQ==", "what do ya want ", "for ", "nothing?", "").unwrap();
    assert_eq!(sig, "W9zBRr9gdU5qBCQmCJV1x1oAPwidJzmDnexYuWTsOEM=");
}

#[test]
fn sign_rejects_a_secret_that_is_not_base64() {
    assert_eq!(sign("not base64!", "1", "GET", "/orders", ""), Err(SignError::InvalidSecret));
}

#[test]
fn auth_headers_carry_identity_and_signature() {
    let h = auth_headers(&config("SmVmZQ=="), "what do ya want ", "for ", "nothing?", "").unwrap();
    let names: Vec<&str> = h.iter().map(|(k, _)| k.as_str()).collect();
    assert_eq!(names, vec!["POLY-ADDRESS", "POLY-SIGNATURE", "POLY-TIMESTAMP", "POLY-API-KEY", "POLY-PASSPHRASE"]);
    assert_eq!(h[0].1, "0xabc");
    assert_eq!(h[1].1, "W9zBRr9gdU5qBCQmCJV1x1oAPwidJzmDnexYuWTsOEM=");
    assert_eq!(h[2].1, "what do ya want ");
    assert_eq!(h[3].1, "key");
    assert_eq!(h[4].1, "pass");
    assert!(auth_headers(&config("%%%"), "1", "GET", "/", "").is_err());
}

#[test]
fn order_request_uses_venue_spelling() {
    let r = order_request("tok", 480_000, 25_000_000, Side::Sell, OrderType::FOK);
    assert_eq!(r.token_id, "tok");
    assert_eq!(r.side, "SELL");
    assert_eq!(r.order_type, "FOK");
    assert_eq!(r.price, 480_000);
    assert_eq!(r.size, 25_000_000);
    assert!(r.fee_rate_bps.is_none());
}

#[test]
fn backoff_doubles_up_to_the_cap_and_resets() {
    assert_eq!(reconnect_delay(1_000, false), (1_000, 2_000));
    assert_eq!(reconnect_delay(16_000, false), (16_000, 30_000));
    assert_eq!(reconnect_delay(30_000, false), (30_000, 30_000));
    assert_eq!(reconnect_delay(30_000, true), (1_000, 2_000));
}

#[test]
fn polling_gives_up_after_thirty_failures() {
    let mut failures = 0u32;
    let mut ticks = 0;
    loop {
        ticks += 1;
        match poll_tick(failures, false) {
            PollStep::Continue(n) => failures = n,
            PollStep::GiveUp => break,
        }
    }
    assert_eq!(ticks, 30);
    assert_eq!(poll_tick(12, true), PollStep::Continue(0));
}

#[test]
fn stream_path_lowercases_and_joins() {
    let p = stream_path(&vec!["BTCUSDT".to_string(), "EthUsdt".to_string()]);
    assert_eq!(p, "btcusdt@ticker/ethusdt@ticker");
    assert_eq!(ticker_streams(&vec!["a".to_string()]), "a@ticker");
    assert_eq!(stream_path(&vec![]), "");
    assert_eq!(rest_symbol("btcusdt"), "BTCUSDT");
}
