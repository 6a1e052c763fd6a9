use polymarket_bot::config::RiskConfig;
use polymarket_bot::domain::{Side, Signal};
use polymarket_bot::risk::RiskManager;

const ONE: u64 = 1_000_000;

fn signal(price: u64, size: u64) -> Signal {
    Signal {
        strategy: "latency_arb".to_string(),
        market_id: "m".to_string(),
        token_id: "t".to_string(),
        side: Side::Buy,
        confidence: 750_000,
        price,
        size,
    }
}

#[test]
fn default_risk_config_values() {
    let c = RiskConfig::default();
    assert_eq!(c.max_position_pct, 50_000);
    assert_eq!(c.max_drawdown_pct, 300_000);
    assert_eq!(c.min_bankroll, 350 * ONE);
    assert_eq!(c.starting_bankroll, 500 * ONE);
    assert_eq!(c.max_exposure, 100 * ONE);
}

#[test]
fn drawdown_trips_the_kill_switch_and_resume_restores() {
    let mut r = RiskManager::new(RiskConfig::default());
    assert!(r.update_bankroll(600 * ONE));
    assert_eq!(r.peak_bankroll(), 600 * ONE);
    assert!(!r.update_bankroll(410 * ONE));
    assert!(!r.is_active());
    assert!(!r.check_signal(&signal(500_000, 10 * ONE), 600 * ONE, 0));
    // a recovered bankroll does not re-enable trading
    assert!(r.update_bankroll(600 * ONE));
    assert!(!r.is_active());
    r.resume();
    assert!(r.is_active());
    assert_eq!(r.peak_bankroll(), 600 * ONE);
}

#[test]
fn min_bankroll_trips_the_kill_switch() {
    let mut r = RiskManager::new(RiskConfig::default());
    assert!(!r.update_bankroll(340 * ONE));
    assert!(!r.is_active());
}

#[test]
fn drawdown_at_the_limit_does_not_trip() {
    let mut r = RiskManager::new(RiskConfig::default());
    assert!(r.update_bankroll(600 * ONE));
    assert!(r.update_bankroll(420 * ONE));
    assert!(r.is_active());
}

#[test]
fn peak_never_falls() {
    let mut r = RiskManager::new(RiskConfig::default());
    let mut last = r.peak_bankroll();
    for b in [450u64, 700, 520, 800, 360, 900] {
        r.update_bankroll(b * ONE);
        assert!(r.peak_bankroll() >= last);
        last = r.peak_bankroll();
    }
    assert_eq!(last, 900 * ONE);
}

#[test]
fn kill_is_sticky_until_resume() {
    let mut r = RiskManager::new(RiskConfig::default());
    r.kill();
    assert!(!r.is_active());
    r.kill();
    assert!(!r.is_active());
    r.resume();
    assert!(r.is_active());
}

#[test]
fn check_signal_limits() {
    let r = RiskManager::new(RiskConfig::default());
    // notional 12.5 <= 25 and exposure 12.5 <= 100
    assert!(r.check_signal(&signal(500_000, 25 * ONE), 500 * ONE, 0));
    // notional 26 > 0.05 * 500
    assert!(!r.check_signal(&signal(ONE, 26 * ONE), 500 * ONE, 0));
    // exposure 90 + 12.5 > 100
    assert!(!r.check_signal(&signal(500_000, 25 * ONE), 500 * ONE, 90 * ONE));
    // exposure 87.5 + 12.5 == 100 is allowed
    assert!(r.check_signal(&signal(500_000, 25 * ONE), 500 * ONE, 87_500_000));
    // bankroll under the minimum
    assert!(!r.check_signal(&signal(500_000, ONE), 349 * ONE, 0));
}
