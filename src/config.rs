//! Configuration values of the bot.

use vstd::prelude::*;

verus! {

/// Limits of the risk manager. Fractions (`max_position_pct`,
/// `max_drawdown_pct`) and amounts are fixed-point.
#[derive(Clone, Copy, Debug, PartialEq, Eq, Structural)]
pub struct RiskConfig {
    pub max_position_pct: u64,
    pub max_drawdown_pct: u64,
    pub min_bankroll: u64,
    pub starting_bankroll: u64,
    pub max_exposure: u64,
}

impl Default for RiskConfig {
    /// 5% per position, 30% drawdown, $350 floor, $500 start, $100 exposure.
    fn default() -> (r: Self)
        ensures
            r.max_position_pct == 50_000,
            r.max_drawdown_pct == 300_000,
            r.min_bankroll == 350_000_000,
            r.starting_bankroll == 500_000_000,
            r.max_exposure == 100_000_000,
    {
        RiskConfig {
            max_position_pct: 50_000,
            max_drawdown_pct: 300_000,
            min_bankroll: 350_000_000,
            starting_bankroll: 500_000_000,
            max_exposure: 100_000_000,
        }
    }
}

/// Credentials and settings of one running bot.
#[derive(Clone, Debug)]
pub struct Config {
    pub private_key: String,
    pub polymarket_api_key: String,
    /// Base64 text of the signing secret.
    pub polymarket_secret: String,
    pub polymarket_passphrase: String,
    pub risk: RiskConfig,
    pub db_path: String,
    pub dashboard_port: u16,
}

} // verus!
