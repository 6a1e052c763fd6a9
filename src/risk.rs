//! The risk manager: the trading switch, the bankroll's peak and the
//! admission of signals.

use vstd::prelude::*;
use crate::config::RiskConfig;
use crate::domain::Signal;
use crate::fixed::SCALE;

verus! {

/// What the risk manager holds, as a mathematical value.
pub struct RiskState {
    pub config: RiskConfig,
    pub peak: u64,
    pub active: bool,
}

/// The operations that change a risk manager.
pub enum RiskEvent {
    Bankroll(u64),
    Kill,
    Resume,
}

/// Whether `bankroll` is more than `max_drawdown_pct` below `peak`.
pub open spec fn drawdown_exceeded(peak: u64, bankroll: u64, max_drawdown_pct: u64) -> bool {
    peak > 0 && (peak - bankroll) * SCALE > max_drawdown_pct * peak
}

/// Whether trading must halt at this bankroll, given the new peak.
pub open spec fn must_halt(config: RiskConfig, peak: u64, bankroll: u64) -> bool {
    bankroll < config.min_bankroll || drawdown_exceeded(peak, bankroll, config.max_drawdown_pct)
}

/// The state after one event.
pub open spec fn risk_step(s: RiskState, e: RiskEvent) -> RiskState {
    match e {
        RiskEvent::Bankroll(b) => {
            let peak = if b > s.peak { b } else { s.peak };
            RiskState {
                config: s.config,
                peak,
                active: s.active && !must_halt(s.config, peak, b),
            }
        },
        RiskEvent::Kill => RiskState { active: false, ..s },
        RiskEvent::Resume => RiskState { active: true, ..s },
    }
}

/// The state after a sequence of events, applied in order.
pub open spec fn risk_run(s: RiskState, es: Seq<RiskEvent>) -> RiskState
    decreases es.len(),
{
    if es.len() == 0 {
        s
    } else {
        risk_step(risk_run(s, es.drop_last()), es.last())
    }
}

/// The notional of a signal, `size * price`, in units of `SCALE * SCALE`.
pub open spec fn notional(size: u64, price: u64) -> int {
    size * price
}

/// Whether the risk manager in state `s` admits a signal of this size and
/// price, at this bankroll and total exposure.
pub open spec fn admits(s: RiskState, size: u64, price: u64, bankroll: u64, exposure: u64) -> bool {
    &&& s.active
    &&& bankroll >= s.config.min_bankroll
    &&& notional(size, price) <= bankroll * s.config.max_position_pct
    &&& exposure * SCALE + notional(size, price) <= s.config.max_exposure * SCALE
}

pub struct RiskManager {
    config: RiskConfig,
    peak_bankroll: u64,
    trading_active: bool,
}

impl View for RiskManager {
    type V = RiskState;

    closed spec fn view(&self) -> RiskState {
        RiskState {
            config: self.config,
            peak: self.peak_bankroll,
            active: self.trading_active,
        }
    }
}

impl RiskManager {
    /// Starts active, with the peak at the starting bankroll.
    pub fn new(config: RiskConfig) -> (r: Self)
        ensures
            r@ == (RiskState { config, peak: config.starting_bankroll, active: true }),
    {
        RiskManager { config, peak_bankroll: config.starting_bankroll, trading_active: true }
    }

    pub fn config(&self) -> (r: RiskConfig)
        ensures
            r == self@.config,
    {
        self.config
    }

    pub fn peak_bankroll(&self) -> (r: u64)
        ensures
            r == self@.peak,
    {
        self.peak_bankroll
    }

    /// Raises the peak to `current_bankroll` if it is higher, and halts
    /// trading on a bankroll under the minimum or past the drawdown limit.
    /// Returns whether trading may go on at this bankroll.
    pub fn update_bankroll(&mut self, current_bankroll: u64) -> (r: bool)
        ensures
            final(self)@ == risk_step(old(self)@, RiskEvent::Bankroll(current_bankroll)),
            r == !must_halt(old(self)@.config, final(self)@.peak, current_bankroll),
    {
        if current_bankroll > self.peak_bankroll {
            self.peak_bankroll = current_bankroll;
        }
        if current_bankroll < self.config.min_bankroll {
            self.trading_active = false;
            return false;
        }
        let peak = self.peak_bankroll;
        let lost: u128 = (peak - current_bankroll) as u128;
        assert(lost * (SCALE as u128) <= u64::MAX as int * 1_000_000) by (nonlinear_arith)
            requires lost <= u64::MAX;
        assert(self.config.max_drawdown_pct as int * peak as int <= u64::MAX as int * u64::MAX as int)
            by (nonlinear_arith);
        if peak > 0 && lost * (SCALE as u128) > (self.config.max_drawdown_pct as u128) * (peak as u128) {
            self.trading_active = false;
            return false;
        }
        true
    }

    /// Whether `signal` may be executed now, at this bankroll and total
    /// exposure (both fixed-point amounts).
    pub fn check_signal(&self, signal: &Signal, current_bankroll: u64, total_exposure: u64) -> (r: bool)
        ensures
            r == admits(self@, signal.size, signal.price, current_bankroll, total_exposure),
    {
        if !self.trading_active {
            return false;
        }
        if current_bankroll < self.config.min_bankroll {
            return false;
        }
        let size = signal.size;
        let price = signal.price;
        assert(size as int * price as int <= u64::MAX as int * u64::MAX as int) by (nonlinear_arith);
        assert(current_bankroll as int * self.config.max_position_pct as int
            <= u64::MAX as int * u64::MAX as int) by (nonlinear_arith);
        let cost: u128 = (size as u128) * (price as u128);
        if cost > (current_bankroll as u128) * (self.config.max_position_pct as u128) {
            return false;
        }
        assert(cost <= u64::MAX as int * u64::MAX as int);
        assert(total_exposure as int * 1_000_000 <= u64::MAX as int * 1_000_000) by (nonlinear_arith);
        let held: u128 = (total_exposure as u128) * (SCALE as u128);
        let limit: u128 = (self.config.max_exposure as u128) * (SCALE as u128);
        if held > limit || cost > limit - held {
            return false;
        }
        true
    }

    pub fn is_active(&self) -> (r: bool)
        ensures
            r == self@.active,
    {
        self.trading_active
    }

    /// Halts trading, whatever the state.
    pub fn kill(&mut self)
        ensures
            final(self)@ == risk_step(old(self)@, RiskEvent::Kill),
    {
        self.trading_active = false;
    }

    /// Re-enables trading; the peak is kept.
    pub fn resume(&mut self)
        ensures
            final(self)@ == risk_step(old(self)@, RiskEvent::Resume),
    {
        self.trading_active = true;
    }
}

/// The peak bankroll never decreases, whatever the events.
pub proof fn lemma_peak_never_decreases(s: RiskState, es: Seq<RiskEvent>)
    ensures
        risk_run(s, es).peak >= s.peak,
        risk_run(s, es).config == s.config,
    decreases es.len(),
{
    if es.len() > 0 {
        lemma_peak_never_decreases(s, es.drop_last());
    }
}

/// Once trading is halted it stays halted until a `Resume` event: no bankroll
/// update re-enables it.
pub proof fn lemma_halt_is_sticky(s: RiskState, es: Seq<RiskEvent>)
    requires
        !s.active,
        forall|i: int| 0 <= i < es.len() ==> !(#[trigger] es[i] is Resume),
    ensures
        !risk_run(s, es).active,
    decreases es.len(),
{
    if es.len() > 0 {
        assert forall|i: int| 0 <= i < es.drop_last().len() implies !(#[trigger] es.drop_last()[i] is Resume) by {
            assert(es.drop_last()[i] == es[i]);
        }
        lemma_halt_is_sticky(s, es.drop_last());
        assert(!(es[es.len() - 1] is Resume));
    }
}

/// A halted risk manager admits no signal.
pub proof fn lemma_halted_admits_nothing(s: RiskState, size: u64, price: u64, bankroll: u64, exposure: u64)
    requires
        !s.active,
    ensures
        !admits(s, size, price, bankroll, exposure),
{
}

} // verus!
