//! The feeds' reconnect policy: exponential backoff between sessions and the
//! limit on failed polls of the fallback path. The feed loops perform the
//! waits and connections; these functions decide.

use vstd::prelude::*;

verus! {

pub const INITIAL_BACKOFF_MS: u64 = 1_000;

pub const MAX_BACKOFF_MS: u64 = 30_000;

/// Consecutive failed polls after which the fallback gives up.
pub const MAX_POLL_FAILURES: u32 = 30;

/// The wait before reconnecting, and the backoff after it, given the backoff
/// so far and whether the session ended cleanly (a clean end resets it).
pub open spec fn reconnect_spec(backoff: u64, clean: bool) -> (u64, u64) {
    let wait = if clean { INITIAL_BACKOFF_MS } else { backoff };
    let doubled = 2 * wait;
    (wait, if doubled > MAX_BACKOFF_MS { MAX_BACKOFF_MS } else { doubled as u64 })
}

/// Decides the wait before the next session and the backoff after it.
pub fn reconnect_delay(backoff: u64, clean: bool) -> (r: (u64, u64))
    ensures
        r == reconnect_spec(backoff, clean),
{
    let wait = if clean { INITIAL_BACKOFF_MS } else { backoff };
    let next = if wait > MAX_BACKOFF_MS / 2 { MAX_BACKOFF_MS } else { 2 * wait };
    (wait, next)
}

/// Starting from the initial backoff, every wait lies between the initial
/// backoff and the cap, and so does the next backoff.
pub proof fn lemma_backoff_stays_in_range(backoff: u64, clean: bool)
    requires
        INITIAL_BACKOFF_MS <= backoff <= MAX_BACKOFF_MS,
    ensures
        INITIAL_BACKOFF_MS <= reconnect_spec(backoff, clean).0 <= MAX_BACKOFF_MS,
        INITIAL_BACKOFF_MS <= reconnect_spec(backoff, clean).1 <= MAX_BACKOFF_MS,
{
}

/// The outcome of one tick of fallback polling.
#[derive(Clone, Copy, Debug, PartialEq, Eq, Structural)]
pub enum PollStep {
    /// Keep polling, with this many consecutive failures so far.
    Continue(u32),
    /// Stop polling and report an error.
    GiveUp,
}

/// After a tick: a price resets the failure count; a tick without one counts
/// as a failure, and the failure that makes `MAX_POLL_FAILURES` in a row stops
/// the polling.
pub fn poll_tick(failures: u32, got_price: bool) -> (r: PollStep)
    requires
        failures < MAX_POLL_FAILURES,
    ensures
        got_price ==> r == PollStep::Continue(0),
        !got_price && failures + 1 < MAX_POLL_FAILURES ==> r == PollStep::Continue((failures + 1) as u32),
        !got_price && failures + 1 >= MAX_POLL_FAILURES ==> r == PollStep::GiveUp,
{
    if got_price {
        PollStep::Continue(0)
    } else if failures + 1 >= MAX_POLL_FAILURES {
        PollStep::GiveUp
    } else {
        PollStep::Continue(failures + 1)
    }
}

/// What lowercasing a text gives, per Unicode's rules.
pub uninterp spec fn lower_of(s: Seq<char>) -> Seq<char>;

/// What uppercasing a text gives, per Unicode's rules.
pub uninterp spec fn upper_of(s: Seq<char>) -> Seq<char>;

/// Relies on `str::to_lowercase`, whose result depends on the text alone.
#[verifier::external_body]
fn lowercase(s: &str) -> (r: String)
    ensures
        r@ == lower_of(s@),
{
    s.to_lowercase()
}

/// Relies on `str::to_uppercase`, whose result depends on the text alone.
#[verifier::external_body]
fn uppercase(s: &str) -> (r: String)
    ensures
        r@ == upper_of(s@),
{
    s.to_uppercase()
}

/// The ticker stream names (`name@ticker`) of already lowercased symbols,
/// joined by `/`.
pub open spec fn streams_spec(names: Seq<Seq<char>>) -> Seq<char>
    decreases names.len(),
{
    if names.len() == 0 {
        Seq::empty()
    } else {
        let item = names.last() + "@ticker"@;
        if names.len() == 1 { item } else { streams_spec(names.drop_last()) + "/"@ + item }
    }
}

/// The combined-stream path for lowercased symbol names.
pub fn ticker_streams(names: &Vec<String>) -> (r: String)
    ensures
        r@ == streams_spec(names@.map_values(|s: String| s@)),
{
    let ghost all = names@.map_values(|s: String| s@);
    let mut path = String::new();
    let mut i: usize = 0;
    while i < names.len()
        invariant
            i <= names@.len(),
            all == names@.map_values(|s: String| s@),
            path@ == streams_spec(all.subrange(0, i as int)),
        decreases names@.len() - i,
    {
        assert(all.subrange(0, i + 1).drop_last() =~= all.subrange(0, i as int));
        if i > 0 {
            path.append("/");
        }
        path.append(names[i].as_str());
        path.append("@ticker");
        i = i + 1;
    }
    assert(all.subrange(0, all.len() as int) =~= all);
    path
}

/// The combined-stream path that subscribes to the tickers of `symbols`,
/// each lowercased.
pub fn stream_path(symbols: &Vec<String>) -> (r: String)
    ensures
        r@ == streams_spec(symbols@.map_values(|s: String| lower_of(s@))),
{
    let mut names: Vec<String> = Vec::new();
    let mut i: usize = 0;
    while i < symbols.len()
        invariant
            i <= symbols@.len(),
            names@.map_values(|s: String| s@) == symbols@.subrange(0, i as int).map_values(|s: String| lower_of(s@)),
        decreases symbols@.len() - i,
    {
        let ghost prev = names@;
        let low = lowercase(symbols[i].as_str());
        names.push(low);
        assert(names@.map_values(|s: String| s@) =~= prev.map_values(|s: String| s@).push(low@));
        assert(symbols@.subrange(0, i + 1).map_values(|s: String| lower_of(s@)) =~= symbols@.subrange(0, i as int).map_values(
            |s: String| lower_of(s@),
        ).push(lower_of(symbols@[i as int]@)));
        assert(names@.map_values(|s: String| s@) =~= symbols@.subrange(0, i + 1).map_values(|s: String| lower_of(s@)));
        i = i + 1;
    }
    assert(symbols@.subrange(0, symbols@.len() as int) =~= symbols@);
    ticker_streams(&names)
}

/// The symbol as the fallback price endpoint takes it: uppercased.
pub fn rest_symbol(symbol: &str) -> (r: String)
    ensures
        r@ == upper_of(symbol@),
{
    uppercase(symbol)
}

} // verus!
