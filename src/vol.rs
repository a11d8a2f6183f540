use vstd::prelude::*;
use crate::history::HistoryStore;
use crate::series::{ReturnPair, build_return_pairs, return_pairs};

verus! {

/// Seconds in one day: the default sampling interval.
pub const SECONDS_PER_DAY: i64 = 86400;

/// The default window length: ten days.
pub const DEFAULT_WINDOW_SECONDS: i64 = 864000;

/// The least number of returns a volatility estimate needs.
pub const MIN_RETURNS: usize = 2;

/// Why an operation was refused.
#[derive(Clone, Copy, Debug, PartialEq, Eq, Structural)]
pub enum ErrorCode {
    InvalidSwitchboardAccount,
    StaleFeed,
    ConfidenceIntervalExceeded,
    InvalidHistoryBuffer,
    Math,
    NotEnoughData,
}

/// Optional overrides for a volatility computation.
#[derive(Clone, Copy, Debug, PartialEq, Eq, Structural)]
pub struct CalculateVolParams {
    /// Sampling interval in seconds; one day when absent.
    pub interval: Option<i64>,
    /// Window start; ten days before the end when absent.
    pub starttimestamp: Option<i64>,
    /// Window end; the current time when absent.
    pub endtimestamp: Option<i64>,
}

/// A resolved sampling window.
#[derive(Clone, Copy, Debug, PartialEq, Eq, Structural)]
pub struct Window {
    pub start: i64,
    pub end: i64,
    pub interval: i64,
}

pub open spec fn spec_end(params: CalculateVolParams, now: i64) -> int {
    match params.endtimestamp {
        Some(e) => e as int,
        None => now as int,
    }
}

pub open spec fn spec_start(params: CalculateVolParams, now: i64) -> int {
    match params.starttimestamp {
        Some(s) => s as int,
        None => spec_end(params, now) - DEFAULT_WINDOW_SECONDS,
    }
}

pub open spec fn spec_interval(params: CalculateVolParams) -> int {
    match params.interval {
        Some(i) => i as int,
        None => SECONDS_PER_DAY as int,
    }
}

/// The window is representable and its interval positive.
pub open spec fn window_ok(params: CalculateVolParams, now: i64) -> bool {
    &&& spec_start(params, now) >= i64::MIN
    &&& spec_interval(params) > 0
}

/// Fills in the defaults: end at `now`, start ten days before the end,
/// one-day interval. Fails with `Math` when the default start falls below the
/// range of timestamps or the interval is not positive.
pub fn resolve_window(params: CalculateVolParams, now: i64) -> (r: Result<Window, ErrorCode>)
    ensures
        window_ok(params, now) <==> r.is_ok(),
        r matches Ok(w) ==> w.start == spec_start(params, now) && w.end == spec_end(params, now)
            && w.interval == spec_interval(params),
        r matches Err(e) ==> e == ErrorCode::Math,
{
    let end = match params.endtimestamp {
        Some(e) => e,
        None => now,
    };
    let start = match params.starttimestamp {
        Some(s) => s,
        None => match end.checked_sub(DEFAULT_WINDOW_SECONDS) {
            Some(s) => s,
            None => return Err(ErrorCode::Math),
        },
    };
    let interval = match params.interval {
        Some(i) => i,
        None => SECONDS_PER_DAY,
    };
    if interval <= 0 {
        return Err(ErrorCode::Math);
    }
    Ok(Window { start, end, interval })
}

/// Refuses a return series too short to estimate dispersion.
pub fn require_enough_returns(count: usize) -> (r: Result<(), ErrorCode>)
    ensures
        r.is_ok() <==> count >= MIN_RETURNS,
        r matches Err(e) ==> e == ErrorCode::NotEnoughData,
{
    if count < MIN_RETURNS {
        Err(ErrorCode::NotEnoughData)
    } else {
        Ok(())
    }
}

/// The return pairs over the window that `params` and `now` describe, when
/// there are at least two; `Math` for a window that cannot be resolved,
/// `NotEnoughData` for fewer pairs.
pub fn calc_vol_returns(history: &HistoryStore, now: i64, params: CalculateVolParams) -> (r: Result<
    Vec<ReturnPair>,
    ErrorCode,
>)
    requires
        history.wf(),
    ensures
        !window_ok(params, now) ==> r == Err::<Vec<ReturnPair>, ErrorCode>(ErrorCode::Math),
        window_ok(params, now) ==> {
            let pairs = return_pairs(
                history@,
                spec_start(params, now),
                spec_end(params, now),
                spec_interval(params),
            );
            &&& r.is_ok() <==> pairs.len() >= MIN_RETURNS
            &&& r matches Ok(v) ==> v@ == pairs
            &&& r matches Err(e) ==> e == ErrorCode::NotEnoughData
        },
{
    let w = match resolve_window(params, now) {
        Ok(w) => w,
        Err(e) => return Err(e),
    };
    let pairs = build_return_pairs(history, w.start, w.end, w.interval);
    match require_enough_returns(pairs.len()) {
        Ok(()) => Ok(pairs),
        Err(e) => Err(e),
    }
}

/// Whether the estimate at this interval is also reported annualised.
pub fn is_daily(interval: i64) -> (r: bool)
    ensures
        r == (interval == SECONDS_PER_DAY),
{
    interval == SECONDS_PER_DAY
}

} // verus!
