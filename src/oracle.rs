use vstd::prelude::*;
use vstd::arithmetic::power::pow;
use crate::history::Decimal;
use crate::vol::ErrorCode;
use switchboard_solana::SwitchboardDecimal;

verus! {

/// The default staleness limit, in seconds.
pub const DEFAULT_MAX_STALENESS: i64 = 300;

/// The largest scale a decimal may have to take part in a comparison.
pub const MAX_SCALE: u32 = 28;

/// The largest magnitude of a comparable mantissa: 2^96 - 1.
pub const MAX_MANTISSA: i128 = 0xFFFF_FFFF_FFFF_FFFF_FFFF_FFFF;

/// What the acceptance check reads of a feed's latest confirmed round.
#[derive(Clone, Copy, Debug, PartialEq, Eq, Structural)]
pub struct FeedSnapshot {
    /// When the round that produced the current value opened.
    pub last_update: i64,
    /// The spread of the oracles' answers in that round.
    pub std_deviation: Decimal,
}

/// The decimal fits the 96-bit, scale-28 form in which it is compared.
pub open spec fn comparable(d: Decimal) -> bool {
    d.scale <= MAX_SCALE && -MAX_MANTISSA <= d.mantissa <= MAX_MANTISSA
}

/// `a` is greater in value than `b`: `a.m / 10^a.s > b.m / 10^b.s`.
pub open spec fn value_gt(a: Decimal, b: Decimal) -> bool {
    a.mantissa * pow(10, b.scale as nat) > b.mantissa * pow(10, a.scale as nat)
}

/// Relies on `PartialOrd for switchboard_solana::SwitchboardDecimal` (`>`):
/// both sides become rust_decimal values, compared exactly by value; the
/// conversion panics outside the comparable range.
#[verifier::external_body]
fn decimal_gt(a: Decimal, b: Decimal) -> (r: bool)
    requires
        comparable(a),
        comparable(b),
    ensures
        r == value_gt(a, b),
{
    SwitchboardDecimal::new(a.mantissa, a.scale) > SwitchboardDecimal::new(b.mantissa, b.scale)
}

/// Whether the decimal can take part in a value comparison.
pub fn is_comparable(d: &Decimal) -> (r: bool)
    ensures
        r == comparable(*d),
{
    d.scale <= MAX_SCALE && -MAX_MANTISSA <= d.mantissa && d.mantissa <= MAX_MANTISSA
}

pub open spec fn is_stale(last_update: i64, now: i64, max_staleness: i64) -> bool {
    now - last_update > max_staleness
}

/// Fails with `StaleFeed` when more than `max_staleness` seconds passed since
/// the feed's last update; exactly `max_staleness` seconds is still fresh.
pub fn check_staleness(last_update: i64, now: i64, max_staleness: i64) -> (r: Result<(), ErrorCode>)
    ensures
        r == (if is_stale(last_update, now, max_staleness) {
            Err(ErrorCode::StaleFeed)
        } else {
            Ok(())
        }),
{
    let staleness: i128 = now as i128 - last_update as i128;
    if staleness > max_staleness as i128 {
        Err(ErrorCode::StaleFeed)
    } else {
        Ok(())
    }
}

/// Fails with `ConfidenceIntervalExceeded` when `std_deviation` is greater in
/// value than `max_confidence_interval`, and with `Math` when either cannot be
/// compared.
pub fn check_confidence_interval(std_deviation: Decimal, max_confidence_interval: Decimal) -> (r:
    Result<(), ErrorCode>)
    ensures
        r == (if !(comparable(std_deviation) && comparable(max_confidence_interval)) {
            Err(ErrorCode::Math)
        } else if value_gt(std_deviation, max_confidence_interval) {
            Err(ErrorCode::ConfidenceIntervalExceeded)
        } else {
            Ok(())
        }),
{
    if !is_comparable(&std_deviation) || !is_comparable(&max_confidence_interval) {
        return Err(ErrorCode::Math);
    }
    if decimal_gt(std_deviation, max_confidence_interval) {
        Err(ErrorCode::ConfidenceIntervalExceeded)
    } else {
        Ok(())
    }
}

/// Whether a live read is accepted, as a value: staleness is judged first, then the
/// confidence bound when one is given.
pub open spec fn gate_result(
    feed: FeedSnapshot,
    now: i64,
    max_staleness: i64,
    max_confidence_interval: Option<Decimal>,
) -> Result<(), ErrorCode> {
    if is_stale(feed.last_update, now, max_staleness) {
        Err(ErrorCode::StaleFeed)
    } else {
        match max_confidence_interval {
            None => Ok(()),
            Some(m) => if !(comparable(feed.std_deviation) && comparable(m)) {
                Err(ErrorCode::Math)
            } else if value_gt(feed.std_deviation, m) {
                Err(ErrorCode::ConfidenceIntervalExceeded)
            } else {
                Ok(())
            },
        }
    }
}

/// Decides whether a live read of the feed may be accepted.
pub fn oracle_gate(
    feed: &FeedSnapshot,
    now: i64,
    max_staleness: i64,
    max_confidence_interval: Option<Decimal>,
) -> (r: Result<(), ErrorCode>)
    ensures
        r == gate_result(*feed, now, max_staleness, max_confidence_interval),
{
    match check_staleness(feed.last_update, now, max_staleness) {
        Ok(()) => {},
        Err(e) => return Err(e),
    }
    match max_confidence_interval {
        None => Ok(()),
        Some(m) => check_confidence_interval(feed.std_deviation, m),
    }
}

} // verus!
