use vstd::prelude::*;
use crate::history::Decimal;
use crate::oracle::{FeedSnapshot, gate_result, oracle_gate};
use crate::history::HistoryStore;
use crate::series::{ReturnPair, return_pairs};
use crate::vol::{
    ErrorCode,
    CalculateVolParams,
    MIN_RETURNS,
    calc_vol_returns,
    spec_end,
    spec_interval,
    spec_start,
    window_ok,
};

verus! {

/// The persisted state: the last accepted price and the last volatility, in
/// whatever number type the caller computes with.
#[derive(Debug, PartialEq, Eq)]
pub struct SwitchBoardStoredData<V> {
    pub current_price: V,
    pub volatility: V,
}

/// Fresh state, both fields at `zero`.
pub fn initialize<V: Copy>(zero: V) -> (r: SwitchBoardStoredData<V>)
    ensures
        r.current_price == zero,
        r.volatility == zero,
{
    SwitchBoardStoredData { current_price: zero, volatility: zero }
}

/// Accepts `price` as the current price when the feed passes the acceptance check;
/// on any failure the state is left as it was.
pub fn read_price<V>(
    data: &mut SwitchBoardStoredData<V>,
    price: V,
    feed: &FeedSnapshot,
    now: i64,
    max_staleness: i64,
    max_confidence_interval: Option<Decimal>,
) -> (r: Result<(), ErrorCode>)
    ensures
        r == gate_result(*feed, now, max_staleness, max_confidence_interval),
        r.is_ok() ==> final(data).current_price == price && final(data).volatility == old(
            data,
        ).volatility,
        r.is_err() ==> *final(data) == *old(data),
{
    match oracle_gate(feed, now, max_staleness, max_confidence_interval) {
        Ok(()) => {
            data.current_price = price;
            Ok(())
        },
        Err(e) => Err(e),
    }
}

/// The state after a volatility computation ends with `outcome`.
pub open spec fn after_volatility<V>(data: SwitchBoardStoredData<V>, outcome: Result<V, ErrorCode>) -> SwitchBoardStoredData<V> {
    match outcome {
        Ok(v) => SwitchBoardStoredData { current_price: data.current_price, volatility: v },
        Err(_) => data,
    }
}

/// Stores the volatility of a successful computation; a failed one leaves the
/// state untouched and is handed back.
pub fn record_volatility<V>(data: &mut SwitchBoardStoredData<V>, outcome: Result<V, ErrorCode>) -> (r:
    Result<(), ErrorCode>)
    ensures
        *final(data) == after_volatility(*old(data), outcome),
        r.is_ok() <==> outcome.is_ok(),
        outcome matches Err(e) ==> r == Err::<(), ErrorCode>(e),
{
    match outcome {
        Ok(v) => {
            data.volatility = v;
            Ok(())
        },
        Err(e) => Err(e),
    }
}

/// The return pairs that `calc_vol` hands to the estimator.
pub open spec fn calc_vol_pairs(
    history: HistoryStore,
    now: i64,
    params: CalculateVolParams,
) -> Seq<ReturnPair> {
    return_pairs(history@, spec_start(params, now), spec_end(params, now), spec_interval(params))
}

/// Computes the volatility over the window that `params` and `now` describe
/// and stores it. The return pairs are resolved here; `estimate` turns them
/// into a dispersion figure. It is called only when the window resolves and
/// holds at least two pairs, and then exactly on those pairs; any failure,
/// its own included, leaves the state as it was.
pub fn calc_vol<V, F: Fn(&Vec<ReturnPair>) -> Result<V, ErrorCode>>(
    data: &mut SwitchBoardStoredData<V>,
    history: &HistoryStore,
    now: i64,
    params: CalculateVolParams,
    estimate: F,
) -> (r: Result<(), ErrorCode>)
    requires
        history.wf(),
        forall|p: &Vec<ReturnPair>| p@.len() >= MIN_RETURNS ==> #[trigger] estimate.requires((p,)),
    ensures
        !window_ok(params, now) ==> r == Err::<(), ErrorCode>(ErrorCode::Math),
        window_ok(params, now) && calc_vol_pairs(*history, now, params).len() < MIN_RETURNS ==> r
            == Err::<(), ErrorCode>(ErrorCode::NotEnoughData),
        r.is_err() ==> *final(data) == *old(data),
        r.is_ok() ==> {
            &&& window_ok(params, now)
            &&& calc_vol_pairs(*history, now, params).len() >= MIN_RETURNS
            &&& final(data).current_price == old(data).current_price
            &&& exists|p: &Vec<ReturnPair>|
                p@ == calc_vol_pairs(*history, now, params) && #[trigger] estimate.ensures(
                    (p,),
                    Ok::<V, ErrorCode>(final(data).volatility),
                )
        },
        window_ok(params, now) && calc_vol_pairs(*history, now, params).len() >= MIN_RETURNS ==> (
        r.is_err() ==> exists|p: &Vec<ReturnPair>, e: ErrorCode|
            p@ == calc_vol_pairs(*history, now, params) && r == Err::<(), ErrorCode>(e)
                && #[trigger] estimate.ensures((p,), Err::<V, ErrorCode>(e))),
{
    let pairs = match calc_vol_returns(history, now, params) {
        Ok(pairs) => pairs,
        Err(e) => return Err(e),
    };
    let outcome = estimate(&pairs);
    let r = record_volatility(data, outcome);
    proof {
        if r.is_ok() {
            assert(estimate.ensures((&pairs,), Ok::<V, ErrorCode>(data.volatility)));
        }
    }
    r
}

/// After a successful computation, a failing one keeps the volatility that the
/// successful one stored.
pub proof fn lemma_failure_keeps_last_volatility<V>(
    data: SwitchBoardStoredData<V>,
    v: V,
    e: ErrorCode,
)
    ensures
        after_volatility(after_volatility(data, Ok(v)), Err(e)).volatility == v,
        after_volatility(after_volatility(data, Ok(v)), Err(e)).current_price
            == data.current_price,
{
}

} // verus!
