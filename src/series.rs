use vstd::prelude::*;
use crate::history::{Decimal, HistoryRow, HistoryStore, sample_at};

verus! {

/// Two consecutive resampled prices whose fractional return is
/// `(current - previous) / current`; `current` is never zero.
#[derive(Clone, Copy, Debug, PartialEq, Eq, Structural)]
pub struct ReturnPair {
    pub previous: Decimal,
    pub current: Decimal,
}

/// The return (if any) contributed by a sample of value `v` when the baseline
/// is `prev`: none without a baseline, none for a zero value.
pub open spec fn step_pairs(prev: Option<Decimal>, v: Decimal) -> Seq<ReturnPair> {
    match prev {
        Some(p) => if v.spec_is_zero() {
            Seq::empty()
        } else {
            seq![ReturnPair { previous: p, current: v }]
        },
        None => Seq::empty(),
    }
}

/// The baseline after the step at `t`: the sample's value when there is one,
/// the old baseline across a gap.
pub open spec fn next_baseline(rows: Seq<HistoryRow>, t: int, prev: Option<Decimal>) -> Option<
    Decimal,
> {
    match sample_at(rows, t) {
        Some(row) => Some(row.value),
        None => prev,
    }
}

/// The pairs met when walking `t, t + interval, ...` up to `end` inclusive,
/// starting from baseline `prev`.
pub open spec fn walk(
    rows: Seq<HistoryRow>,
    t: int,
    end: int,
    interval: int,
    prev: Option<Decimal>,
) -> Seq<ReturnPair>
    decreases end + interval - t,
    when interval > 0
{
    if t > end {
        Seq::empty()
    } else {
        let here = match sample_at(rows, t) {
            Some(row) => step_pairs(prev, row.value),
            None => Seq::empty(),
        };
        here + walk(rows, t + interval, end, interval, next_baseline(rows, t, prev))
    }
}

/// The return pairs of the resampled history over `[start, end]`.
pub open spec fn return_pairs(rows: Seq<HistoryRow>, start: int, end: int, interval: int) -> Seq<
    ReturnPair,
> {
    walk(rows, start, end, interval, None)
}

/// No pair of the walk has a zero current value, so no return divides by zero;
/// and a zero sample, while it adds no pair, becomes the baseline of the next
/// step.
pub proof fn lemma_zero_samples_skipped(
    rows: Seq<HistoryRow>,
    t: int,
    end: int,
    interval: int,
    prev: Option<Decimal>,
)
    requires
        interval > 0,
    ensures
        forall|i: int|
            0 <= i < walk(rows, t, end, interval, prev).len() ==> !(#[trigger] walk(
                rows,
                t,
                end,
                interval,
                prev,
            )[i]).current.spec_is_zero(),
        t <= end && sample_at(rows, t).is_some() && sample_at(rows, t).unwrap().value.spec_is_zero()
            ==> walk(rows, t, end, interval, prev) == walk(
            rows,
            t + interval,
            end,
            interval,
            Some(sample_at(rows, t).unwrap().value),
        ),
    decreases end + interval - t,
{
    if t <= end {
        let nb = next_baseline(rows, t, prev);
        lemma_zero_samples_skipped(rows, t + interval, end, interval, nb);
        let here = match sample_at(rows, t) {
            Some(row) => step_pairs(prev, row.value),
            None => Seq::<ReturnPair>::empty(),
        };
        let rest = walk(rows, t + interval, end, interval, nb);
        assert(walk(rows, t, end, interval, prev) == here + rest);
        assert forall|i: int| 0 <= i < (here + rest).len() implies !(#[trigger] (here
            + rest)[i]).current.spec_is_zero() by {
            if i >= here.len() {
                assert((here + rest)[i] == rest[i - here.len()]);
            }
        }
        if sample_at(rows, t).is_some() && sample_at(rows, t).unwrap().value.spec_is_zero() {
            assert(here =~= Seq::<ReturnPair>::empty());
            assert(here + rest =~= rest);
        }
    }
}

/// Resamples `history` every `interval` seconds from `start_ts` to `end_ts`
/// (both included) and pairs each non-zero sample with the baseline before it.
/// A gap leaves the baseline as it was; a zero sample gives no pair but becomes
/// the new baseline.
pub fn build_return_pairs(history: &HistoryStore, start_ts: i64, end_ts: i64, interval: i64) -> (r:
    Vec<ReturnPair>)
    requires
        history.wf(),
        interval > 0,
    ensures
        r@ == return_pairs(history@, start_ts as int, end_ts as int, interval as int),
{
    let mut out: Vec<ReturnPair> = Vec::new();
    let mut previous: Option<Decimal> = None;
    if start_ts > end_ts {
        return out;
    }
    let mut t: i64 = start_ts;
    loop
        invariant
            history.wf(),
            interval > 0,
            start_ts <= t <= end_ts,
            return_pairs(history@, start_ts as int, end_ts as int, interval as int) == out@ + walk(
                history@,
                t as int,
                end_ts as int,
                interval as int,
                previous,
            ),
        decreases end_ts - t,
    {
        let ghost before = out@;
        let ghost prev0 = previous;
        match history.lookup(t) {
            Some(row) => {
                if let Some(p) = previous {
                    if !row.value.is_zero() {
                        out.push(ReturnPair { previous: p, current: row.value });
                    }
                }
                previous = Some(row.value);
            },
            None => {},
        }
        proof {
            let here = match sample_at(history@, t as int) {
                Some(row) => step_pairs(prev0, row.value),
                None => Seq::<ReturnPair>::empty(),
            };
            assert(out@ == before + here);
            assert(previous == next_baseline(history@, t as int, prev0));
            assert(walk(history@, t as int, end_ts as int, interval as int, prev0) == here + walk(
                history@,
                t + interval,
                end_ts as int,
                interval as int,
                previous,
            ));
            vstd::seq_lib::lemma_concat_associative(
                before,
                here,
                walk(history@, t + interval, end_ts as int, interval as int, previous),
            );
        }
        match t.checked_add(interval) {
            Some(next) if next <= end_ts => {
                t = next;
            },
            _ => {
                proof {
                    assert(walk(history@, t + interval, end_ts as int, interval as int, previous)
                        =~= Seq::empty());
                }
                return out;
            },
        }
    }
}

} // verus!
