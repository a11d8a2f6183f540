use vstd::prelude::*;

verus! {

/// A decimal number `mantissa * 10^(-scale)`, the form in which the oracle
/// publishes prices and keeps its history.
#[derive(Clone, Copy, Debug, PartialEq, Eq, Structural)]
pub struct Decimal {
    pub mantissa: i128,
    pub scale: u32,
}

impl Decimal {
    pub open spec fn spec_is_zero(self) -> bool {
        self.mantissa == 0
    }

    /// A decimal is zero exactly when its mantissa is zero, whatever its scale.
    pub fn is_zero(&self) -> (r: bool)
        ensures
            r == self.spec_is_zero(),
    {
        self.mantissa == 0
    }
}

/// One recorded price: the value the feed held from `timestamp` on.
#[derive(Clone, Copy, Debug, PartialEq, Eq, Structural)]
pub struct HistoryRow {
    pub timestamp: i64,
    pub value: Decimal,
}

/// Rows are in strictly increasing timestamp order.
pub open spec fn rows_sorted(rows: Seq<HistoryRow>) -> bool {
    forall|i: int, j: int|
        0 <= i < j < rows.len() ==> #[trigger] rows[i].timestamp < #[trigger] rows[j].timestamp
}

/// The latest row recorded at or before `t`, if any.
pub open spec fn sample_at(rows: Seq<HistoryRow>, t: int) -> Option<HistoryRow>
    decreases rows.len(),
{
    if rows.len() == 0 {
        None
    } else if rows.last().timestamp <= t {
        Some(rows.last())
    } else {
        sample_at(rows.drop_last(), t)
    }
}

/// In a sorted history, the row at `k` is the sample at `t` when it is the
/// last one at or before `t`.
proof fn lemma_sample_at_index(rows: Seq<HistoryRow>, t: int, k: int)
    requires
        rows_sorted(rows),
        0 <= k < rows.len(),
        rows[k].timestamp <= t,
        k + 1 == rows.len() || rows[k + 1].timestamp > t,
    ensures
        sample_at(rows, t) == Some(rows[k]),
    decreases rows.len(),
{
    if k + 1 < rows.len() {
        let last = rows.len() - 1;
        assert(rows[k + 1].timestamp <= rows[last].timestamp);
        let d = rows.drop_last();
        assert(rows_sorted(d));
        lemma_sample_at_index(d, t, k);
    }
}

/// With every row after `t`, there is no sample at `t`.
proof fn lemma_sample_at_none(rows: Seq<HistoryRow>, t: int)
    requires
        forall|i: int| 0 <= i < rows.len() ==> #[trigger] rows[i].timestamp > t,
    ensures
        sample_at(rows, t).is_none(),
    decreases rows.len(),
{
    if rows.len() > 0 {
        let d = rows.drop_last();
        assert(forall|i: int| 0 <= i < d.len() ==> #[trigger] d[i].timestamp == rows[i].timestamp);
        lemma_sample_at_none(d, t);
    }
}

/// The rows of a round-robin buffer whose latest write is at `idx`, oldest
/// first. A zero timestamp marks a slot never written: at `idx` the buffer is
/// empty, just after it the buffer has not wrapped yet.
pub open spec fn ring_order(rows: Seq<HistoryRow>, idx: int) -> Seq<HistoryRow> {
    if rows[idx].timestamp == 0 {
        Seq::empty()
    } else if idx + 1 < rows.len() && rows[idx + 1].timestamp != 0 {
        rows.subrange(idx + 1, rows.len() as int) + rows.subrange(0, idx + 1)
    } else {
        rows.subrange(0, idx + 1)
    }
}

/// Appends `rows[lo..hi]` to `out`.
fn append_range(out: &mut Vec<HistoryRow>, rows: &Vec<HistoryRow>, lo: usize, hi: usize)
    requires
        lo <= hi <= rows.len(),
    ensures
        final(out)@ == old(out)@ + rows@.subrange(lo as int, hi as int),
{
    let ghost start = out@;
    let mut i: usize = lo;
    while i < hi
        invariant
            lo <= i <= hi <= rows.len(),
            out@ == start + rows@.subrange(lo as int, i as int),
        decreases hi - i,
    {
        out.push(rows[i]);
        proof {
            assert(rows@.subrange(lo as int, i + 1) == rows@.subrange(lo as int, i as int).push(
                rows@[i as int],
            ));
        }
        i = i + 1;
    }
}

/// A price history, oldest row first.
pub struct HistoryStore {
    pub rows: Vec<HistoryRow>,
}

impl HistoryStore {
    pub open spec fn view(&self) -> Seq<HistoryRow> {
        self.rows@
    }

    /// Timestamps strictly increase along the store.
    pub open spec fn wf(&self) -> bool {
        rows_sorted(self.rows@)
    }

    /// Builds a store from rows; refuses them unless their timestamps strictly
    /// increase.
    pub fn from_rows(rows: Vec<HistoryRow>) -> (r: Option<HistoryStore>)
        ensures
            r.is_some() <==> rows_sorted(rows@),
            r matches Some(s) ==> s@ == rows@ && s.wf(),
    {
        let n = rows.len();
        let mut i: usize = 1;
        while i < n
            invariant
                n == rows.len(),
                1 <= i <= n || n == 0,
                forall|a: int, b: int|
                    0 <= a < b < i && b < n ==> #[trigger] rows@[a].timestamp
                        < #[trigger] rows@[b].timestamp,
            decreases n - i,
        {
            if rows[i - 1].timestamp >= rows[i].timestamp {
                return None;
            }
            proof {
                assert forall|a: int, b: int|
                    0 <= a < b < i + 1 && b < n implies #[trigger] rows@[a].timestamp
                        < #[trigger] rows@[b].timestamp by {
                    if b == i && a < i - 1 {
                        assert(rows@[a].timestamp < rows@[i - 1].timestamp);
                    }
                }
            }
            i = i + 1;
        }
        Some(HistoryStore { rows })
    }

    /// Builds a store from the slots of a round-robin buffer whose latest write
    /// is at `insertion_idx`; `None` when the index lies outside the buffer or
    /// the unrolled rows are not in strictly increasing time order.
    pub fn from_ring(rows: Vec<HistoryRow>, insertion_idx: usize) -> (r: Option<HistoryStore>)
        ensures
            r.is_some() <==> insertion_idx < rows.len() && rows_sorted(
                ring_order(rows@, insertion_idx as int),
            ),
            r matches Some(s) ==> s@ == ring_order(rows@, insertion_idx as int) && s.wf(),
    {
        let n = rows.len();
        if insertion_idx >= n {
            return None;
        }
        let mut ordered: Vec<HistoryRow> = Vec::new();
        if rows[insertion_idx].timestamp != 0 {
            if insertion_idx + 1 < n && rows[insertion_idx + 1].timestamp != 0 {
                append_range(&mut ordered, &rows, insertion_idx + 1, n);
            }
            append_range(&mut ordered, &rows, 0, insertion_idx + 1);
        }
        proof {
            assert(ordered@ =~= ring_order(rows@, insertion_idx as int));
        }
        HistoryStore::from_rows(ordered)
    }

    /// The latest row at or before `t`: the row with the greatest timestamp not
    /// after `t`, or `None` when every row is later (or there is none).
    pub fn lookup(&self, t: i64) -> (r: Option<HistoryRow>)
        requires
            self.wf(),
        ensures
            r == sample_at(self@, t as int),
    {
        let n = self.rows.len();
        // Rows below `lo` are at or before `t`; rows from `hi` on are after it.
        let mut lo: usize = 0;
        let mut hi: usize = n;
        while lo < hi
            invariant
                n == self.rows.len(),
                self.wf(),
                lo <= hi <= n,
                forall|i: int| 0 <= i < lo ==> #[trigger] self.rows@[i].timestamp <= t,
                forall|i: int| hi <= i < n ==> #[trigger] self.rows@[i].timestamp > t,
            decreases hi - lo,
        {
            let mid = lo + (hi - lo) / 2;
            if self.rows[mid].timestamp <= t {
                proof {
                    assert forall|i: int| 0 <= i < mid + 1 implies #[trigger] self.rows@[i].timestamp
                        <= t by {
                        if i < mid {
                            assert(self.rows@[i].timestamp < self.rows@[mid as int].timestamp);
                        }
                    }
                }
                lo = mid + 1;
            } else {
                proof {
                    assert forall|i: int| mid <= i < n implies #[trigger] self.rows@[i].timestamp
                        > t by {
                        if i > mid {
                            assert(self.rows@[mid as int].timestamp < self.rows@[i].timestamp);
                        }
                    }
                }
                hi = mid;
            }
        }
        if lo == 0 {
            proof {
                lemma_sample_at_none(self@, t as int);
            }
            None
        } else {
            proof {
                lemma_sample_at_index(self@, t as int, lo - 1);
            }
            Some(self.rows[lo - 1])
        }
    }
}

} // verus!
