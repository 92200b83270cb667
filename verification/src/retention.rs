//! Retention of capture history: which stored captures a cleanup removes.
//!
//! A cleanup has two independent parts. When a maximum age is set, every
//! capture taken before `now - max_age_days` is removed. When a maximum size
//! is set, captures are walked from newest to oldest, summing their sizes,
//! and every capture at which the running total exceeds the budget is removed.

use vstd::prelude::*;
use crate::config::RetentionConfig;

verus! {

/// Milliseconds in a day.
pub const MS_PER_DAY: i64 = 86400000;

/// Bytes in a megabyte.
pub const BYTES_PER_MB: i64 = 1048576;

/// A stored capture as the size cleanup sees it.
#[derive(Debug)]
pub struct StoredCapture {
    pub id: String,
    pub file_path: String,
    pub file_size: i64,
}

/// What a cleanup does, given the retention settings and the current time.
#[derive(Debug, Clone, Copy, PartialEq, Eq, Structural)]
pub struct RetentionPlan {
    /// Captures taken before this time (ms since the epoch) are removed.
    pub age_cutoff_ms: Option<i64>,
    /// Captures beyond this many bytes, newest first, are removed.
    pub max_bytes: Option<i64>,
}

/// The time before which captures are too old.
pub open spec fn spec_age_cutoff(now_ms: int, max_age_days: int) -> int {
    now_ms - max_age_days * 86400000
}

/// The cleanup that the settings call for at time `now_ms`.
pub open spec fn spec_plan(r: RetentionConfig, now_ms: int) -> (Option<int>, Option<int>) {
    (
        if r.max_age_days > 0 { Some(spec_age_cutoff(now_ms, r.max_age_days as int)) } else { None },
        if r.max_size_mb > 0 { Some(r.max_size_mb * 1048576) } else { None },
    )
}

/// Plan a retention cleanup.
pub fn plan_retention(retention: &RetentionConfig, now_ms: i64) -> (r: RetentionPlan)
    requires
        i64::MIN <= spec_age_cutoff(now_ms as int, retention.max_age_days as int),
        retention.max_size_mb * 1048576 <= i64::MAX,
    ensures
        spec_plan(*retention, now_ms as int) == (
            match r.age_cutoff_ms { Some(c) => Some(c as int), None => None::<int> },
            match r.max_bytes { Some(b) => Some(b as int), None => None::<int> },
        ),
{
    let age_cutoff_ms = if retention.max_age_days > 0 {
        Some(now_ms - (retention.max_age_days as i64) * MS_PER_DAY)
    } else {
        None
    };
    let max_bytes = if retention.max_size_mb > 0 {
        Some((retention.max_size_mb as i64) * BYTES_PER_MB)
    } else {
        None
    };
    RetentionPlan { age_cutoff_ms, max_bytes }
}

/// Sum of the sizes of the first `n` captures.
pub open spec fn size_prefix(sizes: Seq<i64>, n: int) -> int
    decreases n,
{
    if n <= 0 || n > sizes.len() {
        0
    } else {
        size_prefix(sizes, n - 1) + sizes[n - 1]
    }
}

/// The sizes of a list of stored captures.
pub open spec fn sizes_of(rows: Seq<StoredCapture>) -> Seq<i64> {
    rows.map_values(|r: StoredCapture| r.file_size)
}

/// Whether the `i`-th capture (newest first) is beyond the size budget.
pub open spec fn over_budget(sizes: Seq<i64>, max_bytes: int, i: int) -> bool {
    size_prefix(sizes, i + 1) > max_bytes
}

/// The `(id, path)` of every capture among the first `n` that is beyond
/// the budget, in order.
pub open spec fn over_budget_prefix(rows: Seq<StoredCapture>, max_bytes: int, n: int) -> Seq<(Seq<char>, Seq<char>)>
    decreases n,
{
    if n <= 0 || n > rows.len() {
        Seq::empty()
    } else {
        let before = over_budget_prefix(rows, max_bytes, n - 1);
        if over_budget(sizes_of(rows), max_bytes, n - 1) {
            before.push((rows[n - 1].id@, rows[n - 1].file_path@))
        } else {
            before
        }
    }
}

/// Running totals stay within `i64` for every prefix.
pub open spec fn sizes_fit(sizes: Seq<i64>) -> bool {
    forall|n: int| 0 <= n <= sizes.len() ==> i64::MIN <= #[trigger] size_prefix(sizes, n) <= i64::MAX
}

/// The captures that the size cleanup removes: walking from newest to
/// oldest, each capture at which the running total of sizes exceeds
/// `max_bytes`.
pub fn select_over_budget(rows: &Vec<StoredCapture>, max_bytes: i64) -> (r: Vec<(String, String)>)
    requires
        sizes_fit(sizes_of(rows@)),
    ensures
        r@.map_values(|p: (String, String)| (p.0@, p.1@)) == over_budget_prefix(rows@, max_bytes as int, rows@.len() as int),
{
    let ghost sizes = sizes_of(rows@);
    let mut total: i64 = 0;
    let mut out: Vec<(String, String)> = Vec::new();
    let mut i: usize = 0;
    while i < rows.len()
        invariant
            i <= rows@.len(),
            sizes == sizes_of(rows@),
            sizes_fit(sizes),
            total as int == size_prefix(sizes, i as int),
            out@.map_values(|p: (String, String)| (p.0@, p.1@)) == over_budget_prefix(rows@, max_bytes as int, i as int),
        decreases rows@.len() - i,
    {
        let row = &rows[i];
        assert(sizes[i as int] == row.file_size);
        assert(size_prefix(sizes, i + 1) == size_prefix(sizes, i as int) + sizes[i as int]);
        assert(i64::MIN <= size_prefix(sizes, i + 1) <= i64::MAX);
        total = total + row.file_size;
        let ghost prev = out@;
        if total > max_bytes {
            out.push((row.id.clone(), row.file_path.clone()));
            assert(out@.map_values(|p: (String, String)| (p.0@, p.1@)) =~= prev.map_values(|p: (String, String)| (p.0@, p.1@)).push((row.id@, row.file_path@)));
        }
        i = i + 1;
    }
    out
}

/// With sizes that are never negative, the running total only grows: once
/// a capture is beyond the budget, every older one is too, so the cleanup
/// keeps the newest captures and removes a tail of the oldest.
pub proof fn lemma_budget_cut_is_a_tail(sizes: Seq<i64>, max_bytes: int, i: int, j: int)
    requires
        forall|k: int| 0 <= k < sizes.len() ==> sizes[k] >= 0,
        0 <= i <= j < sizes.len(),
        over_budget(sizes, max_bytes, i),
    ensures
        over_budget(sizes, max_bytes, j),
    decreases j - i,
{
    if i < j {
        lemma_budget_cut_is_a_tail(sizes, max_bytes, i, j - 1);
        assert(size_prefix(sizes, j + 1) == size_prefix(sizes, j) + sizes[j]);
    }
}

/// With sizes that are never negative, the captures that a cleanup keeps
/// (those before the first one beyond the budget) take at most `max_bytes`.
pub proof fn lemma_kept_within_budget(sizes: Seq<i64>, max_bytes: int, i: int)
    requires
        forall|k: int| 0 <= k < sizes.len() ==> sizes[k] >= 0,
        0 <= i < sizes.len(),
        !over_budget(sizes, max_bytes, i),
    ensures
        size_prefix(sizes, i + 1) <= max_bytes,
        forall|k: int| 0 <= k <= i ==> !over_budget(sizes, max_bytes, k),
{
    assert forall|k: int| 0 <= k <= i implies !over_budget(sizes, max_bytes, k) by {
        if over_budget(sizes, max_bytes, k) {
            lemma_budget_cut_is_a_tail(sizes, max_bytes, k, i);
        }
    }
}

} // verus!
