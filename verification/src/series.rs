//! Window filling for time-series replies: the facade requests a fixed
//! window with a fixed step, and every bucket the engine did not report is
//! synthesized with count zero — never omitted, never left undefined.

use vstd::prelude::*;
use vstd::arithmetic::div_mod::lemma_fundamental_div_mod;
use vstd::arithmetic::div_mod::lemma_mod_division_less_than_divisor;
use vstd::arithmetic::mul::lemma_mul_inequality;
use crate::records::TimeSeriesPoint;

verus! {

/// The count the reply gave for bucket `t`: the first decoded point with
/// that timestamp, or zero when the bucket is absent.
pub open spec fn spec_count_at(points: Seq<(u64, u64)>, t: u64) -> u64
    decreases points.len(),
{
    if points.len() == 0 {
        0
    } else if points[0].0 == t {
        points[0].1
    } else {
        spec_count_at(points.skip(1), t)
    }
}

proof fn lemma_count_at_found(points: Seq<(u64, u64)>, t: u64, i: int)
    requires
        0 <= i < points.len(),
        points[i].0 == t,
        forall|k: int| 0 <= k < i ==> points[k].0 != t,
    ensures
        spec_count_at(points, t) == points[i].1,
    decreases i,
{
    if i > 0 {
        assert(points.skip(1)[i - 1] == points[i]);
        assert(forall|k: int| 0 <= k < i - 1 ==> points.skip(1)[k] == points[k + 1]);
        lemma_count_at_found(points.skip(1), t, i - 1);
    }
}

/// Law: a bucket the reply does not mention carries count zero — it is
/// synthesized, never omitted or left undefined.
pub proof fn lemma_count_at_absent(points: Seq<(u64, u64)>, t: u64)
    requires
        forall|k: int| 0 <= k < points.len() ==> points[k].0 != t,
    ensures
        spec_count_at(points, t) == 0,
    decreases points.len(),
{
    if points.len() > 0 {
        assert(forall|k: int| 0 <= k < points.skip(1).len() ==> points.skip(1)[k] == points[k + 1]);
        lemma_count_at_absent(points.skip(1), t);
    }
}

/// Looks up the count the reply gave for bucket `t`, zero when absent.
pub fn count_at(points: &Vec<TimeSeriesPoint>, t: u64) -> (r: u64)
    ensures
        r == spec_count_at(points.deep_view(), t),
{
    let n = points.len();
    let mut i: usize = 0;
    while i < n
        invariant
            n == points.len(),
            0 <= i <= n,
            forall|k: int| 0 <= k < i ==> points.deep_view()[k].0 != t,
        decreases n - i,
    {
        if points[i].timestamp == t {
            proof {
                lemma_count_at_found(points.deep_view(), t, i as int);
            }
            return points[i].count;
        }
        i = i + 1;
    }
    proof {
        lemma_count_at_absent(points.deep_view(), t);
    }
    0
}

/// Builds the full bucket sequence for the window `[start, end]` at the
/// given step: one bucket per step, in ascending timestamp order, each
/// carrying the reply's count for that timestamp, and count zero for every
/// bucket the reply did not mention.
pub fn fill_window(points: &Vec<TimeSeriesPoint>, start: u64, end: u64, step: u64) -> (r: Vec<
    TimeSeriesPoint,
>)
    requires
        step > 0,
        start <= end,
        (end - start) / (step as int) < usize::MAX,
    ensures
        r@.len() == (end - start) / (step as int) + 1,
        forall|k: int|
            0 <= k < r@.len() ==> r@[k].timestamp == start + k * (step as int) && r@[k].count
                == spec_count_at(points.deep_view(), r@[k].timestamp),
{
    let total: u64 = (end - start) / step;
    let mut out: Vec<TimeSeriesPoint> = Vec::new();
    let mut k: u64 = 0;
    while k <= total
        invariant
            step > 0,
            start <= end,
            total == (end - start) / (step as int),
            total < usize::MAX,
            0 <= k <= total + 1,
            out@.len() == k,
            forall|j: int|
                0 <= j < k ==> out@[j].timestamp == start + j * (step as int) && out@[j].count
                    == spec_count_at(points.deep_view(), out@[j].timestamp),
        decreases total + 1 - k,
    {
        proof {
            lemma_fundamental_div_mod((end - start) as int, step as int);
            lemma_mod_division_less_than_divisor((end - start) as int, step as int);
            lemma_mul_inequality(k as int, total as int, step as int);
            assert(k as int * step as int <= end - start);
        }
        let t = start + k * step;
        let c = count_at(points, t);
        out.push(TimeSeriesPoint { timestamp: t, count: c });
        k = k + 1;
    }
    out
}

} // verus!
