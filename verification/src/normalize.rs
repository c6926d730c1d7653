//! Stop-list normalization: turning a mix of explicit and automatic stop
//! positions into a fully explicit, non-decreasing sequence.
//!
//! The rules, applied uniformly to distance stops and angle stops:
//! an automatic first stop sits at `0`; an automatic last stop sits at the
//! gradient's total extent; every other maximal run of automatic stops is
//! spaced evenly between the nearest known positions on either side; and a
//! final left-to-right pass raises any position below its predecessor up to
//! the predecessor, so the output never decreases.

use vstd::prelude::*;
use vstd::math::max;
use crate::fixed::{
    floor_div, lemma_interp_div_bounds, resolved_in_range, MAX_STOPS, RESOLVED_LIMIT,
};

verus! {

/// The stop positions and the total extent are within range and the list is
/// not unreasonably long.
pub open spec fn points_in_range(points: Seq<Option<i64>>) -> bool {
    &&& points.len() <= MAX_STOPS
    &&& forall|i: int|
        0 <= i < points.len() && points[i] is Some ==> resolved_in_range(#[trigger] points[i]->0)
}

/// A position is known before interpolation: it is explicit, or it is the
/// first stop (assigned `0`) or the last stop (assigned the total extent).
pub open spec fn is_known(points: Seq<Option<i64>>, i: int) -> bool {
    points[i] is Some || i == 0 || i == points.len() - 1
}

/// The position a known stop gets: its explicit value; else `0` for the
/// first stop, else the total extent for the last.
pub open spec fn known_value(points: Seq<Option<i64>>, total: i64, i: int) -> int {
    if points[i] is Some {
        points[i]->0 as int
    } else if i == 0 {
        0
    } else {
        total as int
    }
}

/// The nearest known index at or below `i - 1`; the first stop is always
/// known, so this is well defined for `i > 0`.
pub open spec fn prev_known(points: Seq<Option<i64>>, i: int) -> int
    decreases i,
{
    if i <= 0 {
        0
    } else if is_known(points, i - 1) {
        i - 1
    } else {
        prev_known(points, i - 1)
    }
}

/// The nearest known index at or above `i + 1`; the last stop is always
/// known, so this is well defined for `i < points.len() - 1`.
pub open spec fn next_known(points: Seq<Option<i64>>, i: int) -> int
    decreases points.len() - i,
{
    if i >= points.len() - 1 {
        points.len() - 1
    } else if is_known(points, i + 1) {
        i + 1
    } else {
        next_known(points, i + 1)
    }
}

/// The position each stop gets before the monotonicity pass: known stops
/// keep their value; an automatic stop between known neighbours at `lo` and
/// `hi` takes the evenly spaced value
/// `value(lo) + (value(hi) - value(lo)) * (i - lo) / (hi - lo)`.
pub open spec fn raw_value(points: Seq<Option<i64>>, total: i64, i: int) -> int {
    if is_known(points, i) {
        known_value(points, total, i)
    } else {
        let lo = prev_known(points, i);
        let hi = next_known(points, i);
        let vlo = known_value(points, total, lo);
        let vhi = known_value(points, total, hi);
        vlo + (vhi - vlo) * (i - lo) / (hi - lo)
    }
}

/// The final position of each stop: its raw position, raised to the largest
/// raw position at or before it, so the sequence never decreases.
pub open spec fn normalized_value(points: Seq<Option<i64>>, total: i64, i: int) -> int
    decreases i,
{
    if i <= 0 {
        raw_value(points, total, 0)
    } else {
        max(normalized_value(points, total, i - 1), raw_value(points, total, i))
    }
}

/// The fully normalized position sequence.
pub open spec fn normalized_seq(points: Seq<Option<i64>>, total: i64) -> Seq<i64> {
    Seq::new(points.len(), |i: int| normalized_value(points, total, i) as i64)
}

/// `prev_known` lands on a known index, with nothing known strictly between
/// it and `i`.
pub proof fn lemma_prev_known_props(points: Seq<Option<i64>>, i: int)
    requires
        0 < i < points.len(),
    ensures
        0 <= prev_known(points, i) < i,
        is_known(points, prev_known(points, i)),
        forall|j: int| prev_known(points, i) < j < i ==> !is_known(points, j),
    decreases i,
{
    if is_known(points, i - 1) {
    } else {
        lemma_prev_known_props(points, i - 1);
    }
}

/// `next_known` lands on a known index, with nothing known strictly between
/// `i` and it.
pub proof fn lemma_next_known_props(points: Seq<Option<i64>>, i: int)
    requires
        0 <= i < points.len() - 1,
    ensures
        i < next_known(points, i) <= points.len() - 1,
        is_known(points, next_known(points, i)),
        forall|j: int| i < j < next_known(points, i) ==> !is_known(points, j),
    decreases points.len() - i,
{
    if is_known(points, i + 1) {
    } else {
        lemma_next_known_props(points, i + 1);
    }
}

/// A known index with nothing known between it and `i` is `prev_known(i)`.
pub proof fn lemma_prev_known_char(points: Seq<Option<i64>>, lo: int, i: int)
    requires
        0 <= lo < i < points.len(),
        is_known(points, lo),
        forall|j: int| lo < j < i ==> !is_known(points, j),
    ensures
        prev_known(points, i) == lo,
    decreases i - lo,
{
    if i - 1 == lo {
    } else {
        lemma_prev_known_char(points, lo, i - 1);
    }
}

/// A known index with nothing known between `i` and it is `next_known(i)`.
pub proof fn lemma_next_known_char(points: Seq<Option<i64>>, i: int, hi: int)
    requires
        0 <= i < hi < points.len(),
        is_known(points, hi),
        forall|j: int| i < j < hi ==> !is_known(points, j),
    ensures
        next_known(points, i) == hi,
    decreases hi - i,
{
    if i + 1 == hi {
    } else {
        lemma_next_known_char(points, i + 1, hi);
    }
}

/// Every raw position lies between the values of its known neighbours, so
/// within the accepted coordinate range.
pub proof fn lemma_raw_value_bounds(points: Seq<Option<i64>>, total: i64, i: int)
    requires
        points_in_range(points),
        resolved_in_range(total),
        0 <= i < points.len(),
    ensures
        -RESOLVED_LIMIT <= raw_value(points, total, i) <= RESOLVED_LIMIT,
{
    if is_known(points, i) {
    } else {
        lemma_prev_known_props(points, i);
        lemma_next_known_props(points, i);
        let lo = prev_known(points, i);
        let hi = next_known(points, i);
        let vlo = known_value(points, total, lo);
        let vhi = known_value(points, total, hi);
        lemma_interp_div_bounds(vhi - vlo, i - lo, hi - lo);
    }
}

/// Every normalized position stays within the accepted coordinate range.
pub proof fn lemma_normalized_value_bounds(points: Seq<Option<i64>>, total: i64, i: int)
    requires
        points_in_range(points),
        resolved_in_range(total),
        0 <= i < points.len(),
    ensures
        -RESOLVED_LIMIT <= normalized_value(points, total, i) <= RESOLVED_LIMIT,
    decreases i,
{
    lemma_raw_value_bounds(points, total, i);
    if i > 0 {
        lemma_normalized_value_bounds(points, total, i - 1);
    } else {
        lemma_raw_value_bounds(points, total, 0);
    }
}

/// Adjacent normalized positions never decrease: the output is monotone.
pub proof fn lemma_normalized_monotone(points: Seq<Option<i64>>, total: i64, i: int)
    requires
        0 <= i < points.len() - 1,
    ensures
        normalized_value(points, total, i) <= normalized_value(points, total, i + 1),
{
}

/// A stop list where every position is explicit.
pub open spec fn explicit_points(vals: Seq<i64>) -> Seq<Option<i64>> {
    Seq::new(vals.len(), |i: int| Some(vals[i]))
}

/// When the raw positions already never decrease, the monotonicity pass
/// changes nothing.
proof fn lemma_norm_of_monotone_raw(points: Seq<Option<i64>>, total: i64, i: int)
    requires
        0 <= i < points.len(),
        forall|j: int|
            0 <= j < points.len() - 1 ==> raw_value(points, total, j) <= #[trigger] raw_value(
                points,
                total,
                j + 1,
            ),
    ensures
        normalized_value(points, total, i) == raw_value(points, total, i),
    decreases i,
{
    if i > 0 {
        lemma_norm_of_monotone_raw(points, total, i - 1);
    }
}

/// Normalizing keeps an already explicit, non-decreasing stop list exactly
/// as it is.
pub proof fn lemma_explicit_sorted_fixed(points: Seq<Option<i64>>, total: i64, i: int)
    requires
        0 <= i < points.len(),
        forall|j: int| 0 <= j < points.len() ==> (#[trigger] points[j]) is Some,
        forall|j: int|
            0 <= j < points.len() - 1 ==> points[j]->0 <= (#[trigger] points[j + 1])->0,
    ensures
        normalized_value(points, total, i) == points[i]->0,
{
    assert forall|j: int|
        0 <= j < points.len() - 1 implies raw_value(points, total, j) <= #[trigger] raw_value(
        points,
        total,
        j + 1,
    ) by {
        assert(points[j] is Some && points[j + 1] is Some);
    }
    lemma_norm_of_monotone_raw(points, total, i);
}

/// Normalization is idempotent: running it again on a normalized output, for
/// any total extent, yields the identical sequence.
pub proof fn lemma_normalize_idempotent(points: Seq<Option<i64>>, total: i64, total2: i64)
    requires
        points_in_range(points),
        resolved_in_range(total),
    ensures
        normalized_seq(explicit_points(normalized_seq(points, total)), total2) == normalized_seq(
            points,
            total,
        ),
{
    let r = normalized_seq(points, total);
    let e = explicit_points(r);
    assert forall|j: int| 0 <= j < r.len() implies #[trigger] r[j] as int == normalized_value(
        points,
        total,
        j,
    ) by {
        lemma_normalized_value_bounds(points, total, j);
    }
    assert forall|j: int| 0 <= j < e.len() - 1 implies e[j]->0 <= (#[trigger] e[j + 1])->0 by {
        lemma_normalized_monotone(points, total, j);
    }
    assert forall|j: int| 0 <= j < e.len() implies #[trigger] normalized_value(e, total2, j)
        == r[j] as int by {
        lemma_explicit_sorted_fixed(e, total2, j);
    }
    assert(normalized_seq(e, total2) =~= r);
}

/// The spacing a run of automatic stops between explicit first and last
/// stops receives: the span divided by the number of gaps.
pub open spec fn even_step(points: Seq<Option<i64>>) -> int {
    (points[points.len() - 1]->0 - points[0]->0) / (points.len() - 1)
}

/// The raw position under the conditions of `lemma_even_spacing`.
proof fn lemma_even_raw(points: Seq<Option<i64>>, total: i64, i: int)
    requires
        points.len() >= 2,
        points[0] is Some,
        points[points.len() - 1] is Some,
        forall|j: int| 0 < j < points.len() - 1 ==> (#[trigger] points[j]) is None,
        points[0]->0 <= points[points.len() - 1]->0,
        (points[points.len() - 1]->0 - points[0]->0) % (points.len() - 1) == 0,
        0 <= i < points.len(),
    ensures
        raw_value(points, total, i) == points[0]->0 + i * even_step(points),
{
    let n = points.len() - 1;
    let v0 = points[0]->0 as int;
    let vn = points[n]->0 as int;
    let d = even_step(points);
    vstd::arithmetic::div_mod::lemma_fundamental_div_mod(vn - v0, n);
    assert(vn - v0 == n * d);
    if i == 0 {
        assert(v0 + 0 * d == v0) by (nonlinear_arith);
    } else if i == n {
        assert(v0 + n * d == vn);
    } else {
        assert(!is_known(points, i));
        lemma_prev_known_char(points, 0, i);
        lemma_next_known_char(points, i, n);
        assert((n * d) * i == n * (d * i)) by (nonlinear_arith);
        vstd::arithmetic::div_mod::lemma_div_multiples_vanish(d * i, n);
        assert(i * d == d * i) by (nonlinear_arith);
    }
}

/// With the first and last stops explicit and every middle stop automatic,
/// the normalized positions are exactly evenly spaced and non-decreasing,
/// and strictly increasing when the last stop lies strictly after the first.
/// The span must divide evenly into the gaps for the spacing to be exact.
pub proof fn lemma_even_spacing(points: Seq<Option<i64>>, total: i64)
    requires
        points_in_range(points),
        resolved_in_range(total),
        points.len() >= 2,
        points[0] is Some,
        points[points.len() - 1] is Some,
        forall|j: int| 0 < j < points.len() - 1 ==> (#[trigger] points[j]) is None,
        points[0]->0 <= points[points.len() - 1]->0,
        (points[points.len() - 1]->0 - points[0]->0) % (points.len() - 1) == 0,
    ensures
        forall|j: int|
            0 <= j < points.len() ==> #[trigger] normalized_value(points, total, j) == points[0]->0
                + j * even_step(points),
        forall|j: int|
            0 <= j < points.len() - 1 ==> normalized_value(points, total, j + 1) - #[trigger]
                normalized_value(points, total, j) == even_step(points),
        points[0]->0 < points[points.len() - 1]->0 ==> forall|j: int|
            0 <= j < points.len() - 1 ==> #[trigger] normalized_value(points, total, j)
                < normalized_value(points, total, j + 1),
{
    let n = points.len() - 1;
    let v0 = points[0]->0 as int;
    let vn = points[n]->0 as int;
    let d = even_step(points);
    vstd::arithmetic::div_mod::lemma_div_pos_is_pos(vn - v0, n);
    assert forall|j: int| 0 <= j < points.len() implies #[trigger] raw_value(points, total, j)
        == v0 + j * d by {
        lemma_even_raw(points, total, j);
    }
    assert forall|j: int|
        0 <= j < points.len() - 1 implies raw_value(points, total, j) <= #[trigger] raw_value(
        points,
        total,
        j + 1,
    ) by {
        assert((j + 1) * d - j * d == d) by (nonlinear_arith);
    }
    assert forall|j: int| 0 <= j < points.len() implies #[trigger] normalized_value(
        points,
        total,
        j,
    ) == v0 + j * d by {
        lemma_norm_of_monotone_raw(points, total, j);
    }
    assert forall|j: int|
        0 <= j < points.len() - 1 implies normalized_value(points, total, j + 1) - #[trigger]
        normalized_value(points, total, j) == d by {
        assert((j + 1) * d - j * d == d) by (nonlinear_arith);
    }
    if v0 < vn {
        vstd::arithmetic::div_mod::lemma_fundamental_div_mod(vn - v0, n);
        assert(vn - v0 == n * d);
        assert(d > 0) by (nonlinear_arith)
            requires
                n * d > 0,
                n > 0,
        ;
    }
}

/// Compute the known position of a known stop.
fn known_value_exec(points: &Vec<Option<i64>>, total: i64, i: usize) -> (r: i64)
    requires
        points_in_range(points@),
        resolved_in_range(total),
        i < points@.len(),
        is_known(points@, i as int),
    ensures
        r as int == known_value(points@, total, i as int),
        resolved_in_range(r),
{
    match points[i] {
        Some(v) => v,
        None => {
            if i == 0 {
                0
            } else {
                total
            }
        },
    }
}

/// Whether a stop's position is known before interpolation.
fn is_known_exec(points: &Vec<Option<i64>>, i: usize) -> (r: bool)
    requires
        i < points@.len(),
    ensures
        r == is_known(points@, i as int),
{
    points[i].is_some() || i == 0 || i == points.len() - 1
}

/// The positions every stop gets before the monotonicity pass: explicit and
/// endpoint-assigned positions as they are, runs of automatic stops spaced
/// evenly between their known neighbours.
fn raw_positions(points: &Vec<Option<i64>>, total: i64) -> (r: Vec<i64>)
    requires
        points_in_range(points@),
        resolved_in_range(total),
    ensures
        r@.len() == points@.len(),
        forall|k: int| 0 <= k < points@.len() ==> r@[k] as int == raw_value(points@, total, k),
        forall|k: int| 0 <= k < points@.len() ==> resolved_in_range(#[trigger] r@[k]),
{
    let ghost pts = points@;
    let n = points.len();
    let mut out: Vec<i64> = Vec::new();
    if n == 0 {
        return out;
    }
    let v0 = known_value_exec(points, total, 0);
    out.push(v0);
    let mut lo: usize = 0;
    let mut vlo: i64 = v0;
    let mut i: usize = 1;
    while i < n
        invariant
            pts == points@,
            points_in_range(pts),
            resolved_in_range(total),
            n == pts.len(),
            1 <= i <= n,
            out@.len() == i,
            forall|k: int| 0 <= k < i ==> out@[k] as int == raw_value(pts, total, k),
            forall|k: int| 0 <= k < i ==> resolved_in_range(#[trigger] out@[k]),
            lo < i,
            is_known(pts, lo as int),
            forall|j: int| lo < j < i ==> !is_known(pts, j),
            vlo as int == known_value(pts, total, lo as int),
            resolved_in_range(vlo),
        decreases n - i,
    {
        if is_known_exec(points, i) {
            let v = known_value_exec(points, total, i);
            out.push(v);
            lo = i;
            vlo = v;
            i = i + 1;
        } else {
            let mut hi: usize = i + 1;
            while hi < n - 1 && !is_known_exec(points, hi)
                invariant
                    pts == points@,
                    n == pts.len(),
                    2 <= n,
                    i < hi <= n - 1,
                    forall|j: int| i <= j < hi ==> !is_known(pts, j),
                decreases n - hi,
            {
                hi = hi + 1;
            }
            proof {
                assert(is_known(pts, hi as int));
            }
            let vhi = known_value_exec(points, total, hi);
            let span = (hi - lo) as i64;
            let diff = vhi - vlo;
            let mut k: usize = i;
            while k < hi
                invariant
                    pts == points@,
                    points_in_range(pts),
                    resolved_in_range(total),
                    n == pts.len(),
                    lo < i <= k <= hi <= n - 1,
                    is_known(pts, lo as int),
                    is_known(pts, hi as int),
                    forall|j: int| lo < j < hi ==> !is_known(pts, j),
                    vlo as int == known_value(pts, total, lo as int),
                    vhi as int == known_value(pts, total, hi as int),
                    resolved_in_range(vlo),
                    resolved_in_range(vhi),
                    span == hi - lo,
                    diff == vhi - vlo,
                    out@.len() == k,
                    forall|m: int| 0 <= m < k ==> out@[m] as int == raw_value(pts, total, m),
                    forall|m: int| 0 <= m < k ==> resolved_in_range(#[trigger] out@[m]),
                decreases hi - k,
            {
                proof {
                    assert(!is_known(pts, k as int));
                    lemma_prev_known_char(pts, lo as int, k as int);
                    lemma_next_known_char(pts, k as int, hi as int);
                    assert(-2_000_000_000_000_000 <= diff <= 2_000_000_000_000_000);
                    assert(-4_000_000_000_000_000_000 <= diff * ((k - lo) as i64)
                        <= 4_000_000_000_000_000_000) by (nonlinear_arith)
                        requires
                            -2_000_000_000_000_000 <= diff <= 2_000_000_000_000_000,
                            0 <= (k - lo) as i64 <= 2000,
                    ;
                    lemma_interp_div_bounds(diff as int, k - lo, hi - lo);
                }
                let num = diff * ((k - lo) as i64);
                let q = floor_div(num, span);
                out.push(vlo + q);
                k = k + 1;
            }
            out.push(vhi);
            lo = hi;
            vlo = vhi;
            i = hi + 1;
        }
    }
    out
}

/// Raise each position to the largest position at or before it.
fn running_max(v: &mut Vec<i64>)
    ensures
        final(v)@.len() == old(v)@.len(),
        forall|k: int|
            0 <= k < final(v)@.len() ==> final(v)@[k] as int == seq_running_max(old(v)@, k),
{
    let n = v.len();
    if n == 0 {
        return ;
    }
    let mut i: usize = 1;
    while i < n
        invariant
            n == v@.len(),
            v@.len() == old(v)@.len(),
            1 <= i <= n,
            forall|k: int| 0 <= k < i ==> v@[k] as int == seq_running_max(old(v)@, k),
            forall|k: int| i <= k < n ==> v@[k] == old(v)@[k],
        decreases n - i,
    {
        if v[i] < v[i - 1] {
            let prev = v[i - 1];
            v.set(i, prev);
        }
        i = i + 1;
    }
}

/// The largest element of `s` at or before index `i`.
pub open spec fn seq_running_max(s: Seq<i64>, i: int) -> int
    decreases i,
{
    if i <= 0 {
        s[0] as int
    } else {
        max(seq_running_max(s, i - 1), s[i] as int)
    }
}

/// The running maximum of the raw positions is the normalized position.
proof fn lemma_norm_is_running_max(points: Seq<Option<i64>>, total: i64, raws: Seq<i64>, i: int)
    requires
        raws.len() == points.len(),
        0 <= i < points.len(),
        forall|j: int| 0 <= j <= i ==> raws[j] as int == raw_value(points, total, j),
    ensures
        seq_running_max(raws, i) == normalized_value(points, total, i),
    decreases i,
{
    if i > 0 {
        lemma_norm_is_running_max(points, total, raws, i - 1);
    }
}

/// Normalize a stop-position list: `None` marks an automatic stop. An
/// automatic first stop takes position `0`, an automatic last stop the
/// gradient's total extent, every other run of automatic stops is spaced
/// evenly between its known neighbours, and finally each position is raised
/// to the largest position before it, so the result never decreases.
pub fn normalize_stop_positions(points: &Vec<Option<i64>>, total: i64) -> (r: Vec<i64>)
    requires
        points_in_range(points@),
        resolved_in_range(total),
    ensures
        r@ == normalized_seq(points@, total),
        r@.len() == points@.len(),
        forall|k: int|
            0 <= k < points@.len() ==> r@[k] as int == normalized_value(points@, total, k),
        forall|k: int| 0 <= k < points@.len() - 1 ==> #[trigger] r@[k] <= r@[k + 1],
{
    let mut out = raw_positions(points, total);
    let ghost raws = out@;
    running_max(&mut out);
    proof {
        assert forall|k: int| 0 <= k < points@.len() implies out@[k] as int == normalized_value(
            points@,
            total,
            k,
        ) by {
            lemma_norm_is_running_max(points@, total, raws, k);
        }
        assert forall|k: int| 0 <= k < points@.len() - 1 implies #[trigger] out@[k] <= out@[k + 1] by {
            lemma_normalized_monotone(points@, total, k);
        }
        assert forall|k: int| 0 <= k < points@.len() implies out@[k]
            == normalized_seq(points@, total)[k] by {
            lemma_normalized_value_bounds(points@, total, k);
        }
        assert(out@ =~= normalized_seq(points@, total));
    }
    out
}

} // verus!
