use vstd::prelude::*;
use vstd::arithmetic::div_mod::lemma_fundamental_div_mod_converse;
use crate::arith::lemma_div_bounds;

verus! {

/// The largest power of ten that is at most `range` (for `range >= 1`):
/// `10^floor(log10(range))`.
pub open spec fn spec_magnitude(range: int) -> int
    decreases range,
{
    if range < 10 {
        1
    } else {
        10 * spec_magnitude(range / 10)
    }
}

/// The "nice" tick step for a range: with `m` its magnitude, `2m` when
/// `range / m >= 5`, `m` when `range / m >= 2.5`, else `m / 2.5`; on this
/// integer scale the finest step is one unit.
pub open spec fn spec_nice_step(range: int) -> int {
    let m = spec_magnitude(range);
    if range >= 5 * m {
        2 * m
    } else if 2 * range >= 5 * m {
        m
    } else if (2 * m) / 5 >= 1 {
        (2 * m) / 5
    } else {
        1
    }
}

/// The ticks of `[start, end]`: `start`, then one step further each time, as
/// long as the value does not exceed `end`.
pub open spec fn spec_ticks(start: int, end: int) -> Seq<int> {
    let step = spec_nice_step(end - start);
    Seq::new(((end - start) / step + 1) as nat, |k: int| start + k * step)
}

/// The five ticks of `[start, end]` split into four equal parts (rounded down).
pub open spec fn spec_quarter_ticks(start: int, end: int) -> Seq<int> {
    Seq::new(5, |k: int| start + (k * (end - start)) / 4)
}

pub proof fn lemma_magnitude_bounds(range: int)
    requires
        range >= 1,
    ensures
        1 <= spec_magnitude(range) <= range,
        range < 10 * spec_magnitude(range),
    decreases range,
{
    if range >= 10 {
        lemma_div_bounds(range, 10);
        lemma_magnitude_bounds(range / 10);
    }
}

/// `spec_magnitude(range)`.
pub fn magnitude(range: i128) -> (m: i128)
    requires
        1 <= range <= 0x1_0000_0000_0000_0000,
    ensures
        m == spec_magnitude(range as int),
{
    let mut m: i128 = 1;
    let mut r: i128 = range;
    while r >= 10
        invariant
            1 <= m,
            1 <= r,
            m * r <= range,
            range <= 0x1_0000_0000_0000_0000,
            m * spec_magnitude(r as int) == spec_magnitude(range as int),
        decreases r,
    {
        proof {
            lemma_div_bounds(r as int, 10);
            let r2 = r / 10;
            assert(m * 10 * r2 <= m * r) by (nonlinear_arith)
                requires
                    r2 * 10 <= r,
                    m >= 1,
            ;
            assert(m * 10 * r2 >= m * 10) by (nonlinear_arith)
                requires
                    r2 >= 1,
                    m >= 1,
            ;
            assert(m * spec_magnitude(r as int) == (m * 10) * spec_magnitude(r2 as int))
                by (nonlinear_arith)
                requires
                    spec_magnitude(r as int) == 10 * spec_magnitude(r2 as int),
            ;
        }
        m = m * 10;
        r = r / 10;
    }
    m
}

/// The tick step that `calc_ticks` uses for `[start, end]`.
pub fn nice_step(start: i64, end: i64) -> (s: i64)
    requires
        start < end,
    ensures
        s == spec_nice_step(end - start),
        1 <= s <= 2 * (end - start),
{
    let range: i128 = end as i128 - start as i128;
    let m = magnitude(range);
    proof {
        lemma_magnitude_bounds(range as int);
    }
    let s: i128 = if range >= 5 * m {
        2 * m
    } else if 2 * range >= 5 * m {
        m
    } else if (2 * m) / 5 >= 1 {
        (2 * m) / 5
    } else {
        1
    };
    s as i64
}

/// Tick values for the axis `[start, end]` with the 1/2/5 step rule: `start`,
/// then `start + step`, `start + 2 * step`, ... while the value is at most
/// `end` (so `end` itself is a tick exactly when the step divides the range).
pub fn calc_ticks(start: i64, end: i64) -> (ticks: Vec<i64>)
    requires
        start < end,
    ensures
        ticks@.len() == spec_ticks(start as int, end as int).len(),
        forall|k: int|
            0 <= k < ticks@.len() ==> ticks@[k] as int == #[trigger] spec_ticks(
                start as int,
                end as int,
            )[k],
        forall|k: int| 0 <= k < ticks@.len() ==> start <= #[trigger] ticks@[k] <= end,
{
    let step = nice_step(start, end);
    let ghost range = end - start;
    let mut ticks: Vec<i64> = Vec::new();
    let mut i: i128 = start as i128;
    while i <= end as i128
        invariant
            start < end,
            start <= i,
            i - step <= end,
            1 <= step <= 2 * range,
            range == end - start,
            step == spec_nice_step(range),
            i == start + ticks@.len() * step,
            forall|k: int| 0 <= k < ticks@.len() ==> ticks@[k] as int == start + k * step,
            forall|k: int| 0 <= k < ticks@.len() ==> start <= #[trigger] ticks@[k] <= end,
        decreases (end as int) + (step as int) - (i as int),
    {
        ticks.push(i as i64);
        proof {
            let n = ticks@.len() as int;
            assert(start + n * step == start + (n - 1) * step + step) by (nonlinear_arith);
        }
        i = i + step as i128;
    }
    proof {
        let n = ticks@.len() as int;
        assert((n - 1) * step == n * step - step) by (nonlinear_arith);
        assert(0 <= range - (n - 1) * step < step);
        lemma_fundamental_div_mod_converse(range, step as int, n - 1, range - (n - 1) * step);
        assert(ticks@.len() == spec_ticks(start as int, end as int).len());
    }
    ticks
}

/// The five tick values of `[start, end]` split into four equal parts:
/// `start + k * (end - start) / 4` for `k` in `0..=4`, rounded down.
pub fn calc_tick4(start: i64, end: i64) -> (ticks: Vec<i64>)
    requires
        start < end,
    ensures
        ticks@.len() == 5,
        forall|k: int|
            0 <= k < 5 ==> ticks@[k] as int == #[trigger] spec_quarter_ticks(
                start as int,
                end as int,
            )[k],
{
    let range: i128 = end as i128 - start as i128;
    let mut ticks: Vec<i64> = Vec::new();
    let mut k: i128 = 0;
    while k < 5
        invariant
            0 <= k <= 5,
            start < end,
            range == end - start,
            ticks@.len() == k,
            forall|j: int|
                0 <= j < k ==> ticks@[j] as int == start + (j * (end - start)) / 4,
        decreases 5 - k,
    {
        proof {
            lemma_div_bounds(k * range, 4);
            assert(0 <= k * range <= 4 * range) by (nonlinear_arith)
                requires
                    0 <= k <= 4,
                    range >= 1,
            ;
            assert(0 <= (k * range) / 4 <= range) by (nonlinear_arith)
                requires
                    ((k * range) / 4) * 4 <= k * range,
                    k * range < ((k * range) / 4) * 4 + 4,
                    0 <= k * range <= 4 * range,
            ;
        }
        let t: i128 = start as i128 + k * range / 4;
        ticks.push(t as i64);
        k = k + 1;
    }
    ticks
}

} // verus!
