use vstd::prelude::*;
use crate::arith::{floor_div, lemma_div_bounds, lemma_div_toward_zero};
use crate::geometry::ScreenRect;
use crate::viewport::{Memory, LIMIT};

verus! {

/// The horizontal domain end that the transforms divide by: at least one.
pub open spec fn eff_x_end(x_end: int) -> int {
    if x_end >= 1 {
        x_end
    } else {
        1
    }
}

/// Screen y of the data value `v`: `y_end` maps to the top edge, `y_start`
/// to the bottom edge (larger values are higher up), rounded down.
pub open spec fn spec_screen_y(m: Memory, r: ScreenRect, v: int) -> int {
    r.top + ((m.y_end - v) * r.span_y()) / m.eff_span()
}

/// Data value at screen y `sy`: the inverse of `spec_screen_y`, rounded down
/// in screen units.
pub open spec fn spec_data_y(m: Memory, r: ScreenRect, sy: int) -> int {
    m.y_end - ((sy - r.top) * m.eff_span()) / r.span_y()
}

/// Screen x of the sample index `i` in the domain `[0, x_end]`.
pub open spec fn spec_screen_x(x_end: int, r: ScreenRect, i: int) -> int {
    r.left + (i * r.span_x()) / eff_x_end(x_end)
}

/// Sample index at screen x `sx`: the inverse of `spec_screen_x`.
pub open spec fn spec_data_x(x_end: int, r: ScreenRect, sx: int) -> int {
    ((sx - r.left) * eff_x_end(x_end)) / r.span_x()
}

pub fn screen_y(m: &Memory, r: &ScreenRect, v: i64) -> (s: i128)
    requires
        m.wf(),
    ensures
        s == spec_screen_y(*m, *r, v as int),
{
    let h: i128 = if r.height >= 1 { r.height as i128 } else { 1 };
    let d: i128 = m.y_end as i128 - v as i128;
    let span: i128 = (m.y_end - m.y_start) as i128;
    assert(-0x1_0000_0000_0000_0000 * 0x7fff_ffff <= d * h <= 0x1_0000_0000_0000_0000
        * 0x7fff_ffff) by (nonlinear_arith)
        requires
            -0x1_0000_0000_0000_0000 <= d <= 0x1_0000_0000_0000_0000,
            1 <= h <= 0x7fff_ffff,
    ;
    let q = floor_div(d * h, span);
    proof {
        lemma_div_toward_zero(d * h, span as int);
    }
    r.top as i128 + q
}

pub fn data_y(m: &Memory, r: &ScreenRect, sy: i32) -> (v: i128)
    requires
        m.wf(),
    ensures
        v == spec_data_y(*m, *r, sy as int),
        -0x1_0000_0000_0000_0000_0000_0000 < v < 0x1_0000_0000_0000_0000_0000_0000,
{
    let h: i128 = if r.height >= 1 { r.height as i128 } else { 1 };
    let d: i128 = sy as i128 - r.top as i128;
    let span: i128 = (m.y_end - m.y_start) as i128;
    assert(-0x1_0000_0000 * 0x4000_0000_0000_0000 <= d * span <= 0x1_0000_0000
        * 0x4000_0000_0000_0000) by (nonlinear_arith)
        requires
            -0x1_0000_0000 <= d <= 0x1_0000_0000,
            1 <= span <= 0x4000_0000_0000_0000,
    ;
    let q = floor_div(d * span, h);
    proof {
        lemma_div_toward_zero(d * span, h as int);
    }
    m.y_end as i128 - q
}

pub fn screen_x(x_end: u32, r: &ScreenRect, i: u32) -> (s: i64)
    ensures
        s == spec_screen_x(x_end as int, *r, i as int),
{
    let w: i128 = if r.width >= 1 { r.width as i128 } else { 1 };
    let xe: i128 = if x_end >= 1 { x_end as i128 } else { 1 };
    assert(0 <= i * w <= 0xffff_ffff * 0x7fff_ffff) by (nonlinear_arith)
        requires
            0 <= i <= 0xffff_ffff,
            1 <= w <= 0x7fff_ffff,
    ;
    let n: i128 = i as i128 * w;
    let q = n / xe;
    proof {
        lemma_div_toward_zero(n as int, xe as int);
    }
    r.left as i64 + q as i64
}

pub fn data_x(x_end: u32, r: &ScreenRect, sx: i32) -> (i: i128)
    ensures
        i == spec_data_x(x_end as int, *r, sx as int),
{
    let w: i128 = if r.width >= 1 { r.width as i128 } else { 1 };
    let xe: i128 = if x_end >= 1 { x_end as i128 } else { 1 };
    let d: i128 = sx as i128 - r.left as i128;
    assert(-0x1_0000_0000 * 0x1_0000_0000 <= d * xe <= 0x1_0000_0000 * 0x1_0000_0000)
        by (nonlinear_arith)
        requires
            -0x1_0000_0000 <= d <= 0x1_0000_0000,
            1 <= xe <= 0x1_0000_0000,
    ;
    floor_div(d * xe, w)
}

/// Mapping `d` forward with `d * h / s` and back with `q * s / h`, both rounded
/// down, loses less than one step `s / h` plus one unit, and never overshoots.
pub proof fn lemma_scale_round_trip(d: int, h: int, s: int)
    requires
        h >= 1,
        s >= 1,
    ensures
        ({
            let back = (((d * h) / s) * s) / h;
            &&& back <= d
            &&& (d - back) * h < h + s
        }),
{
    let q = (d * h) / s;
    let back = (q * s) / h;
    lemma_div_bounds(d * h, s);
    lemma_div_bounds(q * s, h);
    assert(back <= d) by (nonlinear_arith)
        requires
            back * h <= q * s,
            q * s <= d * h,
            h >= 1,
    ;
    assert((d - back) * h < h + s) by (nonlinear_arith)
        requires
            d * h < q * s + s,
            q * s < back * h + h,
    ;
}

/// A data value mapped to the screen and back comes back within one screen
/// pixel's worth of data (plus one unit of rounding), never below itself.
pub proof fn lemma_round_trip_y(m: Memory, r: ScreenRect, v: int)
    ensures
        ({
            let back = spec_data_y(m, r, spec_screen_y(m, r, v));
            &&& v <= back
            &&& (back - v) * r.span_y() < r.span_y() + m.eff_span()
        }),
{
    lemma_scale_round_trip(m.y_end - v, r.span_y(), m.eff_span());
}

/// A sample index mapped to the screen and back comes back within one screen
/// pixel's worth of samples (plus one), never above itself.
pub proof fn lemma_round_trip_x(x_end: int, r: ScreenRect, i: int)
    ensures
        ({
            let back = spec_data_x(x_end, r, spec_screen_x(x_end, r, i));
            &&& back <= i
            &&& (i - back) * r.span_x() < r.span_x() + eff_x_end(x_end)
        }),
{
    lemma_scale_round_trip(i, r.span_x(), eff_x_end(x_end));
}

} // verus!
