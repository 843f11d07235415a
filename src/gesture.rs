use vstd::prelude::*;
use crate::arith::lemma_div_bounds;
use crate::geometry::{Pos, ScreenRect};
use crate::transform::{data_y, spec_data_y};
use crate::viewport::{normalize, spec_normalize, spec_pan_start, Memory, LIMIT};

verus! {

/// The pointer as the host sees it in one frame.
#[derive(Clone, Copy, Debug, PartialEq, Eq, Structural)]
pub struct PointerInput {
    /// The pointer position, if the pointer is over the window.
    pub pos: Option<Pos>,
    /// Whether the primary button is held.
    pub pressed: bool,
    /// The vertical scroll delta of this frame (positive: scroll up).
    pub scroll: i32,
}

/// Whether a drag goes on this frame: the button is held at a known position,
/// and either a drag was already going on or the position is inside the plot.
///
/// A drag starts only inside the plot, but once started it follows the
/// pointer across the plot's edge for as long as the button is held: the
/// pointer "leaves" the drag when the host reports no position for it
/// (`pos` is `None`) or when the button is released. This keeps a pan
/// going when the hand overshoots the edge, as interactive plots do.
pub open spec fn spec_engaged(m: Memory, r: ScreenRect, pos: Option<Pos>, pressed: bool) -> bool {
    &&& pressed
    &&& pos is Some
    &&& (m.last_pos is Some || r.spec_contains(pos->0))
}

/// The drag step of one frame.
///
/// While engaged, the range moves by the data distance between the previous
/// and the current pointer position (both read with the range of this frame),
/// and the current position is remembered. Otherwise the drag ends: the range
/// stays and no position is remembered.
pub open spec fn spec_drag(m: Memory, r: ScreenRect, pos: Option<Pos>, pressed: bool) -> Memory {
    if spec_engaged(m, r, pos, pressed) {
        let p = pos->0;
        let ys = match m.last_pos {
            Some(p0) => spec_pan_start(
                m.y_start as int,
                m.y_end as int,
                spec_data_y(m, r, p0.y as int) - spec_data_y(m, r, p.y as int),
            ),
            None => m.y_start as int,
        };
        Memory { y_start: ys as i64, y_end: (ys + m.span()) as i64, last_pos: Some(p) }
    } else {
        Memory { last_pos: None, ..m }
    }
}

pub open spec fn spec_clamp_scroll(s: int) -> int {
    if s < -10 {
        -10
    } else if s > 10 {
        10
    } else {
        s
    }
}

/// How far one end of the range moves on a zoom: `c / 100` of the span, times
/// the share `d / h` of the plot height on that side of the pointer, rounded
/// toward zero.
pub open spec fn spec_zoom_shift(c: int, d: int, span: int, h: int) -> int {
    if c >= 0 {
        (c * d * span) / (100 * h)
    } else {
        -(((-c) * d * span) / (100 * h))
    }
}

/// The zoom step of one frame.
///
/// With the pointer inside the plot and a scroll delta `s != 0` (clamped to
/// `[-10, 10]`), the start moves by the shift for the distance to the bottom
/// edge and the end moves the other way by the shift for the distance to the
/// top edge, so that the value under the pointer stays in place: scrolling up
/// zooms in, down zooms out. The result is then corrected as by `set_y_range`.
pub open spec fn spec_zoom(m: Memory, r: ScreenRect, pos: Option<Pos>, scroll: int) -> Memory {
    if pos is Some && r.spec_contains(pos->0) && scroll != 0 {
        let p = pos->0;
        let c = spec_clamp_scroll(scroll);
        let lo = spec_zoom_shift(c, r.spec_bottom() - p.y, m.span(), r.span_y());
        let hi = spec_zoom_shift(c, p.y - r.top, m.span(), r.span_y());
        let se = spec_normalize(m.y_start + lo, m.y_end - hi);
        Memory { y_start: se.0 as i64, y_end: se.1 as i64, last_pos: m.last_pos }
    } else {
        m
    }
}

/// One frame of gestures: the drag step if dragging is enabled, then the zoom
/// step (on the range that the drag left) if zooming is enabled.
pub open spec fn spec_gestures(
    m: Memory,
    r: ScreenRect,
    input: PointerInput,
    drag: bool,
    zoom: bool,
) -> Memory {
    let m1 = if drag {
        spec_drag(m, r, input.pos, input.pressed)
    } else {
        m
    };
    if zoom {
        spec_zoom(m1, r, input.pos, input.scroll as int)
    } else {
        m1
    }
}

/// A drag through the positions `ps`, one frame each, with the button held.
pub open spec fn spec_drag_path(m: Memory, r: ScreenRect, ps: Seq<Pos>) -> Memory
    decreases ps.len(),
{
    if ps.len() == 0 {
        m
    } else {
        spec_drag_path(spec_drag(m, r, Some(ps[0]), true), r, ps.drop_first())
    }
}

/// `spec_zoom_shift(c, d, span, h)` computed on machine integers.
fn zoom_shift(c: i128, d: i128, span: i128, h: i128) -> (s: i128)
    requires
        -10 <= c <= 10,
        0 <= d <= 0x1_0000_0000,
        1 <= span <= 2 * LIMIT,
        1 <= h <= 0x1_0000_0000,
    ensures
        s == spec_zoom_shift(c as int, d as int, span as int, h as int),
        -0x10_0000_0000_0000_0000_0000_0000 < s < 0x10_0000_0000_0000_0000_0000_0000,
{
    let a: i128 = if c >= 0 { c } else { -c };
    assert(0 <= a * d <= 10 * 0x1_0000_0000) by (nonlinear_arith)
        requires
            0 <= a <= 10,
            0 <= d <= 0x1_0000_0000,
    ;
    assert(0 <= a * d * span <= 10 * 0x1_0000_0000 * 0x4000_0000_0000_0000) by (nonlinear_arith)
        requires
            0 <= a * d <= 10 * 0x1_0000_0000,
            1 <= span <= 0x4000_0000_0000_0000,
    ;
    let q = a * d * span / (100 * h);
    proof {
        lemma_div_bounds(a * d * span, 100 * h);
        assert(0 <= q <= a * d * span) by (nonlinear_arith)
            requires
                q * (100 * h) <= a * d * span,
                a * d * span < q * (100 * h) + 100 * h,
                h >= 1,
                a * d * span >= 0,
        ;
    }
    if c >= 0 {
        q
    } else {
        -q
    }
}

impl Memory {
    /// The drag step of one frame; see `spec_drag`.
    pub fn drag(&mut self, r: &ScreenRect, pos: Option<Pos>, pressed: bool)
        requires
            old(self).wf(),
        ensures
            *final(self) == spec_drag(*old(self), *r, pos, pressed),
            final(self).wf(),
            final(self).span() == old(self).span(),
    {
        let engaged = match pos {
            Some(p) => pressed && (self.last_pos.is_some() || r.contains(p)),
            None => false,
        };
        if engaged {
            let p = pos.unwrap();
            if let Some(p0) = self.last_pos {
                let y0 = data_y(self, r, p0.y);
                let y1 = data_y(self, r, p.y);
                self.pan(y0 - y1);
            }
            self.last_pos = Some(p);
        } else {
            self.last_pos = None;
        }
    }

    /// The zoom step of one frame; see `spec_zoom`.
    pub fn zoom(&mut self, r: &ScreenRect, pos: Option<Pos>, scroll: i32)
        requires
            old(self).wf(),
        ensures
            *final(self) == spec_zoom(*old(self), *r, pos, scroll as int),
            final(self).wf(),
    {
        if let Some(p) = pos {
            if r.contains(p) && scroll != 0 {
                let c: i128 = if scroll < -10 {
                    -10
                } else if scroll > 10 {
                    10
                } else {
                    scroll as i128
                };
                let h: i128 = if r.height >= 1 { r.height as i128 } else { 1 };
                let top = r.top as i128;
                let py = p.y as i128;
                let span = (self.y_end - self.y_start) as i128;
                let lo = zoom_shift(c, top + h - py, span, h);
                let hi = zoom_shift(c, py - top, span, h);
                let (s, e) = normalize(self.y_start as i128 + lo, self.y_end as i128 - hi);
                self.y_start = s;
                self.y_end = e;
            }
        }
    }

    /// One frame of gestures; see `spec_gestures`.
    pub fn apply_gestures(&mut self, r: &ScreenRect, input: &PointerInput, drag: bool, zoom: bool)
        requires
            old(self).wf(),
        ensures
            *final(self) == spec_gestures(*old(self), *r, *input, drag, zoom),
            final(self).wf(),
    {
        if drag {
            self.drag(r, input.pos, input.pressed);
        }
        if zoom {
            self.zoom(r, input.pos, input.scroll);
        }
    }
}

/// One drag step keeps a well-formed range well formed and keeps its span.
pub proof fn lemma_drag_keeps_span(m: Memory, r: ScreenRect, pos: Option<Pos>, pressed: bool)
    requires
        m.wf(),
    ensures
        spec_drag(m, r, pos, pressed).wf(),
        spec_drag(m, r, pos, pressed).span() == m.span(),
{
}

/// Panning never changes the visible span: after a drag through any sequence
/// of pointer positions, `y_end - y_start` is what it was before.
pub proof fn lemma_drag_path_keeps_span(m: Memory, r: ScreenRect, ps: Seq<Pos>)
    requires
        m.wf(),
    ensures
        spec_drag_path(m, r, ps).wf(),
        spec_drag_path(m, r, ps).span() == m.span(),
    decreases ps.len(),
{
    if ps.len() > 0 {
        lemma_drag_keeps_span(m, r, Some(ps[0]), true);
        lemma_drag_path_keeps_span(spec_drag(m, r, Some(ps[0]), true), r, ps.drop_first());
    }
}

/// The data distance from the top edge of the plot down to screen y `y`,
/// rounded down: `spec_data_y` is `y_end` minus this.
pub open spec fn spec_offset(m: Memory, r: ScreenRect, y: int) -> int {
    ((y - r.top) * m.eff_span()) / r.span_y()
}

/// The last position of a drag that starts at `p0` and goes on through `ps`.
pub open spec fn drag_end(p0: Pos, ps: Seq<Pos>) -> Pos {
    if ps.len() == 0 {
        p0
    } else {
        ps.last()
    }
}

/// A drag already going on (last position `p0`) through `ps` moves the range
/// by exactly the offset between `p0` and the last position, as long as no
/// intermediate range reaches the bounds `[-LIMIT, LIMIT]`.
pub proof fn lemma_drag_path_offset_from(m: Memory, r: ScreenRect, p0: Pos, ps: Seq<Pos>)
    requires
        m.wf(),
        m.last_pos == Some(p0),
        forall|k: int|
            0 <= k < ps.len() ==> -LIMIT <= m.y_start + spec_offset(m, r, #[trigger] ps[k].y as int)
                - spec_offset(m, r, p0.y as int) <= LIMIT - m.span(),
    ensures
        spec_drag_path(m, r, ps).y_start == m.y_start + spec_offset(m, r, drag_end(p0, ps).y as int)
            - spec_offset(m, r, p0.y as int),
        spec_drag_path(m, r, ps).span() == m.span(),
        spec_drag_path(m, r, ps).last_pos == Some(drag_end(p0, ps)),
    decreases ps.len(),
{
    if ps.len() > 0 {
        let p = ps[0];
        let m1 = spec_drag(m, r, Some(p), true);
        assert(-LIMIT <= m.y_start + spec_offset(m, r, ps[0].y as int) - spec_offset(m, r, p0.y as int)
            <= LIMIT - m.span());
        assert(m1.y_start == m.y_start + spec_offset(m, r, p.y as int) - spec_offset(m, r, p0.y as int));
        assert(m1.eff_span() == m.eff_span());
        let rest = ps.drop_first();
        assert forall|k: int| 0 <= k < rest.len() implies -LIMIT <= m1.y_start + spec_offset(
            m1,
            r,
            #[trigger] rest[k].y as int,
        ) - spec_offset(m1, r, p.y as int) <= LIMIT - m1.span() by {
            assert(rest[k] == ps[k + 1]);
        }
        lemma_drag_path_offset_from(m1, r, p, rest);
        if rest.len() > 0 {
            assert(rest.last() == ps.last());
        }
    }
}

/// A drag that starts inside the plot at `ps[0]` and goes on through the rest
/// of `ps` pans the range by the offset between the first and the last
/// position (the first frame only records the position), as long as no
/// intermediate range reaches the bounds `[-LIMIT, LIMIT]`. Dragging down
/// raises the range; the span stays.
pub proof fn lemma_drag_path_offset(m: Memory, r: ScreenRect, ps: Seq<Pos>)
    requires
        m.wf(),
        m.last_pos is None,
        ps.len() >= 1,
        r.spec_contains(ps[0]),
        forall|k: int|
            0 <= k < ps.len() ==> -LIMIT <= m.y_start + spec_offset(m, r, #[trigger] ps[k].y as int)
                - spec_offset(m, r, ps[0].y as int) <= LIMIT - m.span(),
    ensures
        spec_drag_path(m, r, ps).y_start == m.y_start + spec_offset(m, r, ps.last().y as int)
            - spec_offset(m, r, ps[0].y as int),
        spec_drag_path(m, r, ps).span() == m.span(),
        spec_drag_path(m, r, ps).last_pos == Some(ps.last()),
{
    let p0 = ps[0];
    let m1 = spec_drag(m, r, Some(p0), true);
    assert(m1 == Memory { last_pos: Some(p0), ..m });
    let rest = ps.drop_first();
    assert forall|k: int| 0 <= k < rest.len() implies -LIMIT <= m1.y_start + spec_offset(
        m1,
        r,
        #[trigger] rest[k].y as int,
    ) - spec_offset(m1, r, p0.y as int) <= LIMIT - m1.span() by {
        assert(rest[k] == ps[k + 1]);
    }
    lemma_drag_path_offset_from(m1, r, p0, rest);
    if rest.len() > 0 {
        assert(rest.last() == ps.last());
    }
}

/// A frame without the button held ends any drag and leaves the range as it
/// was; so does every later frame until the button is pressed again.
pub proof fn lemma_release_ends_drag(m: Memory, r: ScreenRect, pos: Option<Pos>)
    ensures
        !spec_drag(m, r, pos, false).is_dragging(),
        spec_drag(m, r, pos, false).y_start == m.y_start,
        spec_drag(m, r, pos, false).y_end == m.y_end,
        spec_drag(spec_drag(m, r, pos, false), r, pos, false) == spec_drag(m, r, pos, false),
{
}

/// Zooming in with the pointer at the exact vertical center of the plot moves
/// both ends of the range inward by the same amount: the midpoint stays.
pub proof fn lemma_zoom_in_at_center(m: Memory, r: ScreenRect, p: Pos, scroll: int)
    requires
        m.wf(),
        r.height >= 1,
        r.left <= p.x <= r.left + r.width,
        2 * (p.y - r.top) == r.height,
        scroll > 0,
    ensures
        ({
            let z = spec_zoom(m, r, Some(p), scroll);
            &&& z.y_start - m.y_start == m.y_end - z.y_end
            &&& z.y_start >= m.y_start
            &&& z.wf()
        }),
{
    let c = spec_clamp_scroll(scroll);
    let h = r.span_y();
    let d = p.y - r.top;
    let span = m.span();
    let lo = spec_zoom_shift(c, d, span, h);
    assert(r.spec_bottom() - p.y == d);
    lemma_div_bounds(c * d * span, 100 * h);
    assert(0 <= lo && 2 * lo < span) by (nonlinear_arith)
        requires
            lo * (100 * h) <= c * d * span,
            c * d * span < lo * (100 * h) + 100 * h,
            1 <= c <= 10,
            2 * d == h,
            h >= 1,
            span >= 1,
    ;
}

} // verus!
