use vstd::prelude::*;
use crate::geometry::ScreenRect;
use crate::gesture::{spec_gestures, PointerInput};
use crate::registry::PlotCtx;
use crate::ticks::{calc_ticks, spec_ticks};
use crate::geometry::Pos;
use crate::transform::{
    data_x,
    data_y,
    eff_x_end,
    screen_x,
    screen_y,
    spec_data_x,
    spec_data_y,
    spec_screen_x,
    spec_screen_y,
};
use crate::display::{palette_index, PALETTE_LEN};
use crate::viewport::Memory;

verus! {

/// Room on the left of the plot for the y tick labels.
pub const MARGIN_LEFT: i32 = 40;

/// Room below the plot for the x tick labels.
pub const MARGIN_BOTTOM: i32 = 20;

/// Room above the plot for the title.
pub const MARGIN_TOP: i32 = 10;

/// Room on the right, between neighbouring plots.
pub const SPACING: i32 = 4;

/// The configuration of one plot: which plot it is, how large, what it shows
/// and which gestures it takes.
pub struct Plot {
    pub id: u64,
    pub width: i32,
    pub height: i32,
    pub title: Option<String>,
    pub show_title: bool,
    pub show_xticks: bool,
    pub show_yticks: bool,
    pub drag_yaxis: bool,
    pub zoom_y: bool,
    /// The end of the horizontal domain `[0, x_end]`, in samples.
    pub x_end: u32,
}

/// A tick: its value on the axis and its screen coordinate across the axis.
#[derive(Clone, Copy, Debug, PartialEq, Eq, Structural)]
pub struct Tick {
    pub value: i64,
    pub screen: i128,
}

/// What one frame of a plot draws: the plot rectangle, the ticks of both axes
/// and the polyline of the samples, all in screen coordinates.
pub struct PlotFrame {
    pub rect: ScreenRect,
    pub x_ticks: Vec<Tick>,
    pub y_ticks: Vec<Tick>,
    pub line: Vec<(i64, i128)>,
    /// The viewport state that the frame was drawn with.
    pub memory: Memory,
    /// The palette entry of the line: plot ids count from one and cycle
    /// through the palette.
    pub palette: usize,
}

/// The plot rectangle inside `full`: room is left for the y labels on the
/// left, the x labels below and the title above when they are shown, and
/// for the spacing on the right.
pub open spec fn spec_plot_rect(p: Plot, full: ScreenRect) -> ScreenRect {
    let lm: int = if p.show_yticks { MARGIN_LEFT as int } else { 0 };
    let bm: int = if p.show_xticks { MARGIN_BOTTOM as int } else { 0 };
    let tm: int = if p.show_title { MARGIN_TOP as int } else { 0 };
    ScreenRect {
        left: (full.left + lm) as i32,
        top: (full.top + tm) as i32,
        width: (full.width - lm - SPACING) as i32,
        height: (full.height - tm - bm) as i32,
    }
}

/// `full` can hold the margins without leaving the range of `i32`.
pub open spec fn fits_margins(full: ScreenRect) -> bool {
    &&& full.width >= 0
    &&& full.height >= 0
    &&& full.left <= i32::MAX - MARGIN_LEFT
    &&& full.top <= i32::MAX - MARGIN_TOP
}

/// The settings of a new plot: 100 by 100 pixels over 1000 samples, no title
/// and no tick labels shown, no gestures taken.
pub open spec fn spec_default_plot(id: u64) -> Plot {
    Plot {
        id,
        width: 100,
        height: 100,
        title: None,
        show_title: false,
        show_xticks: false,
        show_yticks: false,
        drag_yaxis: false,
        zoom_y: false,
        x_end: 1000,
    }
}

impl Plot {
    /// A plot of 100 by 100 pixels over 1000 samples, showing no title and no
    /// tick labels, taking no gestures.
    pub fn new(id: u64) -> (r: Plot)
        ensures
            r == spec_default_plot(id),
    {
        Plot {
            id,
            width: 100,
            height: 100,
            title: None,
            show_title: false,
            show_xticks: false,
            show_yticks: false,
            drag_yaxis: false,
            zoom_y: false,
            x_end: 1000,
        }
    }

    pub fn title(self, title: String) -> (r: Plot)
        ensures
            r == (Plot { title: Some(title), ..self }),
    {
        Plot { title: Some(title), ..self }
    }

    pub fn size(self, width: i32, height: i32) -> (r: Plot)
        ensures
            r == (Plot { width, height, ..self }),
    {
        Plot { width, height, ..self }
    }

    pub fn show_title(self, show: bool) -> (r: Plot)
        ensures
            r == (Plot { show_title: show, ..self }),
    {
        Plot { show_title: show, ..self }
    }

    /// Shows the x tick labels (the same setting as `show_xtick_val`).
    pub fn show_xlabel(self, show: bool) -> (r: Plot)
        ensures
            r == (Plot { show_xticks: show, ..self }),
    {
        Plot { show_xticks: show, ..self }
    }

    pub fn show_xtick_val(self, show: bool) -> (r: Plot)
        ensures
            r == (Plot { show_xticks: show, ..self }),
    {
        Plot { show_xticks: show, ..self }
    }

    pub fn show_ytick_val(self, show: bool) -> (r: Plot)
        ensures
            r == (Plot { show_yticks: show, ..self }),
    {
        Plot { show_yticks: show, ..self }
    }

    pub fn set_drag_yaxis(self, drag: bool) -> (r: Plot)
        ensures
            r == (Plot { drag_yaxis: drag, ..self }),
    {
        Plot { drag_yaxis: drag, ..self }
    }

    pub fn set_zoom_y(self, zoom: bool) -> (r: Plot)
        ensures
            r == (Plot { zoom_y: zoom, ..self }),
    {
        Plot { zoom_y: zoom, ..self }
    }

    pub fn set_x_end(self, x_end: u32) -> (r: Plot)
        ensures
            r == (Plot { x_end, ..self }),
    {
        Plot { x_end, ..self }
    }

    /// The plot rectangle inside the allotted rectangle `full`.
    pub fn plot_rect(&self, full: &ScreenRect) -> (r: ScreenRect)
        requires
            fits_margins(*full),
        ensures
            r == spec_plot_rect(*self, *full),
    {
        let lm: i32 = if self.show_yticks { MARGIN_LEFT } else { 0 };
        let bm: i32 = if self.show_xticks { MARGIN_BOTTOM } else { 0 };
        let tm: i32 = if self.show_title { MARGIN_TOP } else { 0 };
        ScreenRect {
            left: full.left + lm,
            top: full.top + tm,
            width: full.width - lm - SPACING,
            height: full.height - tm - bm,
        }
    }

    /// One frame of this plot in the allotted rectangle `full`: the gestures of
    /// `input` are applied to the plot's stored state (created if need be),
    /// then the ticks of both axes (with the 1/2/5 rule) and the polyline of
    /// `samples` (sample `i` at index `i`) are mapped to the screen with the
    /// updated range.
    pub fn show(
        &self,
        ctx: &mut PlotCtx,
        full: &ScreenRect,
        input: &PointerInput,
        samples: &Vec<i32>,
    ) -> (f: PlotFrame)
        requires
            old(ctx).wf(),
            self.id >= 1,
            fits_margins(*full),
            samples@.len() <= u32::MAX,
        ensures
            final(ctx).wf(),
            final(ctx).initial() == old(ctx).initial(),
            f.rect == spec_plot_rect(*self, *full),
            f.memory == spec_gestures(
                if old(ctx)@.contains_key(self.id) {
                    old(ctx)@[self.id]
                } else {
                    old(ctx).initial()
                },
                f.rect,
                *input,
                self.drag_yaxis,
                self.zoom_y,
            ),
            final(ctx)@ == old(ctx)@.insert(self.id, f.memory),
            f.memory.wf(),
            f.palette == (self.id - 1) % (PALETTE_LEN as int),
            f.x_ticks@.len() == spec_ticks(0, eff_x_end(self.x_end as int)).len(),
            forall|k: int|
                0 <= k < f.x_ticks@.len() ==> {
                    &&& f.x_ticks@[k].value == spec_ticks(0, eff_x_end(self.x_end as int))[k]
                    &&& f.x_ticks@[k].screen == spec_screen_x(
                        self.x_end as int,
                        f.rect,
                        #[trigger] f.x_ticks@[k].value as int,
                    )
                },
            f.y_ticks@.len() == spec_ticks(f.memory.y_start as int, f.memory.y_end as int).len(),
            forall|k: int|
                0 <= k < f.y_ticks@.len() ==> {
                    &&& f.y_ticks@[k].value == spec_ticks(
                        f.memory.y_start as int,
                        f.memory.y_end as int,
                    )[k]
                    &&& f.y_ticks@[k].screen == spec_screen_y(
                        f.memory,
                        f.rect,
                        #[trigger] f.y_ticks@[k].value as int,
                    )
                },
            f.line@.len() == samples@.len(),
            forall|i: int|
                0 <= i < f.line@.len() ==> {
                    &&& #[trigger] f.line@[i].0 == spec_screen_x(self.x_end as int, f.rect, i)
                    &&& f.line@[i].1 == spec_screen_y(f.memory, f.rect, samples@[i] as int)
                },
    {
        let rect = self.plot_rect(full);
        let m = ctx.apply_gestures(self.id, &rect, input, self.drag_yaxis, self.zoom_y);
        let x_end: i64 = if self.x_end >= 1 { self.x_end as i64 } else { 1 };
        let xs = calc_ticks(0, x_end);
        let mut x_ticks: Vec<Tick> = Vec::new();
        let mut k: usize = 0;
        while k < xs.len()
            invariant
                0 <= k <= xs@.len(),
                x_end == eff_x_end(self.x_end as int),
                xs@.len() == spec_ticks(0, x_end as int).len(),
                forall|j: int|
                    0 <= j < xs@.len() ==> xs@[j] as int == #[trigger] spec_ticks(
                        0,
                        x_end as int,
                    )[j],
                forall|j: int| 0 <= j < xs@.len() ==> 0 <= #[trigger] xs@[j] <= x_end,
                x_ticks@.len() == k,
                forall|j: int|
                    0 <= j < k ==> {
                        &&& x_ticks@[j].value == xs@[j]
                        &&& x_ticks@[j].screen == spec_screen_x(
                            self.x_end as int,
                            rect,
                            #[trigger] x_ticks@[j].value as int,
                        )
                    },
            decreases xs@.len() - k,
        {
            let t = xs[k];
            let s = screen_x(self.x_end, &rect, t as u32);
            x_ticks.push(Tick { value: t, screen: s as i128 });
            k = k + 1;
        }
        let ys = calc_ticks(m.y_start, m.y_end);
        let mut y_ticks: Vec<Tick> = Vec::new();
        let mut k: usize = 0;
        while k < ys.len()
            invariant
                0 <= k <= ys@.len(),
                m.wf(),
                ys@.len() == spec_ticks(m.y_start as int, m.y_end as int).len(),
                forall|j: int|
                    0 <= j < ys@.len() ==> ys@[j] as int == #[trigger] spec_ticks(
                        m.y_start as int,
                        m.y_end as int,
                    )[j],
                forall|j: int| 0 <= j < ys@.len() ==> m.y_start <= #[trigger] ys@[j] <= m.y_end,
                y_ticks@.len() == k,
                forall|j: int|
                    0 <= j < k ==> {
                        &&& y_ticks@[j].value == ys@[j]
                        &&& y_ticks@[j].screen == spec_screen_y(
                            m,
                            rect,
                            #[trigger] y_ticks@[j].value as int,
                        )
                    },
            decreases ys@.len() - k,
        {
            let t = ys[k];
            let s = screen_y(&m, &rect, t);
            y_ticks.push(Tick { value: t, screen: s });
            k = k + 1;
        }
        let mut line: Vec<(i64, i128)> = Vec::new();
        let mut i: usize = 0;
        while i < samples.len()
            invariant
                0 <= i <= samples@.len(),
                samples@.len() <= u32::MAX,
                m.wf(),
                line@.len() == i,
                forall|j: int|
                    0 <= j < i ==> {
                        &&& #[trigger] line@[j].0 == spec_screen_x(self.x_end as int, rect, j)
                        &&& line@[j].1 == spec_screen_y(m, rect, samples@[j] as int)
                    },
            decreases samples@.len() - i,
        {
            let sx = screen_x(self.x_end, &rect, i as u32);
            let sy = screen_y(&m, &rect, samples[i] as i64);
            line.push((sx, sy));
            i = i + 1;
        }
        let palette = palette_index(self.id);
        PlotFrame { rect, x_ticks, y_ticks, line, memory: m, palette }
    }
}

/// A point in data space: a sample index and a value.
#[derive(Clone, Copy, Debug, PartialEq, Eq, Structural)]
pub struct DataPoint {
    pub index: i128,
    pub value: i128,
}

/// The data point under the pointer, for a readout: the sample index and the
/// value at `pos` when it lies inside `r`, nothing otherwise.
pub fn value_at_pointer(m: &Memory, x_end: u32, r: &ScreenRect, pos: Option<Pos>) -> (v: Option<
    DataPoint,
>)
    requires
        m.wf(),
    ensures
        match pos {
            Some(p) => if r.spec_contains(p) {
                &&& v is Some
                &&& v->0.index == spec_data_x(x_end as int, *r, p.x as int)
                &&& v->0.value == spec_data_y(*m, *r, p.y as int)
            } else {
                v is None
            },
            None => v is None,
        },
{
    match pos {
        Some(p) => {
            if r.contains(p) {
                Some(DataPoint { index: data_x(x_end, r, p.x), value: data_y(m, r, p.y) })
            } else {
                None
            }
        },
        None => None,
    }
}

impl PlotCtx {
    /// The plot with id `id`, with the settings of `Plot::new`; its state is
    /// created if it has none yet.
    pub fn plot(&mut self, id: u64) -> (p: Plot)
        requires
            old(self).wf(),
        ensures
            final(self).wf(),
            final(self).initial() == old(self).initial(),
            final(self)@.contains_key(id),
            old(self)@.contains_key(id) ==> final(self)@ == old(self)@,
            !old(self)@.contains_key(id) ==> final(self)@ == old(self)@.insert(
                id,
                old(self).initial(),
            ),
            p == spec_default_plot(id),
    {
        let _ = self.get_or_create(id);
        Plot::new(id)
    }
}

} // verus!
