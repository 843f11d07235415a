use vstd::prelude::*;
use crate::geometry::Pos;

verus! {

/// The bound on the visible vertical range, in data units, on either side of
/// zero: a quarter of the range of `i64`, so that sums and differences of
/// bounds stay within machine integers.
pub const LIMIT: i64 = 0x1fff_ffff_ffff_ffff;

/// The viewport state of one plot: the visible vertical range and, while a
/// drag is going on, the pointer position of the previous frame.
///
/// Well-formed (`wf`) means `-LIMIT <= y_start < y_end <= LIMIT`; every
/// operation of this module keeps it.
#[derive(Clone, Copy, Debug, PartialEq, Eq, Structural)]
pub struct Memory {
    pub y_start: i64,
    pub y_end: i64,
    pub last_pos: Option<Pos>,
}

/// The range `[s, e]` brought into `[-LIMIT, LIMIT]`, with a span of at least one
/// unit: the start is clamped first, then the end is clamped above it.
pub open spec fn spec_normalize(s: int, e: int) -> (int, int) {
    let s1 = if s < -LIMIT {
        -LIMIT as int
    } else if s > LIMIT - 1 {
        LIMIT - 1
    } else {
        s
    };
    let e1 = if e <= s1 {
        s1 + 1
    } else if e > LIMIT {
        LIMIT as int
    } else {
        e
    };
    (s1, e1)
}

/// The start of `[s, e]` shifted by `delta`, held inside `[-LIMIT, LIMIT]`
/// so that the span `e - s` is kept.
pub open spec fn spec_pan_start(s: int, e: int, delta: int) -> int {
    let t = s + delta;
    if t < -LIMIT {
        -LIMIT as int
    } else if t > LIMIT - (e - s) {
        LIMIT - (e - s)
    } else {
        t
    }
}

/// Computes `spec_normalize(s, e)`.
pub fn normalize(s: i128, e: i128) -> (r: (i64, i64))
    ensures
        (r.0 as int, r.1 as int) == spec_normalize(s as int, e as int),
        -LIMIT <= r.0 < r.1 <= LIMIT,
{
    let s1: i64 = if s < -(LIMIT as i128) {
        -LIMIT
    } else if s > (LIMIT - 1) as i128 {
        LIMIT - 1
    } else {
        s as i64
    };
    let e1: i64 = if e <= s1 as i128 {
        s1 + 1
    } else if e > LIMIT as i128 {
        LIMIT
    } else {
        e as i64
    };
    (s1, e1)
}

impl Memory {
    pub open spec fn wf(self) -> bool {
        -LIMIT <= self.y_start < self.y_end <= LIMIT
    }

    pub open spec fn span(self) -> int {
        self.y_end - self.y_start
    }

    /// The span that the transforms divide by: at least one unit.
    pub open spec fn eff_span(self) -> int {
        if self.y_end > self.y_start {
            self.y_end - self.y_start
        } else {
            1
        }
    }

    pub open spec fn is_dragging(self) -> bool {
        self.last_pos is Some
    }

    /// A state with the range `[y_start, y_end]`, corrected as `set_y_range` does.
    pub fn with_range(y_start: i64, y_end: i64) -> (r: Memory)
        ensures
            r.wf(),
            (r.y_start as int, r.y_end as int) == spec_normalize(y_start as int, y_end as int),
            r.last_pos is None,
    {
        let mut m = Memory { y_start: 0, y_end: 1, last_pos: None };
        m.set_y_range(y_start, y_end);
        m
    }

    /// Sets the visible range; a range outside `[-LIMIT, LIMIT]` or with
    /// `y_end <= y_start` is corrected (clamped, with a span of at least one).
    pub fn set_y_range(&mut self, s: i64, e: i64)
        ensures
            final(self).wf(),
            (final(self).y_start as int, final(self).y_end as int) == spec_normalize(
                s as int,
                e as int,
            ),
            final(self).last_pos == old(self).last_pos,
    {
        let (s1, e1) = normalize(s as i128, e as i128);
        self.y_start = s1;
        self.y_end = e1;
    }

    /// Moves the visible range by `delta` without changing its span; at the
    /// bounds `[-LIMIT, LIMIT]` the range stops at the bound.
    pub fn pan(&mut self, delta: i128)
        requires
            old(self).wf(),
        ensures
            final(self).wf(),
            final(self).span() == old(self).span(),
            final(self).y_start == spec_pan_start(
                old(self).y_start as int,
                old(self).y_end as int,
                delta as int,
            ),
            final(self).last_pos == old(self).last_pos,
    {
        let span = self.y_end - self.y_start;
        let t: i128 = if delta < -(LIMIT as i128) * 4 {
            -(LIMIT as i128) * 4
        } else if delta > (LIMIT as i128) * 4 {
            (LIMIT as i128) * 4
        } else {
            delta
        } + self.y_start as i128;
        let s: i64 = if t < -(LIMIT as i128) {
            -LIMIT
        } else if t > (LIMIT - span) as i128 {
            LIMIT - span
        } else {
            t as i64
        };
        self.y_start = s;
        self.y_end = s + span;
    }
}

impl Default for Memory {
    /// A state with the range `[-100, 100]`, not dragging.
    fn default() -> (r: Memory)
        ensures
            r.y_start == -100,
            r.y_end == 100,
            r.last_pos is None,
            r.wf(),
    {
        Memory { y_start: -100, y_end: 100, last_pos: None }
    }
}

} // verus!
