use vstd::prelude::*;

verus! {

/// A position on the screen, in whole pixels (y grows downward).
#[derive(Clone, Copy, Debug, PartialEq, Eq, Structural)]
pub struct Pos {
    pub x: i32,
    pub y: i32,
}

impl Pos {
    pub fn new(x: i32, y: i32) -> (r: Pos)
        ensures
            r.x == x,
            r.y == y,
    {
        Pos { x, y }
    }
}

/// An axis-aligned rectangle on the screen: its top-left corner and its size.
///
/// A width or height below one pixel is never divided by: the transforms use
/// one pixel in its place.
#[derive(Clone, Copy, Debug, PartialEq, Eq, Structural)]
pub struct ScreenRect {
    pub left: i32,
    pub top: i32,
    pub width: i32,
    pub height: i32,
}

impl ScreenRect {
    pub open spec fn spec_contains(self, p: Pos) -> bool {
        &&& self.left <= p.x <= self.left + self.width
        &&& self.top <= p.y <= self.top + self.height
    }

    /// The width that the transforms divide by: at least one pixel.
    pub open spec fn span_x(self) -> int {
        if self.width >= 1 {
            self.width as int
        } else {
            1
        }
    }

    /// The height that the transforms divide by: at least one pixel.
    pub open spec fn span_y(self) -> int {
        if self.height >= 1 {
            self.height as int
        } else {
            1
        }
    }

    /// The lower edge used by the transforms.
    pub open spec fn spec_bottom(self) -> int {
        self.top + self.span_y()
    }

    pub fn new(left: i32, top: i32, width: i32, height: i32) -> (r: ScreenRect)
        ensures
            r == (ScreenRect { left, top, width, height }),
    {
        ScreenRect { left, top, width, height }
    }

    /// Whether `p` lies in the rectangle, edges included.
    pub fn contains(&self, p: Pos) -> (r: bool)
        ensures
            r == self.spec_contains(p),
    {
        let x = p.x as i64;
        let y = p.y as i64;
        let l = self.left as i64;
        let t = self.top as i64;
        l <= x && x <= l + self.width as i64 && t <= y && y <= t + self.height as i64
    }
}

} // verus!
