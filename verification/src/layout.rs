//! Rectangles and the arithmetic that places one widget by another.

use vstd::prelude::*;

verus! {

/// The place and size of a widget, in pixels.
#[derive(Clone, Copy, Debug, PartialEq, Eq, Structural)]
pub struct Rect {
    pub x: i32,
    pub y: i32,
    pub w: i32,
    pub h: i32,
}

/// Half of `a`, rounded toward zero.
pub open spec fn half_of(a: int) -> int {
    if a >= 0 {
        a / 2
    } else {
        -((-a) / 2)
    }
}

/// The offset at which something `inner` wide sits centred in a space
/// `outer` wide.
pub open spec fn centered_offset(outer: int, inner: int) -> int {
    half_of(outer - inner)
}

/// The offset at which something `inner` wide sits centred in a space
/// `outer` wide. It is negative where `inner` is the wider.
pub fn centered(outer: i32, inner: i32) -> (offset: i32)
    ensures
        offset == centered_offset(outer as int, inner as int),
{
    let slack: i64 = outer as i64 - inner as i64;
    (slack / 2) as i32
}

impl Rect {
    /// The y coordinate just below the rectangle.
    pub open spec fn bottom(self) -> int {
        self.y + self.h
    }

    /// The y coordinate of a widget placed just below this one.
    pub fn below(&self) -> (y: i32)
        requires
            i32::MIN <= self.bottom() <= i32::MAX,
        ensures
            y == self.bottom(),
    {
        self.y + self.h
    }

    /// The x coordinate at which something `width` wide sits centred over
    /// this rectangle.
    pub fn center_x_for(&self, width: i32) -> (x: i32)
        requires
            i32::MIN <= self.x + centered_offset(self.w as int, width as int) <= i32::MAX,
        ensures
            x == self.x + centered_offset(self.w as int, width as int),
    {
        self.x + centered(self.w, width)
    }
}

} // verus!
