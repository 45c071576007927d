//! Screen geometry: points, offsets and rectangles with bounded coordinates.
//!
//! Coordinates live in a symmetric range small enough that any sum or
//! difference of two in-range values still fits an `i16`; operations clamp
//! back into the range, so they are total.

use vstd::prelude::*;

verus! {

/// Largest coordinate value.
pub const COORD_MAX: i16 = 16383;

/// Smallest coordinate value.
pub const COORD_MIN: i16 = -16384;

/// The coordinate is inside the representable range.
pub open spec fn in_range(c: i16) -> bool {
    COORD_MIN <= c <= COORD_MAX
}

/// An arbitrary value clamped into the coordinate range.
pub open spec fn clamp_coord(v: int) -> int {
    if v < COORD_MIN as int {
        COORD_MIN as int
    } else if v > COORD_MAX as int {
        COORD_MAX as int
    } else {
        v
    }
}

/// A value clamped into `[lo, hi]`.
pub open spec fn clamp_between(lo: int, v: int, hi: int) -> int
    recommends
        lo <= hi,
{
    if v < lo {
        lo
    } else if v > hi {
        hi
    } else {
        v
    }
}

/// Clamps a wide intermediate value back into the coordinate range.
fn clamp_to_coord(v: i32) -> (r: i16)
    ensures
        r as int == clamp_coord(v as int),
        in_range(r),
{
    if v < COORD_MIN as i32 {
        COORD_MIN
    } else if v > COORD_MAX as i32 {
        COORD_MAX
    } else {
        v as i16
    }
}

/// A pixel position.
#[derive(Clone, Copy, PartialEq, Eq, Structural, Debug)]
pub struct Point {
    pub x: i16,
    pub y: i16,
}

/// A displacement between positions.
#[derive(Clone, Copy, PartialEq, Eq, Structural, Debug)]
pub struct Offset {
    pub x: i16,
    pub y: i16,
}

/// Horizontal or vertical placement within a container.
#[derive(Clone, Copy, PartialEq, Eq, Structural, Debug)]
pub enum Alignment {
    Start,
    Center,
    End,
}

/// Two-dimensional placement within a container.
#[derive(Clone, Copy, PartialEq, Eq, Structural, Debug)]
pub enum Alignment2D {
    TopLeft,
    Center,
}

impl Point {
    /// Both coordinates are in range.
    pub open spec fn wf(&self) -> bool {
        in_range(self.x) && in_range(self.y)
    }

    pub fn new(x: i16, y: i16) -> (r: Point)
        ensures
            r == (Point { x, y }),
    {
        Point { x, y }
    }

    pub fn zero() -> (r: Point)
        ensures
            r == (Point { x: 0i16, y: 0i16 }),
    {
        Point { x: 0, y: 0 }
    }

    /// The point moved by an offset, clamped into the coordinate range.
    pub fn shifted(self, o: Offset) -> (r: Point)
        ensures
            r.x as int == clamp_coord(self.x as int + o.x as int),
            r.y as int == clamp_coord(self.y as int + o.y as int),
            r.wf(),
    {
        Point {
            x: clamp_to_coord(self.x as i32 + o.x as i32),
            y: clamp_to_coord(self.y as i32 + o.y as i32),
        }
    }
}

impl Offset {
    pub fn new(x: i16, y: i16) -> (r: Offset)
        ensures
            r == (Offset { x, y }),
    {
        Offset { x, y }
    }

    pub fn zero() -> (r: Offset)
        ensures
            r == (Offset { x: 0i16, y: 0i16 }),
    {
        Offset { x: 0, y: 0 }
    }

    /// The same displacement along both axes.
    pub fn uniform(d: i16) -> (r: Offset)
        ensures
            r == (Offset { x: d, y: d }),
    {
        Offset { x: d, y: d }
    }

    /// A purely horizontal displacement.
    pub fn x(d: i16) -> (r: Offset)
        ensures
            r == (Offset { x: d, y: 0i16 }),
    {
        Offset { x: d, y: 0 }
    }

    /// A purely vertical displacement.
    pub fn y(d: i16) -> (r: Offset)
        ensures
            r == (Offset { x: 0i16, y: d }),
    {
        Offset { x: 0, y: d }
    }
}

/// An axis-aligned rectangle: `x0 <= x < x1`, `y0 <= y < y1`.
#[derive(Clone, Copy, PartialEq, Eq, Structural, Debug)]
pub struct Rect {
    pub x0: i16,
    pub y0: i16,
    pub x1: i16,
    pub y1: i16,
}

impl Rect {
    /// Coordinates in range and corners ordered.
    pub open spec fn wf(&self) -> bool {
        &&& in_range(self.x0)
        &&& in_range(self.y0)
        &&& in_range(self.x1)
        &&& in_range(self.y1)
        &&& self.x0 <= self.x1
        &&& self.y0 <= self.y1
    }

    /// The point lies inside the rectangle.
    pub open spec fn spec_contains(&self, p: Point) -> bool {
        self.x0 <= p.x < self.x1 && self.y0 <= p.y < self.y1
    }

    /// The normalized rectangle spanned by two corner points.
    pub fn new(p0: Point, p1: Point) -> (r: Rect)
        ensures
            r.x0 as int == clamp_coord(if p0.x <= p1.x {
                p0.x as int
            } else {
                p1.x as int
            }),
            r.x1 as int == clamp_coord(if p0.x <= p1.x {
                p1.x as int
            } else {
                p0.x as int
            }),
            r.y0 as int == clamp_coord(if p0.y <= p1.y {
                p0.y as int
            } else {
                p1.y as int
            }),
            r.y1 as int == clamp_coord(if p0.y <= p1.y {
                p1.y as int
            } else {
                p0.y as int
            }),
            r.wf(),
    {
        let xa = if p0.x <= p1.x {
            p0.x
        } else {
            p1.x
        };
        let xb = if p0.x <= p1.x {
            p1.x
        } else {
            p0.x
        };
        let ya = if p0.y <= p1.y {
            p0.y
        } else {
            p1.y
        };
        let yb = if p0.y <= p1.y {
            p1.y
        } else {
            p0.y
        };
        Rect {
            x0: clamp_to_coord(xa as i32),
            y0: clamp_to_coord(ya as i32),
            x1: clamp_to_coord(xb as i32),
            y1: clamp_to_coord(yb as i32),
        }
    }

    /// The empty rectangle at the origin.
    pub fn zero() -> (r: Rect)
        ensures
            r == (Rect { x0: 0i16, y0: 0i16, x1: 0i16, y1: 0i16 }),
            r.wf(),
    {
        Rect { x0: 0, y0: 0, x1: 0, y1: 0 }
    }

    pub fn width(&self) -> (r: i16)
        requires
            self.wf(),
        ensures
            r == self.x1 - self.x0,
    {
        self.x1 - self.x0
    }

    pub fn height(&self) -> (r: i16)
        requires
            self.wf(),
        ensures
            r == self.y1 - self.y0,
    {
        self.y1 - self.y0
    }

    /// The midpoint of the rectangle.
    pub fn center(&self) -> (r: Point)
        requires
            self.wf(),
        ensures
            r.x == self.x0 + (self.x1 - self.x0) / 2,
            r.y == self.y0 + (self.y1 - self.y0) / 2,
            r.wf(),
    {
        Point { x: self.x0 + (self.x1 - self.x0) / 2, y: self.y0 + (self.y1 - self.y0) / 2 }
    }

    /// Checks the well-formedness invariant at run time.
    pub fn wf_check(&self) -> (r: bool)
        ensures
            r == self.wf(),
    {
        COORD_MIN <= self.x0 && self.x0 <= COORD_MAX && COORD_MIN <= self.y0 && self.y0 <= COORD_MAX
            && COORD_MIN <= self.x1 && self.x1 <= COORD_MAX && COORD_MIN <= self.y1 && self.y1
            <= COORD_MAX && self.x0 <= self.x1 && self.y0 <= self.y1
    }

    /// Whether the point lies inside the rectangle.
    pub fn contains(&self, p: Point) -> (r: bool)
        ensures
            r == self.spec_contains(p),
    {
        self.x0 <= p.x && p.x < self.x1 && self.y0 <= p.y && p.y < self.y1
    }

    /// Splits off the top strip of height `h` (clamped to the rectangle):
    /// the strip first, the rest below it second.
    pub fn split_top(self, h: i16) -> (r: (Rect, Rect))
        requires
            self.wf(),
        ensures
            ({
                let mid = clamp_between(self.y0 as int, self.y0 + (if h > 0 {
                    h as int
                } else {
                    0int
                }), self.y1 as int);
                &&& r.0 == (Rect { x0: self.x0, y0: self.y0, x1: self.x1, y1: r.0.y1 })
                &&& r.0.y1 as int == mid
                &&& r.1 == (Rect { x0: self.x0, y0: r.0.y1, x1: self.x1, y1: self.y1 })
                &&& r.0.wf()
                &&& r.1.wf()
            }),
    {
        let hh: i16 = if h > 0 {
            h
        } else {
            0
        };
        let mid: i16 = if (self.y1 as i32 - self.y0 as i32) < hh as i32 {
            self.y1
        } else {
            self.y0 + hh
        };
        (
            Rect { x0: self.x0, y0: self.y0, x1: self.x1, y1: mid },
            Rect { x0: self.x0, y0: mid, x1: self.x1, y1: self.y1 },
        )
    }

    /// Splits off the bottom strip of height `h` (clamped to the rectangle):
    /// the rest above it first, the strip second.
    pub fn split_bottom(self, h: i16) -> (r: (Rect, Rect))
        requires
            self.wf(),
        ensures
            ({
                let mid = clamp_between(self.y0 as int, self.y1 - (if h > 0 {
                    h as int
                } else {
                    0int
                }), self.y1 as int);
                &&& r.0 == (Rect { x0: self.x0, y0: self.y0, x1: self.x1, y1: r.0.y1 })
                &&& r.0.y1 as int == mid
                &&& r.1 == (Rect { x0: self.x0, y0: r.0.y1, x1: self.x1, y1: self.y1 })
                &&& r.0.wf()
                &&& r.1.wf()
            }),
    {
        let hh: i16 = if h > 0 {
            h
        } else {
            0
        };
        let mid: i16 = if (self.y1 as i32 - self.y0 as i32) < hh as i32 {
            self.y0
        } else {
            self.y1 - hh
        };
        (
            Rect { x0: self.x0, y0: self.y0, x1: self.x1, y1: mid },
            Rect { x0: self.x0, y0: mid, x1: self.x1, y1: self.y1 },
        )
    }

    /// A rectangle of the given size placed at `pos` according to the
    /// alignment (its center, or its top-left corner).  A negative size is
    /// treated as zero.
    pub fn snap(pos: Point, size: Offset, align: Alignment2D) -> (r: Rect)
        requires
            pos.wf(),
        ensures
            ({
                let sx = if size.x > 0 {
                    size.x as int
                } else {
                    0int
                };
                let sy = if size.y > 0 {
                    size.y as int
                } else {
                    0int
                };
                let x0 = match align {
                    Alignment2D::TopLeft => pos.x as int,
                    Alignment2D::Center => clamp_coord(pos.x - sx / 2),
                };
                let y0 = match align {
                    Alignment2D::TopLeft => pos.y as int,
                    Alignment2D::Center => clamp_coord(pos.y - sy / 2),
                };
                &&& r.x0 as int == x0
                &&& r.y0 as int == y0
                &&& r.x1 as int == clamp_coord(x0 + sx)
                &&& r.y1 as int == clamp_coord(y0 + sy)
                &&& r.wf()
            }),
    {
        let sx: i16 = if size.x > 0 {
            size.x
        } else {
            0
        };
        let sy: i16 = if size.y > 0 {
            size.y
        } else {
            0
        };
        let x0: i16 = match align {
            Alignment2D::TopLeft => pos.x,
            Alignment2D::Center => clamp_to_coord(pos.x as i32 - (sx / 2) as i32),
        };
        let y0: i16 = match align {
            Alignment2D::TopLeft => pos.y,
            Alignment2D::Center => clamp_to_coord(pos.y as i32 - (sy / 2) as i32),
        };
        Rect {
            x0,
            y0,
            x1: clamp_to_coord(x0 as i32 + sx as i32),
            y1: clamp_to_coord(y0 as i32 + sy as i32),
        }
    }

    /// A rectangle of the given size centered at a point.
    pub fn from_center_and_size(center: Point, size: Offset) -> (r: Rect)
        requires
            center.wf(),
        ensures
            r.wf(),
    {
        Rect::snap(center, size, Alignment2D::Center)
    }
}

} // verus!
