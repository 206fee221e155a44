use vstd::prelude::*;

use crate::config::{COORD_MAX, COORD_MIN};

verus! {

/// The edge of a region a rectangle last crossed, or a facing tag.
#[derive(Clone, Copy, Debug, PartialEq, Eq, Structural)]
pub enum Direction {
    Up,
    Down,
    Right,
    Left,
}

/// A plain two-component integer vector.
#[derive(Clone, Copy, Debug, PartialEq, Eq, Structural)]
pub struct Vec2 {
    pub x: i64,
    pub y: i64,
}

/// An axis-aligned rectangle: position of the top-left corner, size, and an
/// informational facing tag. Coordinates are milli-pixels.
#[derive(Clone, Copy, Debug, PartialEq, Eq, Structural)]
pub struct Transform {
    pub x: i64,
    pub y: i64,
    pub width: i64,
    pub height: i64,
    pub direction: Direction,
}

/// Clamp a mathematical integer into the inclusive range `[lo, hi]`.
pub open spec fn clamped(v: int, lo: i64, hi: i64) -> i64 {
    if v < lo {
        lo
    } else if v > hi {
        hi
    } else {
        v as i64
    }
}

/// Clamp a mathematical integer into the coordinate range.
pub open spec fn pos_clamped(v: int) -> i64 {
    clamped(v, COORD_MIN, COORD_MAX)
}

/// Saturating addition into the inclusive range `[lo, hi]`.
pub fn add_clamped(a: i64, b: i64, lo: i64, hi: i64) -> (r: i64)
    requires
        lo <= hi,
    ensures
        r == clamped(a + b, lo, hi),
{
    let s: i128 = a as i128 + b as i128;
    if s < lo as i128 {
        lo
    } else if s > hi as i128 {
        hi
    } else {
        s as i64
    }
}

/// A non-negative integer squeezed into a `u64`, saturating at the top.
pub open spec fn sat_u64(v: int) -> u64 {
    if v > u64::MAX {
        u64::MAX
    } else {
        v as u64
    }
}

/// A non-negative integer squeezed into a `u32`, saturating at the top.
pub open spec fn sat_u32(v: int) -> u32 {
    if v > u32::MAX {
        u32::MAX
    } else {
        v as u32
    }
}

/// Saturating addition on `u64` counters.
pub fn sat_add_u64(a: u64, b: u64) -> (r: u64)
    ensures
        r == sat_u64(a + b),
{
    if a > u64::MAX - b {
        u64::MAX
    } else {
        a + b
    }
}

/// Saturating addition on `u32` counters.
pub fn sat_add_u32(a: u32, b: u32) -> (r: u32)
    ensures
        r == sat_u32(a + b),
{
    if a > u32::MAX - b {
        u32::MAX
    } else {
        a + b
    }
}

impl Transform {
    /// A rectangle whose position lies in the coordinate range and whose
    /// size is non-negative and bounded, so that edge sums fit in an `i64`.
    pub open spec fn wf(self) -> bool {
        &&& COORD_MIN <= self.x <= COORD_MAX
        &&& COORD_MIN <= self.y <= COORD_MAX
        &&& 0 <= self.width <= COORD_MAX
        &&& 0 <= self.height <= COORD_MAX
    }

    pub open spec fn right_edge(self) -> int {
        self.x + self.width
    }

    pub open spec fn bottom_edge(self) -> int {
        self.y + self.height
    }

    pub fn x(&self) -> (r: i64)
        ensures
            r == self.x,
    {
        self.x
    }

    pub fn y(&self) -> (r: i64)
        ensures
            r == self.y,
    {
        self.y
    }

    /// The x coordinate of the right edge.
    pub fn xw(&self) -> (r: i64)
        requires
            self.wf(),
        ensures
            r == self.right_edge(),
    {
        self.x + self.width
    }

    /// The y coordinate of the bottom edge.
    pub fn yh(&self) -> (r: i64)
        requires
            self.wf(),
        ensures
            r == self.bottom_edge(),
    {
        self.y + self.height
    }

    pub fn center_x(&self) -> (r: i64)
        requires
            self.wf(),
        ensures
            r == self.x + self.width / 2,
    {
        self.x + (self.width as u64 / 2) as i64
    }

    pub fn center_y(&self) -> (r: i64)
        requires
            self.wf(),
        ensures
            r == self.y + self.height / 2,
    {
        self.y + (self.height as u64 / 2) as i64
    }

    pub fn center(&self) -> (r: Vec2)
        requires
            self.wf(),
        ensures
            r.x == self.x + self.width / 2,
            r.y == self.y + self.height / 2,
    {
        Vec2 { x: self.center_x(), y: self.center_y() }
    }

    /// Inclusive axis-aligned bounding-box overlap.
    pub fn collides(&self, other: &Transform) -> (r: bool)
        requires
            self.wf(),
            other.wf(),
        ensures
            r == collides_spec(*self, *other),
    {
        self.x() <= other.xw() && self.xw() >= other.x() && self.y() <= other.yh()
            && self.yh() >= other.y()
    }

    /// Reports whether this rectangle has crossed outside `region`, and the
    /// first breached edge in the fixed order Up, Down, Left, Right.
    pub fn exceeds(&self, region: &Transform) -> (r: (bool, Option<Direction>))
        requires
            self.wf(),
            region.wf(),
        ensures
            r.1 == exceeds_spec(*self, *region),
            r.0 == r.1.is_some(),
    {
        if self.y() <= region.y() {
            (true, Some(Direction::Up))
        } else if self.yh() >= region.yh() {
            (true, Some(Direction::Down))
        } else if self.x() <= region.x() {
            (true, Some(Direction::Left))
        } else if self.xw() >= region.xw() {
            (true, Some(Direction::Right))
        } else {
            (false, None)
        }
    }
}

/// True iff the two rectangles' bounding boxes overlap, with inclusive edge
/// comparison.
pub open spec fn collides_spec(a: Transform, b: Transform) -> bool {
    &&& a.x <= b.right_edge()
    &&& a.right_edge() >= b.x
    &&& a.y <= b.bottom_edge()
    &&& a.bottom_edge() >= b.y
}

/// The first edge of `region` that `r` has crossed, in the fixed evaluation
/// order Up, Down, Left, Right, or `None` when `r` lies strictly inside.
pub open spec fn exceeds_spec(r: Transform, region: Transform) -> Option<Direction> {
    if r.y <= region.y {
        Some(Direction::Up)
    } else if r.bottom_edge() >= region.bottom_edge() {
        Some(Direction::Down)
    } else if r.x <= region.x {
        Some(Direction::Left)
    } else if r.right_edge() >= region.right_edge() {
        Some(Direction::Right)
    } else {
        None
    }
}

/// Law: collision is symmetric in its two rectangles.
pub proof fn lemma_collides_symmetric(a: Transform, b: Transform)
    ensures
        collides_spec(a, b) == collides_spec(b, a),
{
}

/// Law: rectangles separated by a strict gap on both axes do not collide.
pub proof fn lemma_gap_no_collision(a: Transform, b: Transform)
    requires
        a.right_edge() < b.x || b.right_edge() < a.x,
        a.bottom_edge() < b.y || b.bottom_edge() < a.y,
    ensures
        !collides_spec(a, b),
{
}

} // verus!
