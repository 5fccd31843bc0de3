//! Integer vectors and axis-aligned rectangles.
use vstd::prelude::*;
use crate::units::MAX_EXTENT;

verus! {

/// A two-dimensional vector of sub-pixels.
#[derive(Clone, Copy, Debug, PartialEq, Eq, Structural)]
pub struct Vec2i {
    pub x: i64,
    pub y: i64,
}

pub open spec fn min_int(a: int, b: int) -> int {
    if a <= b { a } else { b }
}

pub open spec fn max_int(a: int, b: int) -> int {
    if a >= b { a } else { b }
}

pub open spec fn fits_i64(v: int) -> bool {
    i64::MIN <= v <= i64::MAX
}

impl Vec2i {
    /// Both components lie in `[0, MAX_EXTENT]`: a size or a resolution.
    pub open spec fn within_extent(self) -> bool {
        0 <= self.x <= MAX_EXTENT && 0 <= self.y <= MAX_EXTENT
    }

    pub fn new(x: i64, y: i64) -> (r: Vec2i)
        ensures
            r.x == x,
            r.y == y,
    {
        Vec2i { x, y }
    }
}

/// An axis-aligned rectangle given by one corner and a size. The size may be
/// negative on either axis: the rectangle then extends the other way.
#[derive(Clone, Copy, Debug, PartialEq, Eq, Structural)]
pub struct Rectangle {
    pub origin: Vec2i,
    pub size: Vec2i,
}

impl Rectangle {
    /// The opposite corner fits in the coordinate type.
    pub open spec fn wf(self) -> bool {
        fits_i64(self.origin.x + self.size.x) && fits_i64(self.origin.y + self.size.y)
    }

    pub open spec fn min_x(self) -> int {
        min_int(self.origin.x as int, self.origin.x + self.size.x)
    }

    pub open spec fn min_y(self) -> int {
        min_int(self.origin.y as int, self.origin.y + self.size.y)
    }

    pub open spec fn max_x(self) -> int {
        max_int(self.origin.x as int, self.origin.x + self.size.x)
    }

    pub open spec fn max_y(self) -> int {
        max_int(self.origin.y as int, self.origin.y + self.size.y)
    }

    /// The closed extents of the two rectangles meet on both axes.
    pub open spec fn overlaps(self, other: Rectangle) -> bool {
        &&& other.min_x() <= self.max_x()
        &&& self.min_x() <= other.max_x()
        &&& other.min_y() <= self.max_y()
        &&& self.min_y() <= other.max_y()
    }

    pub fn new(origin: Vec2i, size: Vec2i) -> (r: Rectangle)
        ensures
            r.origin == origin,
            r.size == size,
    {
        Rectangle { origin, size }
    }

    /// The rectangle from corner `min` to corner `max`.
    pub fn from_min_max(min: Vec2i, max: Vec2i) -> (r: Rectangle)
        requires
            fits_i64(max.x - min.x),
            fits_i64(max.y - min.y),
        ensures
            r.origin == min,
            r.size.x == max.x - min.x,
            r.size.y == max.y - min.y,
            r.wf(),
    {
        Rectangle::new(min, Vec2i { x: max.x - min.x, y: max.y - min.y })
    }

    /// The corner with the smaller coordinate on each axis.
    pub fn min(&self) -> (r: Vec2i)
        requires
            self.wf(),
        ensures
            r.x == self.min_x(),
            r.y == self.min_y(),
    {
        let p1 = self.origin;
        let p2 = Vec2i { x: self.origin.x + self.size.x, y: self.origin.y + self.size.y };
        Vec2i { x: if p1.x <= p2.x { p1.x } else { p2.x }, y: if p1.y <= p2.y { p1.y } else { p2.y } }
    }

    /// The corner with the larger coordinate on each axis.
    pub fn max(&self) -> (r: Vec2i)
        requires
            self.wf(),
        ensures
            r.x == self.max_x(),
            r.y == self.max_y(),
    {
        let p1 = self.origin;
        let p2 = Vec2i { x: self.origin.x + self.size.x, y: self.origin.y + self.size.y };
        Vec2i { x: if p1.x >= p2.x { p1.x } else { p2.x }, y: if p1.y >= p2.y { p1.y } else { p2.y } }
    }

    /// Whether the two rectangles overlap, boundaries included.
    pub fn collides_with(&self, other: &Rectangle) -> (r: bool)
        requires
            self.wf(),
            other.wf(),
        ensures
            r == self.overlaps(*other),
    {
        let min_self = self.min();
        let max_self = self.max();
        let min_other = other.min();
        let max_other = other.max();
        let overlap_x = (min_other.x <= max_self.x) && (min_self.x <= max_other.x);
        let overlap_y = (min_other.y <= max_self.y) && (min_self.y <= max_other.y);
        overlap_x && overlap_y
    }
}

/// Overlap does not depend on the order of the two rectangles.
pub proof fn lemma_collides_symmetric(a: Rectangle, b: Rectangle)
    ensures
        a.overlaps(b) == b.overlaps(a),
{
}

/// Every rectangle overlaps itself.
pub proof fn lemma_collides_reflexive(a: Rectangle)
    ensures
        a.overlaps(a),
{
}

} // verus!
