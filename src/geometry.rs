//! Grid points and the rectangular frame that bounds play.
use vstd::prelude::*;

verus! {

/// A cell of the grid.
#[derive(Clone, Copy, Debug, PartialEq, Eq, Structural, Default)]
pub struct Point {
    pub x: u8,
    pub y: u8,
}

impl Point {
    /// Two points meet when both coordinates agree.
    pub open spec fn meets(self, other: Point) -> bool {
        self.x == other.x && self.y == other.y
    }

    pub fn intersects(&self, point: &Point) -> (r: bool)
        ensures
            r == self.meets(*point),
    {
        self.x == point.x && self.y == point.y
    }
}

/// The playing field's boundary; all four lines belong to it.
#[derive(Clone, Copy, Debug, PartialEq, Eq, Structural, Default)]
pub struct Frame {
    pub min_x: u8,
    pub min_y: u8,
    pub max_x: u8,
    pub max_y: u8,
}

impl Frame {
    /// The point shares a coordinate with one of the four border lines.
    /// This is deliberately not an inside/outside test.
    pub open spec fn touches(self, p: Point) -> bool {
        p.x == self.min_x || p.y == self.min_y || p.x == self.max_x || p.y == self.max_y
    }

    /// The point lies strictly between the border lines on both axes.
    pub open spec fn strictly_inside(self, p: Point) -> bool {
        self.min_x < p.x < self.max_x && self.min_y < p.y < self.max_y
    }

    /// The frame leaves at least one interior cell on each axis.
    pub open spec fn has_interior(self) -> bool {
        self.min_x as int + 1 < self.max_x as int && self.min_y as int + 1 < self.max_y as int
    }

    pub fn intersects(&self, point: &Point) -> (r: bool)
        ensures
            r == self.touches(*point),
    {
        point.x == self.min_x || point.y == self.min_y || point.x == self.max_x || point.y
            == self.max_y
    }
}

/// Meeting is symmetric, and two points meet exactly when they are equal.
pub proof fn lemma_meets_symmetric(p: Point, q: Point)
    ensures
        p.meets(q) == q.meets(p),
        p.meets(q) <==> p == q,
{
}

/// A point on any of the four border lines touches the frame; a point
/// strictly inside it touches none.
pub proof fn lemma_frame_border(f: Frame, p: Point)
    ensures
        (p.x == f.min_x || p.x == f.max_x || p.y == f.min_y || p.y == f.max_y) ==> f.touches(p),
        f.strictly_inside(p) ==> !f.touches(p),
{
}

} // verus!
