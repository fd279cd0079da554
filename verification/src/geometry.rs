//! Points and axis-aligned rectangles on the integer plane.

use vstd::prelude::*;

verus! {

/// A position or a displacement, in canvas space or in screen space.
#[derive(Clone, Copy, Debug, PartialEq, Eq, Structural)]
pub struct Point {
    pub x: i64,
    pub y: i64,
}

impl Point {
    pub fn new(x: i64, y: i64) -> (p: Point)
        ensures
            p.x == x,
            p.y == y,
    {
        Point { x, y }
    }

    /// The origin, which is also the zero displacement.
    pub fn zero() -> (p: Point)
        ensures
            p.x == 0,
            p.y == 0,
    {
        Point { x: 0, y: 0 }
    }
}

/// The smaller of two coordinates.
pub open spec fn min_coord(a: int, b: int) -> int {
    if a <= b {
        a
    } else {
        b
    }
}

/// The larger of two coordinates.
pub open spec fn max_coord(a: int, b: int) -> int {
    if a <= b {
        b
    } else {
        a
    }
}

/// A closed axis-aligned rectangle: it holds every point `p` with
/// `min.x <= p.x <= max.x` and `min.y <= p.y <= max.y`.
#[derive(Clone, Copy, Debug, PartialEq, Eq, Structural)]
pub struct Rect {
    pub min: Point,
    pub max: Point,
}

impl Rect {
    /// The corners are in order on both axes.
    pub open spec fn wf(self) -> bool {
        self.min.x <= self.max.x && self.min.y <= self.max.y
    }

    /// The rectangle spanned by two opposite corners, given in any order.
    pub open spec fn spanned(a: Point, b: Point) -> Rect {
        Rect {
            min: Point {
                x: min_coord(a.x as int, b.x as int) as i64,
                y: min_coord(a.y as int, b.y as int) as i64,
            },
            max: Point {
                x: max_coord(a.x as int, b.x as int) as i64,
                y: max_coord(a.y as int, b.y as int) as i64,
            },
        }
    }

    /// The point lies in the rectangle, border included.
    pub open spec fn holds(self, p: Point) -> bool {
        self.min.x <= p.x <= self.max.x && self.min.y <= p.y <= self.max.y
    }

    /// The two rectangles share at least one point.
    pub open spec fn meets(self, other: Rect) -> bool {
        &&& self.min.x <= other.max.x
        &&& other.min.x <= self.max.x
        &&& self.min.y <= other.max.y
        &&& other.min.y <= self.max.y
    }

    /// Builds the rectangle spanned by two opposite corners, whichever of
    /// the four corners they are and in whichever order they come.
    pub fn from_corners(a: Point, b: Point) -> (r: Rect)
        ensures
            r == Rect::spanned(a, b),
            r.wf(),
    {
        let min_x: i64 = if a.x <= b.x { a.x } else { b.x };
        let max_x: i64 = if a.x <= b.x { b.x } else { a.x };
        let min_y: i64 = if a.y <= b.y { a.y } else { b.y };
        let max_y: i64 = if a.y <= b.y { b.y } else { a.y };
        Rect { min: Point { x: min_x, y: min_y }, max: Point { x: max_x, y: max_y } }
    }

    pub fn contains(&self, p: Point) -> (inside: bool)
        ensures
            inside == self.holds(p),
    {
        self.min.x <= p.x && p.x <= self.max.x && self.min.y <= p.y && p.y <= self.max.y
    }

    pub fn intersects(&self, other: &Rect) -> (hit: bool)
        ensures
            hit == self.meets(*other),
    {
        self.min.x <= other.max.x && other.min.x <= self.max.x && self.min.y <= other.max.y
            && other.min.y <= self.max.y
    }
}

/// Swapping the two corners gives the same rectangle.
pub proof fn lemma_spanned_symmetric(a: Point, b: Point)
    ensures
        Rect::spanned(a, b) == Rect::spanned(b, a),
{
}

} // verus!
