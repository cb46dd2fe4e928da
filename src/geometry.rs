use vstd::prelude::*;

verus! {

/// An axis-aligned rectangle in micro-pixels: `(x, y)` is its top-left corner.
#[derive(Clone, Copy, Debug, PartialEq, Eq)]
pub struct Rect {
    pub x: i64,
    pub y: i64,
    pub w: i64,
    pub h: i64,
}

/// Largest coordinate or extent a well-formed rectangle may hold, so that
/// its right and bottom edges are representable.
pub const RECT_LIMIT: i64 = 2_000_000_000_000_000_000;

impl Rect {
    /// Non-negative extents, and edges that fit in an `i64`.
    pub open spec fn wf(&self) -> bool {
        &&& 0 <= self.w <= RECT_LIMIT
        &&& 0 <= self.h <= RECT_LIMIT
        &&& -RECT_LIMIT <= self.x <= RECT_LIMIT
        &&& -RECT_LIMIT <= self.y <= RECT_LIMIT
    }

    pub open spec fn right_spec(&self) -> int {
        self.x + self.w
    }

    pub open spec fn bottom_spec(&self) -> int {
        self.y + self.h
    }

    /// Inclusive overlap: rectangles that only touch along an edge or at a
    /// corner overlap.
    pub open spec fn overlaps(&self, other: Rect) -> bool {
        &&& self.right_spec() >= other.x
        &&& self.x <= other.right_spec()
        &&& self.bottom_spec() >= other.y
        &&& self.y <= other.bottom_spec()
    }

    /// The x coordinate of the right edge.
    pub fn right(&self) -> (r: i64)
        requires
            self.wf(),
        ensures
            r == self.right_spec(),
    {
        self.x + self.w
    }

    /// The y coordinate of the bottom edge.
    pub fn bottom(&self) -> (r: i64)
        requires
            self.wf(),
        ensures
            r == self.bottom_spec(),
    {
        self.y + self.h
    }

    /// Whether the two rectangles overlap, edges included.
    pub fn is_colliding_with(&self, other: Rect) -> (r: bool)
        requires
            self.wf(),
            other.wf(),
        ensures
            r == self.overlaps(other),
    {
        self.right() >= other.x && self.x <= other.right() && self.bottom() >= other.y
            && self.y <= other.bottom()
    }
}

} // verus!
