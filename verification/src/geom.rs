//! Axis-aligned rectangles and 2-vectors over integer coordinates, with the
//! intersection computation that collision resolution is built on.
//!
//! A pair of rectangles counts as intersecting when their closed extents meet,
//! so rectangles that merely touch yield a zero-width or zero-height
//! intersection rather than none.

use vstd::prelude::*;

verus! {

/// A 2-vector of integer coordinates. Used both for positions (micropixels)
/// and for velocity directions (thousandths of a unit).
#[derive(Clone, Copy, PartialEq, Eq, Structural, Debug)]
pub struct Vec2 {
    pub x: i64,
    pub y: i64,
}

/// An axis-aligned rectangle: origin at its top-left corner, positive extent.
#[derive(Clone, Copy, PartialEq, Eq, Structural, Debug)]
pub struct Rect {
    pub x: i64,
    pub y: i64,
    pub w: i64,
    pub h: i64,
}

/// Coordinates this large are still safe for every sum and push the engine
/// computes in `i64`.
pub const COORD_LIMIT: i64 = 100_000_000_000_000_000;

pub open spec fn rect_positive(r: Rect) -> bool {
    0 < r.w && 0 < r.h
}

/// The rectangle's coordinates and extents are small enough that all
/// intersection and resolution arithmetic stays within `i64`.
pub open spec fn rect_bounded(r: Rect) -> bool {
    -COORD_LIMIT <= r.x && r.x <= COORD_LIMIT
    && -COORD_LIMIT <= r.y && r.y <= COORD_LIMIT
    && 0 <= r.w && r.w <= COORD_LIMIT && 0 <= r.h && r.h <= COORD_LIMIT
}

pub open spec fn right(r: Rect) -> int {
    r.x + r.w
}

pub open spec fn bottom(r: Rect) -> int {
    r.y + r.h
}

pub open spec fn max_i(a: int, b: int) -> int {
    if a >= b { a } else { b }
}

pub open spec fn min_i(a: int, b: int) -> int {
    if a <= b { a } else { b }
}

/// Width of the common extent of `a` and `b` on the x axis; negative when the
/// extents are disjoint.
pub open spec fn overlap_w(a: Rect, b: Rect) -> int {
    min_i(right(a), right(b)) - max_i(a.x as int, b.x as int)
}

/// Height of the common extent on the y axis.
pub open spec fn overlap_h(a: Rect, b: Rect) -> int {
    min_i(bottom(a), bottom(b)) - max_i(a.y as int, b.y as int)
}

/// Whether the two rectangles intersect; touching extents count.
pub open spec fn intersects(a: Rect, b: Rect) -> bool {
    overlap_w(a, b) >= 0 && overlap_h(a, b) >= 0
}

/// The intersection rectangle of two intersecting rectangles.
pub open spec fn intersection(a: Rect, b: Rect) -> Rect {
    Rect {
        x: max_i(a.x as int, b.x as int) as i64,
        y: max_i(a.y as int, b.y as int) as i64,
        w: overlap_w(a, b) as i64,
        h: overlap_h(a, b) as i64,
    }
}

/// Twice the x coordinate of the rectangle's center. Working with doubled
/// centers keeps every quantity an integer while preserving signs of
/// center-to-center differences.
pub open spec fn center2_x(r: Rect) -> int {
    2 * r.x + r.w
}

pub open spec fn center2_y(r: Rect) -> int {
    2 * r.y + r.h
}

impl Rect {
    /// Computes the intersection of `self` and `other`, or `None` when their
    /// extents are disjoint. Rectangles that only touch intersect with a
    /// zero-width or zero-height result.
    pub fn intersect(&self, other: &Rect) -> (r: Option<Rect>)
        requires
            rect_bounded(*self),
            rect_bounded(*other),
        ensures
            r is Some <==> intersects(*self, *other),
            r is Some ==> r->Some_0 == intersection(*self, *other),
    {
        let left = if self.x >= other.x { self.x } else { other.x };
        let top = if self.y >= other.y { self.y } else { other.y };
        let self_right = self.x + self.w;
        let other_right = other.x + other.w;
        let right = if self_right <= other_right { self_right } else { other_right };
        let self_bottom = self.y + self.h;
        let other_bottom = other.y + other.h;
        let bottom = if self_bottom <= other_bottom { self_bottom } else { other_bottom };
        if right < left || bottom < top {
            None
        } else {
            Some(Rect { x: left, y: top, w: right - left, h: bottom - top })
        }
    }
}

} // verus!
