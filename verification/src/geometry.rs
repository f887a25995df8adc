//! Axis-aligned rectangles and small numeric helpers shared by the
//! physics and by the score display.

use vstd::prelude::*;

verus! {

/// `v` forced into `lo..=hi`.
pub open spec fn clamp_int(v: int, lo: int, hi: int) -> int {
    if v < lo {
        lo
    } else if v > hi {
        hi
    } else {
        v
    }
}

/// A product of bounded factors is bounded: displacement over one tick
/// stays within `speed bound * time bound`.
pub proof fn lemma_mul_bounds(v: int, d: int, vb: int, db: int)
    requires
        -vb <= v <= vb,
        0 <= d <= db,
    ensures
        -(vb * db) <= v * d <= vb * db,
{
    assert(-(vb * db) <= v * d <= vb * db) by (nonlinear_arith)
        requires
            -vb <= v <= vb,
            0 <= d <= db,
    ;
}

/// A product with a bounded first factor is bounded by the same
/// multiple of the second: displacement over `d` milliseconds stays
/// within `speed bound * d`.
pub proof fn lemma_mul_bounds_factor(v: int, d: int, vb: int)
    requires
        -vb <= v <= vb,
        0 <= d,
    ensures
        -(vb * d) <= v * d <= vb * d,
{
    assert(-(vb * d) <= v * d <= vb * d) by (nonlinear_arith)
        requires
            -vb <= v <= vb,
            0 <= d,
    ;
}

/// An axis-aligned rectangle; `x` and `y` name its top-left corner.
/// The unit is whatever the caller works in.
#[derive(Clone, Copy, Debug, PartialEq, Eq, Structural)]
pub struct Rect {
    pub x: i64,
    pub y: i64,
    pub w: i64,
    pub h: i64,
}

/// Mathematical image of a [`Rect`].
pub ghost struct RectModel {
    pub x: int,
    pub y: int,
    pub w: int,
    pub h: int,
}

impl View for Rect {
    type V = RectModel;

    open spec fn view(&self) -> RectModel {
        RectModel { x: self.x as int, y: self.y as int, w: self.w as int, h: self.h as int }
    }
}

/// Whether two rectangles share interior area; rectangles that only
/// touch along an edge do not overlap.
pub open spec fn rects_overlap(a: RectModel, b: RectModel) -> bool {
    a.x < b.x + b.w && b.x < a.x + a.w && a.y < b.y + b.h && b.y < a.y + a.h
}

impl Rect {
    /// Whether this rectangle shares interior area with `other`.
    pub fn overlaps(&self, other: &Rect) -> (r: bool)
        requires
            i64::MIN <= self.x + self.w <= i64::MAX,
            i64::MIN <= self.y + self.h <= i64::MAX,
            i64::MIN <= other.x + other.w <= i64::MAX,
            i64::MIN <= other.y + other.h <= i64::MAX,
        ensures
            r == rects_overlap(self@, other@),
    {
        self.x < other.x + other.w && other.x < self.x + self.w && self.y < other.y + other.h
            && other.y < self.y + self.h
    }
}

} // verus!
