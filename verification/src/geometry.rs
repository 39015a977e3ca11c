//! Points and axis-aligned rectangles in fixed-point coordinates.

use vstd::prelude::*;
use crate::fixed::{add_sat, saturate, sub_sat};

verus! {

/// A position or a displacement, in screen space or in world space.
#[derive(Clone, Copy, Debug, PartialEq, Eq, Structural)]
pub struct Point {
    pub x: i64,
    pub y: i64,
}

impl Point {
    /// `self` moved by `delta`, each coordinate stopping at the ends of the range.
    pub open spec fn moved(self, delta: Point) -> Point {
        Point { x: saturate(self.x + delta.x), y: saturate(self.y + delta.y) }
    }

    /// The displacement that leads from `origin` to `self`.
    pub open spec fn since(self, origin: Point) -> Point {
        Point { x: saturate(self.x - origin.x), y: saturate(self.y - origin.y) }
    }

    /// Whether `other` lies within `radius` of `self`, the border included.
    pub open spec fn reaches(self, other: Point, radius: int) -> bool {
        let dx = other.x - self.x;
        let dy = other.y - self.y;
        radius >= 0 && dx * dx + dy * dy <= radius * radius
    }

    /// The point with the given coordinates.
    pub fn new(x: i64, y: i64) -> (p: Point)
        ensures
            p == (Point { x, y }),
    {
        Point { x, y }
    }

    /// Moves the point by `delta`.
    pub fn offset_by(self, delta: Point) -> (p: Point)
        ensures
            p == self.moved(delta),
    {
        Point { x: add_sat(self.x, delta.x), y: add_sat(self.y, delta.y) }
    }

    /// The displacement from `origin` to this point.
    pub fn delta_from(self, origin: Point) -> (d: Point)
        ensures
            d == self.since(origin),
    {
        Point { x: sub_sat(self.x, origin.x), y: sub_sat(self.y, origin.y) }
    }

    /// Tests whether `other` lies in the disc of the given radius about this
    /// point. A negative radius describes no disc.
    pub fn within(self, other: Point, radius: i64) -> (hit: bool)
        ensures
            hit == self.reaches(other, radius as int),
    {
        if radius < 0 {
            return false;
        }
        let r: i128 = radius as i128;
        let dx: i128 = other.x as i128 - self.x as i128;
        let dy: i128 = other.y as i128 - self.y as i128;
        if dx > r || dx < -r || dy > r || dy < -r {
            proof {
                lemma_square_outside(dx as int, dy as int, r as int);
            }
            return false;
        }
        proof {
            lemma_square_inside(dx as int, r as int);
            lemma_square_inside(dy as int, r as int);
            lemma_square_inside(r as int, r as int);
        }
        dx * dx + dy * dy <= r * r
    }
}

/// A displacement longer than `r` along one axis leaves the disc of radius `r`.
pub proof fn lemma_square_outside(dx: int, dy: int, r: int)
    requires
        r >= 0,
        dx > r || dx < -r || dy > r || dy < -r,
    ensures
        dx * dx + dy * dy > r * r,
{
    assert(dx * dx + dy * dy > r * r) by (nonlinear_arith)
        requires
            r >= 0,
            dx > r || dx < -r || dy > r || dy < -r,
    ;
}

/// The square of a value between `-r` and `r` lies between 0 and `r * r`,
/// which for an `r` of 64 bits is below 2^126.
pub proof fn lemma_square_inside(d: int, r: int)
    requires
        0 <= r <= i64::MAX,
        -r <= d <= r,
    ensures
        0 <= d * d <= r * r,
        r * r <= 0x3fff_ffff_ffff_ffff_0000_0000_0000_0001,
{
    assert(0 <= d * d <= r * r) by (nonlinear_arith)
        requires
            0 <= r,
            -r <= d <= r,
    ;
    assert(r * r <= 0x7fff_ffff_ffff_ffff * 0x7fff_ffff_ffff_ffff) by (nonlinear_arith)
        requires
            0 <= r <= 0x7fff_ffff_ffff_ffff,
    ;
}

/// An axis-aligned rectangle: a corner and the extent from it.
#[derive(Clone, Copy, Debug, PartialEq, Eq, Structural)]
pub struct Rect {
    pub x: i64,
    pub y: i64,
    pub w: i64,
    pub h: i64,
}

impl Rect {
    /// Whether `p` lies in the rectangle, its four edges included.
    pub open spec fn holds(self, p: Point) -> bool {
        &&& self.x <= p.x <= self.x + self.w
        &&& self.y <= p.y <= self.y + self.h
    }

    /// The rectangle with the corner (`x`, `y`), the width `w` and the
    /// height `h`.
    pub fn new(x: i64, y: i64, w: i64, h: i64) -> (r: Rect)
        ensures
            r == (Rect { x, y, w, h }),
    {
        Rect { x, y, w, h }
    }

    /// Tests whether `p` lies in the rectangle, its four edges included.
    pub fn contains(&self, p: Point) -> (hit: bool)
        ensures
            hit == self.holds(p),
    {
        p.x >= self.x && p.x as i128 <= self.x as i128 + self.w as i128 && p.y >= self.y
            && p.y as i128 <= self.y as i128 + self.h as i128
    }
}

/// Tests whether `mouse` lies in the rectangle at (`x`, `y`) of width `w` and
/// height `h`, its edges included.
pub fn is_in_rect(mouse: Point, x: i64, y: i64, w: i64, h: i64) -> (hit: bool)
    ensures
        hit == (Rect { x, y, w, h }).holds(mouse),
{
    Rect { x, y, w, h }.contains(mouse)
}

} // verus!
