//! Axis-aligned boxes over fixed-point integer coordinates.
//!
//! An `Interval` is a 1D range with ordered bounds; an `Aabb` composes one
//! interval per axis. All 2D decisions are two independent 1D computations.

use vstd::prelude::*;

use crate::Collides;
use crate::Penetration;
use crate::pen_mag;
use crate::spec_abs;

verus! {

/// A 1D range with ordered bounds.
///
/// The constructor normalizes reversed endpoints, so every interval built
/// through it satisfies `low <= high`; the invariant is not needed for the
/// overlap and penetration formulas to be well defined.
#[derive(Debug, Copy, Clone, PartialEq, Eq, Structural)]
pub struct Interval {
    pub low: i32,
    pub high: i32,
}

/// The interval that `Interval::from_min_max` builds: the pairwise minimum
/// and maximum of the two endpoints, in order.
pub open spec fn spec_interval_from_min_max(a: i32, b: i32) -> Interval {
    if a <= b {
        Interval { low: a, high: b }
    } else {
        Interval { low: b, high: a }
    }
}

/// Whether two intervals overlap, with open semantics: intervals that only
/// touch at an endpoint do not overlap.
pub open spec fn spec_interval_overlaps(a: Interval, b: Interval) -> bool {
    a.high > b.low && a.low < b.high
}

/// The minimal signed 1D correction that separates `a` from `b`, or `None`
/// when they do not overlap.
///
/// `p1 = b.low - a.high` is the displacement that pushes `a` in the negative
/// direction, `p2 = b.high - a.low` the one that pushes it positive; both
/// must have the right sign, and the one of smaller absolute magnitude wins.
pub open spec fn spec_interval_penetration(a: Interval, b: Interval) -> Option<i64> {
    let p1 = b.low - a.high;
    let p2 = b.high - a.low;
    if p1 < 0 && p2 > 0 {
        if spec_abs(p1) < spec_abs(p2) {
            Some(p1 as i64)
        } else {
            Some(p2 as i64)
        }
    } else {
        None
    }
}

impl Interval {
    /// Whether the bounds are in order.
    pub open spec fn well_formed(self) -> bool {
        self.low <= self.high
    }

    /// Create from two arbitrary endpoints, silently normalizing reversed
    /// input; the result always satisfies `low <= high`.
    pub fn from_min_max(a: i32, b: i32) -> (r: Interval)
        ensures
            r == spec_interval_from_min_max(a, b),
            r.well_formed(),
    {
        if a <= b {
            Interval { low: a, high: b }
        } else {
            Interval { low: b, high: a }
        }
    }

    /// The minimal signed correction that separates `self` from `other`
    /// along this axis, or `None` when the two intervals do not overlap.
    pub fn penetration(self, other: Interval) -> (r: Option<i64>)
        ensures
            r == spec_interval_penetration(self, other),
    {
        let p1: i64 = other.low as i64 - self.high as i64;
        if !(p1 < 0) {
            return None;
        }
        let p2: i64 = other.high as i64 - self.low as i64;
        if !(p2 > 0) {
            return None;
        }
        if crate::abs(p1) < crate::abs(p2) {
            Some(p1)
        } else {
            Some(p2)
        }
    }

    /// Shift both bounds by `delta`; order of the bounds is preserved.
    pub fn offset(&mut self, delta: i32)
        requires
            i32::MIN <= old(self).low + delta <= i32::MAX,
            i32::MIN <= old(self).high + delta <= i32::MAX,
        ensures
            final(self).low == old(self).low + delta,
            final(self).high == old(self).high + delta,
    {
        self.low = self.low + delta;
        self.high = self.high + delta;
    }
}

impl Collides for Interval {
    open spec fn spec_collides(&self, other: Interval) -> bool {
        spec_interval_overlaps(*self, other)
    }

    fn collides(&self, other: &Interval) -> (r: bool) {
        self.high > other.low && self.low < other.high
    }
}

/// Axis-Aligned Bounding Box: one interval per axis.
#[derive(Debug, Copy, Clone, PartialEq, Eq, Structural)]
pub struct Aabb {
    pub x: Interval,
    pub y: Interval,
}

/// The box that `Aabb::from_min_max` builds: per-axis normalized intervals.
pub open spec fn spec_aabb_from_min_max(min: [i32; 2], max: [i32; 2]) -> Aabb {
    Aabb {
        x: spec_interval_from_min_max(min[0], max[0]),
        y: spec_interval_from_min_max(min[1], max[1]),
    }
}

/// Whether two boxes overlap: a separating-axis test, the boxes are
/// disjoint as soon as either axis fails to overlap.
pub open spec fn spec_aabb_collides(a: Aabb, b: Aabb) -> bool {
    spec_interval_overlaps(a.x, b.x) && spec_interval_overlaps(a.y, b.y)
}

/// The minimum-translation vector of `a` out of `b`, or `None` when the
/// boxes do not collide.
///
/// Exactly one axis carries the correction: the one whose 1D penetration
/// has the smaller absolute magnitude; ties resolve to the y axis.
pub open spec fn spec_aabb_penetration(a: Aabb, b: Aabb) -> Option<[i64; 2]> {
    match (spec_interval_penetration(a.x, b.x), spec_interval_penetration(a.y, b.y)) {
        (Some(px), Some(py)) => if spec_abs(px as int) < spec_abs(py as int) {
            Some([px, 0i64])
        } else {
            Some([0i64, py])
        },
        _ => None,
    }
}

impl Aabb {
    /// Whether both axes have ordered bounds.
    pub open spec fn well_formed(self) -> bool {
        self.x.well_formed() && self.y.well_formed()
    }

    /// Create from `min` and `max` points.
    ///
    /// In a typical screen-space coordinate system (the x axis points to
    /// the right and the y axis points down) `min` would be the "top-left"
    /// and `max` the "bottom-right". Reversed coordinates are silently
    /// normalized per axis.
    pub fn from_min_max(min: [i32; 2], max: [i32; 2]) -> (r: Aabb)
        ensures
            r == spec_aabb_from_min_max(min, max),
            r.well_formed(),
    {
        Aabb { x: Interval::from_min_max(min[0], max[0]), y: Interval::from_min_max(min[1], max[1]) }
    }

    /// Create from the `top_left` corner and the `size` of the rectangle;
    /// a negative size is normalized the same way as reversed corners.
    pub fn from_top_left_and_size(top_left: [i32; 2], size: [i32; 2]) -> (r: Aabb)
        requires
            i32::MIN <= top_left[0] + size[0] <= i32::MAX,
            i32::MIN <= top_left[1] + size[1] <= i32::MAX,
        ensures
            r.x == spec_interval_from_min_max(top_left[0], (top_left[0] + size[0]) as i32),
            r.y == spec_interval_from_min_max(top_left[1], (top_left[1] + size[1]) as i32),
            r.well_formed(),
    {
        Aabb {
            x: Interval::from_min_max(top_left[0], top_left[0] + size[0]),
            y: Interval::from_min_max(top_left[1], top_left[1] + size[1]),
        }
    }

    /// Move the shape by the given offset.
    pub fn offset(&mut self, offset: [i32; 2])
        requires
            i32::MIN <= old(self).x.low + offset[0] <= i32::MAX,
            i32::MIN <= old(self).x.high + offset[0] <= i32::MAX,
            i32::MIN <= old(self).y.low + offset[1] <= i32::MAX,
            i32::MIN <= old(self).y.high + offset[1] <= i32::MAX,
        ensures
            final(self).x.low == old(self).x.low + offset[0],
            final(self).x.high == old(self).x.high + offset[0],
            final(self).y.low == old(self).y.low + offset[1],
            final(self).y.high == old(self).y.high + offset[1],
    {
        self.x.offset(offset[0]);
        self.y.offset(offset[1]);
    }

    /// The shape after applying the offset.
    pub fn with_offset(self, offset: [i32; 2]) -> (r: Aabb)
        requires
            i32::MIN <= self.x.low + offset[0] <= i32::MAX,
            i32::MIN <= self.x.high + offset[0] <= i32::MAX,
            i32::MIN <= self.y.low + offset[1] <= i32::MAX,
            i32::MIN <= self.y.high + offset[1] <= i32::MAX,
        ensures
            r.x.low == self.x.low + offset[0],
            r.x.high == self.x.high + offset[0],
            r.y.low == self.y.low + offset[1],
            r.y.high == self.y.high + offset[1],
    {
        let mut moved = self;
        moved.offset(offset);
        moved
    }

    /// Returns the minimum point of the shape.
    pub fn min(&self) -> (r: [i32; 2])
        ensures
            r[0] == self.x.low,
            r[1] == self.y.low,
    {
        [self.x.low, self.y.low]
    }

    /// Returns the maximum point of the shape.
    pub fn max(&self) -> (r: [i32; 2])
        ensures
            r[0] == self.x.high,
            r[1] == self.y.high,
    {
        [self.x.high, self.y.high]
    }

    /// Returns the size of the shape, widened so that the subtraction is
    /// total.
    pub fn size(&self) -> (r: [i64; 2])
        ensures
            r[0] == self.x.high - self.x.low,
            r[1] == self.y.high - self.y.low,
    {
        [self.x.high as i64 - self.x.low as i64, self.y.high as i64 - self.y.low as i64]
    }
}

impl Collides for Aabb {
    open spec fn spec_collides(&self, other: Aabb) -> bool {
        spec_aabb_collides(*self, other)
    }

    fn collides(&self, other: &Aabb) -> (r: bool) {
        self.x.collides(&other.x) && self.y.collides(&other.y)
    }
}

impl Penetration for Aabb {
    open spec fn spec_penetration(&self, other: Aabb) -> Option<[i64; 2]> {
        spec_aabb_penetration(*self, other)
    }

    fn penetration(&self, other: &Aabb) -> (r: Option<[i64; 2]>) {
        let px = match self.x.penetration(other.x) {
            Some(v) => v,
            None => {
                return None;
            },
        };
        let py = match self.y.penetration(other.y) {
            Some(v) => v,
            None => {
                return None;
            },
        };
        if crate::abs(px) < crate::abs(py) {
            Some([px, 0])
        } else {
            Some([0, py])
        }
    }
}

/// A 1D penetration exists exactly when the intervals overlap: the
/// penetration query is consistent with the boolean overlap test.
pub proof fn lemma_interval_penetration_iff_overlaps(a: Interval, b: Interval)
    ensures
        spec_interval_penetration(a, b) is Some <==> spec_interval_overlaps(a, b),
{
}

/// A 2D penetration exists exactly when the boxes collide.
pub proof fn lemma_aabb_penetration_iff_collides(a: Aabb, b: Aabb)
    ensures
        spec_aabb_penetration(a, b) is Some <==> spec_aabb_collides(a, b),
{
}

/// Overlap is symmetric: `overlaps(a, b) == overlaps(b, a)` for all boxes.
pub proof fn lemma_collides_symmetric(a: Aabb, b: Aabb)
    ensures
        spec_aabb_collides(a, b) == spec_aabb_collides(b, a),
{
}

/// Separating axis: boxes whose intervals fail to overlap on either axis
/// do not collide and report no penetration. Intervals that merely touch
/// at an endpoint fail to overlap, so touching boxes do not collide.
pub proof fn lemma_separating_axis(a: Aabb, b: Aabb)
    requires
        !spec_interval_overlaps(a.x, b.x) || !spec_interval_overlaps(a.y, b.y),
    ensures
        !spec_aabb_collides(a, b),
        spec_aabb_penetration(a, b) is None,
{
}

/// Every non-degenerate box overlaps itself, penetrates itself, and the
/// magnitude of the self-penetration vector is the smaller of the box's
/// two extents (for a square box, its side length).
pub proof fn lemma_self_penetration(b: Aabb)
    requires
        b.x.low < b.x.high,
        b.y.low < b.y.high,
    ensures
        spec_aabb_collides(b, b),
        spec_aabb_penetration(b, b) is Some,
        pen_mag(spec_aabb_penetration(b, b)->Some_0) == if b.x.high - b.x.low
            < b.y.high - b.y.low {
            b.x.high - b.x.low
        } else {
            b.y.high - b.y.low
        },
{
}

/// Minimum-axis selection: when two boxes collide, the correction vector
/// is carried by exactly one axis, and its magnitude is the smaller of
/// the two 1D penetration magnitudes.
pub proof fn lemma_minimum_axis_selection(a: Aabb, b: Aabb)
    requires
        spec_aabb_collides(a, b),
    ensures
        spec_aabb_penetration(a, b) is Some,
        ({
            let p = spec_aabb_penetration(a, b)->Some_0;
            let mx = spec_abs(spec_interval_penetration(a.x, b.x)->Some_0 as int);
            let my = spec_abs(spec_interval_penetration(a.y, b.y)->Some_0 as int);
            &&& (p[0] == 0 || p[1] == 0)
            &&& pen_mag(p) == if mx < my {
                mx
            } else {
                my
            }
        }),
{
}

/// Normalization is insensitive to argument order: building a box from
/// `(min, max)` and from `(max, min)` yields the same box.
pub proof fn lemma_normalization_swap(p: [i32; 2], q: [i32; 2])
    ensures
        spec_aabb_from_min_max(p, q) == spec_aabb_from_min_max(q, p),
{
}

} // verus!
