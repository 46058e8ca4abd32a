//! A small 2D collision-detection library for axis-aligned bounding boxes.
//!
//! Coordinates are fixed-point integers: a box is a pair of closed integer
//! intervals, one per axis. The two core queries are an overlap test with
//! open-interval semantics (shapes that merely touch do not collide) and a
//! minimum-translation-vector computation that resolves an overlap along a
//! single axis. Both are specified exactly and verified; the collection
//! queries (`collides_any`, `max_penetration`) are generic algorithms written
//! once against the two primitive operations, so any shape that implements
//! them gets the collection queries for free.

use vstd::prelude::*;

pub mod aabb;

pub use aabb::Aabb;
pub use aabb::Interval;

verus! {

/// Absolute value of a mathematical integer.
pub open spec fn spec_abs(x: int) -> int {
    if x < 0 {
        -x
    } else {
        x
    }
}

/// Absolute value of a penetration component.
pub fn abs(v: i64) -> (r: i64)
    requires
        v != i64::MIN,
    ensures
        r == spec_abs(v as int),
{
    if v < 0 {
        -v
    } else {
        v
    }
}

/// L1 (Manhattan) magnitude `|px| + |py|` of a penetration vector.
///
/// This is the depth measure used by `max_penetration`; it deliberately
/// avoids a square root.
pub open spec fn pen_mag(p: [i64; 2]) -> int {
    spec_abs(p[0] as int) + spec_abs(p[1] as int)
}

/// Holds when `q` is absent or carries a vector of magnitude at most `m`.
pub open spec fn pen_mag_at_most(q: Option<[i64; 2]>, m: int) -> bool {
    match q {
        Some(v) => pen_mag(v) <= m,
        None => true,
    }
}

/// Holds when `q` is absent or carries a vector of magnitude strictly below `m`.
pub open spec fn pen_mag_below(q: Option<[i64; 2]>, m: int) -> bool {
    match q {
        Some(v) => pen_mag(v) < m,
        None => true,
    }
}

/// Whether `shape` overlaps at least one element of `others`.
pub open spec fn spec_collides_any<T: Collides<S>, S>(shape: T, others: Seq<S>) -> bool {
    exists|j: int|
        #![trigger shape.spec_collides(others[j])]
        0 <= j < others.len() && shape.spec_collides(others[j])
}

/// An overlap query against an empty collection is vacuously false,
/// whatever the shape.
pub proof fn lemma_collides_any_vacuous<T: Collides<S>, S>(shape: T)
    ensures
        !spec_collides_any(shape, Seq::<S>::empty()),
{
}

/// Trait implemented by shapes that can be checked for collisions with
/// shapes of type `S`.
pub trait Collides<S = Self> {
    /// What it means, mathematically, for `self` to overlap `other`.
    spec fn spec_collides(&self, other: S) -> bool;

    /// Returns true if `self` overlaps `other`.
    fn collides(&self, other: &S) -> (r: bool)
        ensures
            r == self.spec_collides(*other),
    ;

    /// Returns true if `self` collides with any of `others`.
    ///
    /// If `others` is empty, this function returns `false`.
    fn collides_any(&self, others: &[S]) -> (r: bool)
        ensures
            r == exists|j: int|
                #![trigger self.spec_collides(others@[j])]
                0 <= j < others@.len() && self.spec_collides(others@[j]),
    {
        let mut idx: usize = 0;
        while idx < others.len()
            invariant
                idx <= others@.len(),
                forall|j: int|
                    #![trigger self.spec_collides(others@[j])]
                    0 <= j < idx ==> !self.spec_collides(others@[j]),
            decreases others@.len() - idx,
        {
            if self.collides(&others[idx]) {
                return true;
            }
            idx += 1;
        }
        false
    }
}

/// Trait implemented by shapes that can check for penetration into other
/// shapes of type `S`.
pub trait Penetration<S = Self> {
    /// The penetration vector, mathematically: `None` when the shapes are
    /// not collided, otherwise the minimum translation of `self` along a
    /// single axis that separates the two shapes.
    spec fn spec_penetration(&self, other: S) -> Option<[i64; 2]>;

    /// Returns by how much `self` should be moved in order to resolve
    /// penetration with `other`.
    ///
    /// Returns `None` if the two shapes are not collided.
    fn penetration(&self, other: &S) -> (r: Option<[i64; 2]>)
        ensures
            r == self.spec_penetration(*other),
    ;

    /// Returns the maximum penetration of `self` against the `others`
    /// shapes, where depth is measured by the L1 magnitude `|px| + |py|`;
    /// among equal magnitudes the earliest element wins.
    ///
    /// Returns `None` if `self` does not penetrate any of the `others`.
    fn max_penetration(&self, others: &[S]) -> (r: Option<[i64; 2]>)
        ensures
            (match r {
                None => forall|j: int|
                    0 <= j < others@.len() ==> self.spec_penetration(#[trigger] others@[j]) is None,
                Some(p) => exists|i: int|
                    #![trigger self.spec_penetration(others@[i])]
                    0 <= i < others@.len() && self.spec_penetration(others@[i]) == Some(p)
                        && (forall|j: int|
                        0 <= j < others@.len() ==> pen_mag_at_most(
                            self.spec_penetration(#[trigger] others@[j]),
                            pen_mag(p),
                        )) && (forall|j: int|
                        0 <= j < i ==> pen_mag_below(
                            self.spec_penetration(#[trigger] others@[j]),
                            pen_mag(p),
                        )),
            }),
    {
        let mut best: Option<[i64; 2]> = None;
        let mut best_mag: i128 = 0;
        let ghost mut best_idx: int = 0;
        let mut idx: usize = 0;
        while idx < others.len()
            invariant
                idx <= others@.len(),
                (match best {
                    None => forall|j: int|
                        0 <= j < idx ==> self.spec_penetration(#[trigger] others@[j]) is None,
                    Some(p) => {
                        &&& 0 <= best_idx < idx
                        &&& self.spec_penetration(others@[best_idx]) == Some(p)
                        &&& best_mag == pen_mag(p)
                        &&& forall|j: int|
                            0 <= j < idx ==> pen_mag_at_most(
                                self.spec_penetration(#[trigger] others@[j]),
                                pen_mag(p),
                            )
                        &&& forall|j: int|
                            0 <= j < best_idx ==> pen_mag_below(
                                self.spec_penetration(#[trigger] others@[j]),
                                pen_mag(p),
                            )
                    },
                }),
            decreases others@.len() - idx,
        {
            match self.penetration(&others[idx]) {
                None => {},
                Some(p) => {
                    let m = l1_magnitude(p);
                    let take = match best {
                        None => true,
                        Some(_) => m > best_mag,
                    };
                    if take {
                        best = Some(p);
                        best_mag = m;
                        proof {
                            best_idx = idx as int;
                        }
                    }
                },
            }
            idx += 1;
        }
        best
    }
}

/// L1 magnitude of a penetration vector, widened to `i128` so that the
/// computation is total.
fn l1_magnitude(p: [i64; 2]) -> (m: i128)
    ensures
        m == pen_mag(p),
{
    let px: i128 = p[0] as i128;
    let py: i128 = p[1] as i128;
    let ax: i128 = if px < 0 {
        -px
    } else {
        px
    };
    let ay: i128 = if py < 0 {
        -py
    } else {
        py
    };
    ax + ay
}

} // verus!
