//! Plain integer 2D geometry: points, vectors and axis-aligned bounding
//! boxes. The y axis points down, as on screen.

use crate::isometry::fits_i64;
use vstd::prelude::*;

verus! {

/// A 2D point or vector with integer world coordinates.
#[derive(Clone, Copy, Debug, PartialEq, Eq, Structural)]
pub struct Vec2 {
    pub x: i64,
    pub y: i64,
}

impl Vec2 {
    /// A point or vector from explicit components.
    pub fn new(x: i64, y: i64) -> (r: Vec2)
        ensures
            r == (Vec2 { x, y }),
    {
        Vec2 { x, y }
    }
}

/// An axis-aligned bounding box, kept as its minimum and maximum corners.
#[derive(Clone, Copy, Debug, PartialEq, Eq, Structural)]
pub struct Aabb {
    pub mins: Vec2,
    pub maxs: Vec2,
}

/// Mathematical model of an axis-aligned box, over unbounded integers.
#[verifier::ext_equal]
pub ghost struct AabbModel {
    pub min_x: int,
    pub min_y: int,
    pub max_x: int,
    pub max_y: int,
}

impl View for Aabb {
    type V = AabbModel;

    open spec fn view(&self) -> AabbModel {
        AabbModel {
            min_x: self.mins.x as int,
            min_y: self.mins.y as int,
            max_x: self.maxs.x as int,
            max_y: self.maxs.y as int,
        }
    }
}

/// The box grown by `m` on every side.
pub open spec fn loosen_model(b: AabbModel, m: int) -> AabbModel {
    AabbModel {
        min_x: b.min_x - m,
        min_y: b.min_y - m,
        max_x: b.max_x + m,
        max_y: b.max_y + m,
    }
}

/// Whether `outer` fully contains `inner`.
pub open spec fn contains_model(outer: AabbModel, inner: AabbModel) -> bool {
    &&& outer.min_x <= inner.min_x
    &&& inner.max_x <= outer.max_x
    &&& outer.min_y <= inner.min_y
    &&& inner.max_y <= outer.max_y
}

/// Whether two boxes overlap; boxes that merely touch count as overlapping.
pub open spec fn overlap_model(a: AabbModel, b: AabbModel) -> bool {
    &&& a.min_x <= b.max_x
    &&& b.min_x <= a.max_x
    &&& a.min_y <= b.max_y
    &&& b.min_y <= a.max_y
}

impl Aabb {
    /// A box from its two corners.
    pub fn new(mins: Vec2, maxs: Vec2) -> (r: Aabb)
        ensures
            r == (Aabb { mins, maxs }),
    {
        Aabb { mins, maxs }
    }

    /// The box grown by `margin` on every side: a tolerance band around it.
    pub fn loosened(&self, margin: i64) -> (r: Aabb)
        requires
            fits_i64(self@.min_x - margin),
            fits_i64(self@.min_y - margin),
            fits_i64(self@.max_x + margin),
            fits_i64(self@.max_y + margin),
        ensures
            r@ == loosen_model(self@, margin as int),
    {
        Aabb {
            mins: Vec2 { x: self.mins.x - margin, y: self.mins.y - margin },
            maxs: Vec2 { x: self.maxs.x + margin, y: self.maxs.y + margin },
        }
    }

    /// Whether this box and `other` overlap, touching included.
    pub fn intersects(&self, other: &Aabb) -> (r: bool)
        ensures
            r == overlap_model(self@, other@),
    {
        self.mins.x <= other.maxs.x && other.mins.x <= self.maxs.x && self.mins.y
            <= other.maxs.y && other.mins.y <= self.maxs.y
    }

    /// Whether this box fully contains `other`.
    pub fn contains_box(&self, other: &Aabb) -> (r: bool)
        ensures
            r == contains_model(self@, other@),
    {
        self.mins.x <= other.mins.x && other.maxs.x <= self.maxs.x && self.mins.y
            <= other.mins.y && other.maxs.y <= self.maxs.y
    }
}

} // verus!
