//! Fixed-point 2D vectors and the cached collider bounds that the
//! per-frame systems keep in sync with entity transforms.

use vstd::prelude::*;

verus! {

/// A 2D vector in fixed-point world coordinates.
#[derive(Clone, Copy, PartialEq, Eq, Structural, Debug)]
pub struct Vec2Fix {
    pub x: i64,
    pub y: i64,
}

/// Axis-aligned bounding box: a center and non-negative half extents.
#[derive(Clone, Copy, PartialEq, Eq, Structural, Debug)]
pub struct AabbBounds {
    pub center: Vec2Fix,
    pub half_extents: Vec2Fix,
}

/// Oriented bounding box: a center, half extents, and a rotation in
/// millidegrees.
#[derive(Clone, Copy, PartialEq, Eq, Structural, Debug)]
pub struct ObbBounds {
    pub center: Vec2Fix,
    pub half_extents: Vec2Fix,
    pub rotation: i64,
}

/// The cached bounds of an entity, either axis-aligned or oriented.
#[derive(Clone, Copy, PartialEq, Eq, Structural, Debug)]
pub enum Collider {
    Aabb(AabbBounds),
    Obb(ObbBounds),
}

impl Collider {
    /// Refresh the cached bounds from an entity's current transform: the
    /// center follows the translation, an oriented box also takes the
    /// transform's rotation, and the extents are left alone.
    pub fn update_from_transform(&mut self, position: Vec2Fix, rotation: i64)
        ensures
            match *old(self) {
                Collider::Aabb(a) => *final(self) == Collider::Aabb(AabbBounds {
                    center: position,
                    half_extents: a.half_extents,
                }),
                Collider::Obb(o) => *final(self) == Collider::Obb(ObbBounds {
                    center: position,
                    half_extents: o.half_extents,
                    rotation: rotation,
                }),
            },
    {
        match self {
            Collider::Aabb(a) => {
                a.center = position;
            }
            Collider::Obb(o) => {
                o.center = position;
                o.rotation = rotation;
            }
        }
    }
}

} // verus!
