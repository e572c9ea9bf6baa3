//! Collision response logic for a 2D tank arcade game.
//!
//! All geometry is carried in fixed-point integer coordinates
//! (`COORD_SCALE` sub-units per world unit) and angles in millidegrees,
//! so that every rule — updating cached bounds from a transform,
//! reflecting a bullet off a wall, pushing a tank out of a wall — is
//! stated and proved exactly. The engine layer converts to and from its
//! own float types and runs the per-entity loops; the decisions are all
//! made here.

use vstd::prelude::*;

pub mod geometry;
pub mod bullet;
pub mod tank;

verus! {

/// Fixed-point sub-units per world unit.
pub const COORD_SCALE: i64 = 1000;

} // verus!
