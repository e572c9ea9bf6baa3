//! Bullet-versus-wall response: reflecting the flight angle, nudging the
//! bullet off the wall, counting bounces, and scanning the walls for the
//! first hit.

use vstd::prelude::*;

use crate::geometry::{AabbBounds, Collider, Vec2Fix};

verus! {

/// Half a turn in millidegrees.
pub const HALF_TURN: i64 = 180_000;

/// How far a bounce nudges a bullet off the wall, in fixed-point units.
pub const BULLET_NUDGE: i64 = 100;

/// A bullet is removed once it has bounced more often than this.
pub const MAX_BOUNCES: u32 = 5;

/// The orientation of a wall.
#[derive(Clone, Copy, PartialEq, Eq, Structural, Debug)]
pub enum WallType {
    Horizontal,
    Vertical,
}

/// The reflected flight angle after a bounce: a horizontal wall negates
/// the angle, a vertical wall mirrors it through half a turn.
pub open spec fn spec_reflect_angle(angle: int, wall_type: WallType) -> int {
    match wall_type {
        WallType::Horizontal => -angle,
        WallType::Vertical => HALF_TURN - angle,
    }
}

/// Reflect a flight angle (in millidegrees) off a wall.
pub fn reflect_angle(angle: i64, wall_type: WallType) -> (r: i64)
    requires
        angle > i64::MIN + HALF_TURN,
    ensures
        r == spec_reflect_angle(angle as int, wall_type),
{
    match wall_type {
        WallType::Horizontal => -angle,
        WallType::Vertical => HALF_TURN - angle,
    }
}

/// Reflecting twice off walls of the same orientation returns the
/// original angle.
pub proof fn lemma_reflect_involutive(angle: int, wall_type: WallType)
    ensures
        spec_reflect_angle(spec_reflect_angle(angle, wall_type), wall_type) == angle,
{
}

/// The flight state of a bullet: its angle in millidegrees, how often it
/// has bounced, and the center of the wall it hit last, if any.
#[derive(Clone, Copy, Debug)]
pub struct Bullet {
    pub angle: i64,
    pub bounce_count: u32,
    pub last_hit_wall: Option<Vec2Fix>,
}

/// The unit normal a bounce pushes the bullet along: away from the wall,
/// against the side the bullet is flying towards.
pub open spec fn spec_bounce_normal(wall_type: WallType, velocity: Vec2Fix) -> Vec2Fix {
    match wall_type {
        WallType::Horizontal => Vec2Fix {
            x: 0,
            y: if velocity.y > 0 { -1i64 } else { 1i64 },
        },
        WallType::Vertical => Vec2Fix {
            x: if velocity.x > 0 { -1i64 } else { 1i64 },
            y: 0,
        },
    }
}

/// The unit normal along which a bounce off the given wall pushes a
/// bullet flying with the given velocity.
pub fn bounce_normal(wall_type: WallType, velocity: Vec2Fix) -> (n: Vec2Fix)
    ensures
        n == spec_bounce_normal(wall_type, velocity),
{
    match wall_type {
        WallType::Horizontal => Vec2Fix { x: 0, y: if velocity.y > 0 { -1 } else { 1 } },
        WallType::Vertical => Vec2Fix { x: if velocity.x > 0 { -1 } else { 1 }, y: 0 },
    }
}

/// One wall as the bullet pass sees it: its cached bounds, its
/// orientation, and whether the bullet's collider currently overlaps it.
#[derive(Clone, Copy, PartialEq, Eq, Structural, Debug)]
pub struct WallContact {
    pub collider: Collider,
    pub wall_type: WallType,
    pub collides: bool,
}

/// The center of a wall's cached bounds.
pub open spec fn spec_wall_center(collider: Collider) -> Vec2Fix {
    match collider {
        Collider::Aabb(a) => a.center,
        Collider::Obb(o) => o.center,
    }
}

/// What a scan over the walls found for one bullet.
#[derive(Clone, Copy, PartialEq, Eq, Structural, Debug)]
pub enum WallScan {
    /// A wall with oriented bounds was reached: the pass gives up.
    ObbWall,
    /// No wall the bullet may bounce off overlaps it.
    NoHit,
    /// The index of the first overlapping wall the bullet may bounce off.
    Hit(usize),
}

/// The scan from index `i` on: the first wall with oriented bounds stops
/// it, a wall whose center matches the bullet's last hit is skipped, and
/// otherwise the first overlapping wall is the hit.
pub open spec fn spec_scan_walls(
    last_hit: Option<Vec2Fix>,
    walls: Seq<WallContact>,
    i: int,
) -> WallScan
    decreases walls.len() - i,
{
    if i < 0 || i >= walls.len() {
        WallScan::NoHit
    } else {
        match walls[i].collider {
            Collider::Obb(_) => WallScan::ObbWall,
            Collider::Aabb(a) => {
                if last_hit == Some(a.center) {
                    spec_scan_walls(last_hit, walls, i + 1)
                } else if walls[i].collides {
                    WallScan::Hit(i as usize)
                } else {
                    spec_scan_walls(last_hit, walls, i + 1)
                }
            }
        }
    }
}

/// A hit reported by the scan points at a wall with axis-aligned bounds
/// that overlaps the bullet and is not the wall it hit last.
pub proof fn lemma_scan_hit(
    last_hit: Option<Vec2Fix>,
    walls: Seq<WallContact>,
    i: int,
    k: usize,
)
    requires
        walls.len() <= usize::MAX,
        0 <= i <= walls.len(),
        spec_scan_walls(last_hit, walls, i) == WallScan::Hit(k),
    ensures
        i <= k < walls.len(),
        walls[k as int].collider is Aabb,
        walls[k as int].collides,
        last_hit != Some(spec_wall_center(walls[k as int].collider)),
    decreases walls.len() - i,
{
    if i < walls.len() {
        match walls[i].collider {
            Collider::Obb(_) => {}
            Collider::Aabb(a) => {
                if last_hit == Some(a.center) {
                    lemma_scan_hit(last_hit, walls, i + 1, k);
                } else if !walls[i].collides {
                    lemma_scan_hit(last_hit, walls, i + 1, k);
                }
            }
        }
    }
}

/// Scan the walls in order for the first one this bullet bounces off,
/// giving up on the first wall with oriented bounds and skipping the
/// wall whose center the bullet hit last.
pub fn scan_walls(last_hit: Option<Vec2Fix>, walls: &Vec<WallContact>) -> (r: WallScan)
    ensures
        r == spec_scan_walls(last_hit, walls@, 0),
{
    let mut i: usize = 0;
    while i < walls.len()
        invariant
            i <= walls.len(),
            spec_scan_walls(last_hit, walls@, 0) == spec_scan_walls(last_hit, walls@, i as int),
        decreases walls.len() - i,
    {
        match &walls[i].collider {
            Collider::Obb(_) => {
                return WallScan::ObbWall;
            }
            Collider::Aabb(a) => {
                let same = match &last_hit {
                    Some(c) => c.x == a.center.x && c.y == a.center.y,
                    None => false,
                };
                if !same && walls[i].collides {
                    return WallScan::Hit(i);
                }
            }
        }
        i += 1;
    }
    WallScan::NoHit
}

/// Bounce a bullet off one wall: reflect its angle, remember the wall,
/// nudge the bullet off the wall along the bounce normal, and count the
/// bounce. Returns whether the bullet has now bounced too often and is
/// to be removed.
pub fn apply_bounce(
    bullet: &mut Bullet,
    position: &mut Vec2Fix,
    velocity: Vec2Fix,
    wall_center: Vec2Fix,
    wall_type: WallType,
) -> (despawn: bool)
    requires
        old(bullet).angle > i64::MIN + HALF_TURN,
        old(bullet).bounce_count < u32::MAX,
        old(position).x - BULLET_NUDGE >= i64::MIN,
        old(position).x + BULLET_NUDGE <= i64::MAX,
        old(position).y - BULLET_NUDGE >= i64::MIN,
        old(position).y + BULLET_NUDGE <= i64::MAX,
    ensures
        final(bullet).angle == spec_reflect_angle(old(bullet).angle as int, wall_type),
        final(bullet).last_hit_wall == Some(wall_center),
        final(bullet).bounce_count == old(bullet).bounce_count + 1,
        final(position).x == old(position).x + spec_bounce_normal(wall_type, velocity).x
            * BULLET_NUDGE,
        final(position).y == old(position).y + spec_bounce_normal(wall_type, velocity).y
            * BULLET_NUDGE,
        despawn == (old(bullet).bounce_count + 1 > MAX_BOUNCES),
{
    let new_angle = reflect_angle(bullet.angle, wall_type);
    bullet.angle = new_angle;
    bullet.last_hit_wall = Some(wall_center);
    let normal = bounce_normal(wall_type, velocity);
    position.x = position.x + normal.x * BULLET_NUDGE;
    position.y = position.y + normal.y * BULLET_NUDGE;
    bullet.bounce_count = bullet.bounce_count + 1;
    bullet.bounce_count > MAX_BOUNCES
}

/// What one bullet pass did.
#[derive(Clone, Copy, PartialEq, Eq, Structural, Debug)]
pub enum BulletStep {
    /// A wall with oriented bounds was reached: the whole pass stops and
    /// every bullet is left alone.
    Aborted,
    /// No wall was hit: the bullet is left alone.
    NoCollision,
    /// The bullet bounced off the wall at this index; `despawn` says
    /// whether it has now bounced too often and is to be removed.
    Bounced { wall: usize, despawn: bool },
}

/// One per-frame pass for one bullet: scan the walls for the first hit
/// and bounce off it.
pub fn bullet_wall_step(
    bullet: &mut Bullet,
    position: &mut Vec2Fix,
    velocity: Vec2Fix,
    walls: &Vec<WallContact>,
) -> (r: BulletStep)
    requires
        old(bullet).angle > i64::MIN + HALF_TURN,
        old(bullet).bounce_count < u32::MAX,
        old(position).x - BULLET_NUDGE >= i64::MIN,
        old(position).x + BULLET_NUDGE <= i64::MAX,
        old(position).y - BULLET_NUDGE >= i64::MIN,
        old(position).y + BULLET_NUDGE <= i64::MAX,
    ensures
        match spec_scan_walls(old(bullet).last_hit_wall, walls@, 0) {
            WallScan::ObbWall => {
                &&& r == BulletStep::Aborted
                &&& *final(bullet) == *old(bullet)
                &&& *final(position) == *old(position)
            },
            WallScan::NoHit => {
                &&& r == BulletStep::NoCollision
                &&& *final(bullet) == *old(bullet)
                &&& *final(position) == *old(position)
            },
            WallScan::Hit(k) => {
                let wall = walls@[k as int];
                let normal = spec_bounce_normal(wall.wall_type, velocity);
                &&& r == (BulletStep::Bounced {
                    wall: k,
                    despawn: old(bullet).bounce_count + 1 > MAX_BOUNCES,
                })
                &&& final(bullet).angle == spec_reflect_angle(
                    old(bullet).angle as int,
                    wall.wall_type,
                )
                &&& final(bullet).last_hit_wall == Some(spec_wall_center(wall.collider))
                &&& final(bullet).bounce_count == old(bullet).bounce_count + 1
                &&& final(position).x == old(position).x + normal.x * BULLET_NUDGE
                &&& final(position).y == old(position).y + normal.y * BULLET_NUDGE
            },
        },
{
    let scan = scan_walls(bullet.last_hit_wall, walls);
    match scan {
        WallScan::ObbWall => BulletStep::Aborted,
        WallScan::NoHit => BulletStep::NoCollision,
        WallScan::Hit(k) => {
            proof {
                vstd::std_specs::vec::axiom_spec_len(walls);
                lemma_scan_hit(old(bullet).last_hit_wall, walls@, 0, k);
            }
            let wall = &walls[k];
            let center = match &wall.collider {
                Collider::Aabb(a) => a.center,
                Collider::Obb(o) => o.center,
            };
            let despawn = apply_bounce(bullet, position, velocity, center, wall.wall_type);
            BulletStep::Bounced { wall: k, despawn }
        }
    }
}

} // verus!
