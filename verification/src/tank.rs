//! Tank-versus-wall response: pushing a tank back out of every wall it
//! overlaps, each wall by a fixed step along its own outward direction.

use vstd::prelude::*;

use crate::geometry::Vec2Fix;

verus! {

/// How far one overlapping wall pushes a tank, in fixed-point units.
pub const TANK_PUSH: i64 = 5000;

/// The side of the arena a wall sits on.
#[derive(Clone, Copy, PartialEq, Eq, Structural, Debug)]
pub enum WallSide {
    Up,
    Down,
    Left,
    Right,
}

/// The unit direction a wall pushes an overlapping tank: back towards
/// the inside of the arena.
pub open spec fn spec_push_direction(side: WallSide) -> Vec2Fix {
    match side {
        WallSide::Up => Vec2Fix { x: 0, y: -1i64 },
        WallSide::Down => Vec2Fix { x: 0, y: 1 },
        WallSide::Left => Vec2Fix { x: 1, y: 0 },
        WallSide::Right => Vec2Fix { x: -1i64, y: 0 },
    }
}

/// The unit direction a wall on the given side pushes a tank.
pub fn push_direction(side: WallSide) -> (d: Vec2Fix)
    ensures
        d == spec_push_direction(side),
{
    match side {
        WallSide::Up => Vec2Fix { x: 0, y: -1 },
        WallSide::Down => Vec2Fix { x: 0, y: 1 },
        WallSide::Left => Vec2Fix { x: 1, y: 0 },
        WallSide::Right => Vec2Fix { x: -1, y: 0 },
    }
}

/// One wall as the tank pass sees it: which side of the arena it sits on
/// and whether the tank's collider currently overlaps it.
#[derive(Clone, Copy, PartialEq, Eq, Structural, Debug)]
pub struct TankWallContact {
    pub side: WallSide,
    pub collides: bool,
}

/// The sum of the x components of the push directions of every
/// overlapping wall, in push units.
pub open spec fn spec_push_total_x(walls: Seq<TankWallContact>) -> int
    decreases walls.len(),
{
    if walls.len() == 0 {
        0
    } else {
        spec_push_total_x(walls.drop_last()) + if walls.last().collides {
            spec_push_direction(walls.last().side).x as int
        } else {
            0
        }
    }
}

/// The sum of the y components of the push directions of every
/// overlapping wall, in push units.
pub open spec fn spec_push_total_y(walls: Seq<TankWallContact>) -> int
    decreases walls.len(),
{
    if walls.len() == 0 {
        0
    } else {
        spec_push_total_y(walls.drop_last()) + if walls.last().collides {
            spec_push_direction(walls.last().side).y as int
        } else {
            0
        }
    }
}

/// No pass over the walls pushes a tank further than one push unit per
/// wall along either axis.
pub proof fn lemma_push_total_bounded(walls: Seq<TankWallContact>)
    ensures
        -walls.len() <= spec_push_total_x(walls) <= walls.len(),
        -walls.len() <= spec_push_total_y(walls) <= walls.len(),
    decreases walls.len(),
{
    if walls.len() > 0 {
        lemma_push_total_bounded(walls.drop_last());
    }
}

/// One per-frame pass for one tank: every overlapping wall pushes the
/// tank one fixed step back towards the inside of the arena, so that it
/// does not stick in the wall.
pub fn resolve_tank_pushes(position: &mut Vec2Fix, walls: &Vec<TankWallContact>)
    requires
        old(position).x - walls@.len() * TANK_PUSH >= i64::MIN,
        old(position).x + walls@.len() * TANK_PUSH <= i64::MAX,
        old(position).y - walls@.len() * TANK_PUSH >= i64::MIN,
        old(position).y + walls@.len() * TANK_PUSH <= i64::MAX,
    ensures
        final(position).x == old(position).x + TANK_PUSH * spec_push_total_x(walls@),
        final(position).y == old(position).y + TANK_PUSH * spec_push_total_y(walls@),
{
    let ghost orig = *position;
    let mut i: usize = 0;
    while i < walls.len()
        invariant
            i <= walls.len(),
            orig == *old(position),
            orig.x - walls@.len() * TANK_PUSH >= i64::MIN,
            orig.x + walls@.len() * TANK_PUSH <= i64::MAX,
            orig.y - walls@.len() * TANK_PUSH >= i64::MIN,
            orig.y + walls@.len() * TANK_PUSH <= i64::MAX,
            position.x == orig.x + TANK_PUSH * spec_push_total_x(walls@.take(i as int)),
            position.y == orig.y + TANK_PUSH * spec_push_total_y(walls@.take(i as int)),
        decreases walls.len() - i,
    {
        proof {
            lemma_push_total_bounded(walls@.take(i as int));
            lemma_push_total_bounded(walls@.take(i as int + 1));
            assert(walls@.take(i as int + 1).drop_last() =~= walls@.take(i as int));
        }
        if walls[i].collides {
            let d = push_direction(walls[i].side);
            position.x = position.x + d.x * TANK_PUSH;
            position.y = position.y + d.y * TANK_PUSH;
        }
        i += 1;
    }
    proof {
        assert(walls@.take(walls@.len() as int) =~= walls@);
    }
}

} // verus!
