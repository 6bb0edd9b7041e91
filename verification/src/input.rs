//! Input-to-velocity mapping: the held directional keys become a direction
//! vector, never normalized, scaled by a fixed speed.

use vstd::prelude::*;

use crate::geom::Vec2I;

verus! {

/// Which of the four logical directional keys are currently held.
#[derive(Clone, Copy, PartialEq, Eq, Structural, Debug)]
pub struct KeyState {
    pub left: bool,
    pub right: bool,
    pub down: bool,
    pub up: bool,
}

/// The controlled body's speed along each held axis, in units per second.
pub const SPEED: i32 = 200;

/// Horizontal direction: +1 for Right, -1 for Left, held together they
/// cancel exactly.
pub open spec fn dir_x(keys: KeyState) -> int {
    (if keys.right { 1int } else { 0int }) + (if keys.left { -1int } else { 0int })
}

/// Vertical direction: +1 for Up, -1 for Down, held together they cancel
/// exactly.
pub open spec fn dir_y(keys: KeyState) -> int {
    (if keys.up { 1int } else { 0int }) + (if keys.down { -1int } else { 0int })
}

pub open spec fn velocity_x(keys: KeyState) -> int {
    SPEED * dir_x(keys)
}

pub open spec fn velocity_y(keys: KeyState) -> int {
    SPEED * dir_y(keys)
}

/// The velocity the mapper writes for `keys`, as a planar vector.
pub open spec fn velocity_vec(keys: KeyState) -> Vec2I {
    Vec2I { x: velocity_x(keys) as i32, y: velocity_y(keys) as i32 }
}

/// Accumulates the unit contribution of each held key into a direction
/// vector. Opposing keys cancel; orthogonal keys combine unnormalized.
pub fn input_direction(keys: &KeyState) -> (d: Vec2I)
    ensures
        d.x == dir_x(*keys),
        d.y == dir_y(*keys),
{
    let mut x: i32 = 0;
    let mut y: i32 = 0;
    if keys.left {
        x = x - 1;
    }
    if keys.right {
        x = x + 1;
    }
    if keys.down {
        y = y - 1;
    }
    if keys.up {
        y = y + 1;
    }
    Vec2I { x, y }
}

/// The velocity the mapper assigns for `keys`: `SPEED` times the accumulated
/// direction. The direction is deliberately not normalized, so two
/// orthogonal keys held together move faster than one.
pub fn velocity_for(keys: &KeyState) -> (v: Vec2I)
    ensures
        v == velocity_vec(*keys),
        v.x == velocity_x(*keys),
        v.y == velocity_y(*keys),
{
    let d = input_direction(keys);
    Vec2I { x: SPEED * d.x, y: SPEED * d.y }
}

/// Law: opposing horizontal keys held together cancel exactly, so the
/// x-velocity is zero; the vertical pair cancels the same way.
pub proof fn lemma_opposing_keys_cancel(keys: KeyState)
    ensures
        keys.left && keys.right ==> velocity_x(keys) == 0,
        keys.down && keys.up ==> velocity_y(keys) == 0,
{
}

/// Law: with no key held the mapper writes the zero velocity exactly.
pub proof fn lemma_no_keys_zero_velocity(keys: KeyState)
    requires
        !keys.left,
        !keys.right,
        !keys.down,
        !keys.up,
    ensures
        velocity_vec(keys) == Vec2I::zero_spec(),
{
}

/// Law: Up and Right held together give the velocity (SPEED, SPEED), whose
/// squared magnitude exceeds the squared single-axis speed: diagonal motion
/// is faster than axial motion and is not normalized away.
pub proof fn lemma_diagonal_speed_unnormalized(keys: KeyState)
    requires
        keys.up,
        keys.right,
        !keys.down,
        !keys.left,
    ensures
        velocity_x(keys) == SPEED,
        velocity_y(keys) == SPEED,
        velocity_x(keys) * velocity_x(keys) + velocity_y(keys) * velocity_y(keys) == 80000,
        velocity_x(keys) * velocity_x(keys) + velocity_y(keys) * velocity_y(keys) > SPEED
            * SPEED,
{
}

} // verus!
