//! Planar vectors and transforms with integer coordinates.

use vstd::prelude::*;

verus! {

/// A planar vector with integer coordinates, used for positions, sizes and
/// velocities alike.
#[derive(Clone, Copy, PartialEq, Eq, Structural, Debug)]
pub struct Vec2I {
    pub x: i32,
    pub y: i32,
}

impl Vec2I {
    pub open spec fn zero_spec() -> Vec2I {
        Vec2I { x: 0, y: 0 }
    }

    pub fn new(x: i32, y: i32) -> (v: Vec2I)
        ensures
            v.x == x,
            v.y == y,
    {
        Vec2I { x, y }
    }

    pub fn zero() -> (v: Vec2I)
        ensures
            v == Vec2I::zero_spec(),
    {
        Vec2I { x: 0, y: 0 }
    }
}

/// A planar transform: position (x, y), a depth coordinate z that orders
/// drawing only and carries no physical meaning, and a rotation angle about
/// the out-of-plane axis, measured in sixtieths of a full turn (6 degrees
/// per unit).
#[derive(Clone, Copy, PartialEq, Eq, Structural, Debug)]
pub struct Transform2 {
    pub x: i32,
    pub y: i32,
    pub z: i32,
    pub angle: i32,
}

pub open spec fn transform2d_spec(x: i32, y: i32, z: i32, angle: i32) -> Transform2 {
    Transform2 { x, y, z, angle }
}

/// Builds a planar transform from a position, a depth and a rotation angle.
pub fn transform2d(x: i32, y: i32, z: i32, angle: i32) -> (t: Transform2)
    ensures
        t == transform2d_spec(x, y, z, angle),
{
    Transform2 { x, y, z, angle }
}

} // verus!
