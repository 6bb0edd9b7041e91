//! Entity composition: a static or dynamic body is built from a transform
//! and a size, with a matching visual rectangle and collider.

use vstd::prelude::*;

use crate::geom::Transform2;
use crate::geom::Vec2I;

verus! {

/// How an entity's visual transform follows its simulated pose: after each
/// physics step the simulated position and rotation are copied verbatim into
/// the visual transform, with no interpolation or smoothing.
#[derive(Clone, Copy, PartialEq, Eq, Structural, Debug)]
pub enum SyncMode {
    Discrete,
}

/// A rectangular collision shape and the isometry it is placed at. The
/// half-extents equal half the visual size; the isometry is derived from the
/// owning transform's planar position and rotation angle.
#[derive(Clone, Copy, PartialEq, Eq, Structural, Debug)]
pub struct Collider {
    pub half_x: i32,
    pub half_y: i32,
    pub pos: Vec2I,
    pub angle: i32,
}

/// The simulated state of a dynamic body: planar pose, linear and angular
/// velocity, and whether collisions are forbidden from changing rotation.
#[derive(Clone, Copy, PartialEq, Eq, Structural, Debug)]
pub struct RigidBody {
    pub pos: Vec2I,
    pub angle: i32,
    pub linvel: Vec2I,
    pub angvel: i32,
    pub rotation_locked: bool,
}

/// An immovable entity: a visual rectangle plus a collider, with no body
/// state. Never mutated after creation.
#[derive(Clone, Copy, PartialEq, Eq, Structural, Debug)]
pub struct StaticEntity {
    pub transform: Transform2,
    pub size: Vec2I,
    pub collider: Collider,
    pub sync: SyncMode,
}

/// A simulated entity: the same visual rectangle and collider as a static
/// one, plus rigid-body state advanced once per fixed tick.
#[derive(Clone, Copy, PartialEq, Eq, Structural, Debug)]
pub struct DynamicEntity {
    pub transform: Transform2,
    pub size: Vec2I,
    pub collider: Collider,
    pub body: RigidBody,
    pub sync: SyncMode,
}

/// The collider belonging to a visual rectangle of `size` at `transform`:
/// half-extents are half the size, the isometry is the transform's planar
/// position and rotation angle.
pub open spec fn collider_for(transform: Transform2, size: Vec2I) -> Collider {
    Collider {
        half_x: (size.x / 2) as i32,
        half_y: (size.y / 2) as i32,
        pos: Vec2I { x: transform.x, y: transform.y },
        angle: transform.angle,
    }
}

pub open spec fn spawn_rectangle_spec(transform: Transform2, size: Vec2I) -> StaticEntity {
    StaticEntity {
        transform,
        size,
        collider: collider_for(transform, size),
        sync: SyncMode::Discrete,
    }
}

/// The rigid-body state a dynamic rectangle starts with: the transform's
/// planar position, no rotation, zero velocity, rotation locked.
pub open spec fn initial_body(transform: Transform2) -> RigidBody {
    RigidBody {
        pos: Vec2I { x: transform.x, y: transform.y },
        angle: 0,
        linvel: Vec2I::zero_spec(),
        angvel: 0,
        rotation_locked: true,
    }
}

pub open spec fn spawn_rigid_body_rectangle_spec(transform: Transform2, size: Vec2I) -> DynamicEntity {
    DynamicEntity {
        transform,
        size,
        collider: collider_for(transform, size),
        body: initial_body(transform),
        sync: SyncMode::Discrete,
    }
}

impl StaticEntity {
    /// Well-formedness: a positive size whose collider matches it.
    pub open spec fn wf(self) -> bool {
        &&& self.size.x > 0
        &&& self.size.y > 0
        &&& self.collider == collider_for(self.transform, self.size)
    }
}

impl DynamicEntity {
    /// Well-formedness: a positive size whose collider matches it, and a
    /// rotation-locked body that has never acquired angular velocity.
    pub open spec fn wf(self) -> bool {
        &&& self.size.x > 0
        &&& self.size.y > 0
        &&& self.collider == collider_for(self.transform, self.size)
        &&& self.body.rotation_locked
        &&& self.body.angvel == 0
    }
}

/// Composes an immovable entity: a visual rectangle of `size` at `transform`
/// and a collider of half that size at the matching isometry, enrolled in
/// discrete pose synchronization. No body state is attached.
pub fn spawn_rectangle(transform: Transform2, size: Vec2I) -> (e: StaticEntity)
    requires
        size.x > 0,
        size.y > 0,
    ensures
        e == spawn_rectangle_spec(transform, size),
        e.wf(),
{
    StaticEntity {
        transform,
        size,
        collider: Collider {
            half_x: size.x / 2,
            half_y: size.y / 2,
            pos: Vec2I { x: transform.x, y: transform.y },
            angle: transform.angle,
        },
        sync: SyncMode::Discrete,
    }
}

/// Composes a simulated entity: the same visual rectangle and collider as
/// `spawn_rectangle`, plus rigid-body state starting at the transform's
/// planar position with zero velocity and rotation locked.
pub fn spawn_rigid_body_rectangle(transform: Transform2, size: Vec2I) -> (e: DynamicEntity)
    requires
        size.x > 0,
        size.y > 0,
    ensures
        e == spawn_rigid_body_rectangle_spec(transform, size),
        e.wf(),
        e.body.linvel == Vec2I::zero_spec(),
        e.body.pos.x == transform.x,
        e.body.pos.y == transform.y,
        e.body.rotation_locked,
{
    let base = spawn_rectangle(transform, size);
    DynamicEntity {
        transform: base.transform,
        size: base.size,
        collider: base.collider,
        body: RigidBody {
            pos: Vec2I { x: transform.x, y: transform.y },
            angle: 0,
            linvel: Vec2I::zero(),
            angvel: 0,
            rotation_locked: true,
        },
        sync: base.sync,
    }
}

} // verus!
