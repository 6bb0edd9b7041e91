//! The fixed scene and its per-tick evolution: four boundary walls, two
//! angled obstacles, one controlled dynamic body, zero gravity.

use vstd::prelude::*;

use crate::entity::Collider;
use crate::entity::DynamicEntity;
use crate::entity::RigidBody;
use crate::entity::StaticEntity;
use crate::entity::spawn_rectangle;
use crate::entity::spawn_rectangle_spec;
use crate::entity::spawn_rigid_body_rectangle;
use crate::entity::spawn_rigid_body_rectangle_spec;
use crate::geom::Transform2;
use crate::geom::Vec2I;
use crate::geom::transform2d;
use crate::geom::transform2d_spec;
use crate::input::KeyState;
use crate::input::velocity_for;
use crate::input::velocity_vec;

verus! {

/// Width of the playfield enclosed by the walls.
pub const ARENA_WIDTH: i32 = 800;

/// Height of the playfield enclosed by the walls.
pub const ARENA_HEIGHT: i32 = 600;

/// Thickness of each boundary wall.
pub const WALL_THICKNESS: i32 = 10;

/// Side length of the square controlled body.
pub const PLAYER_SIDE: i32 = 30;

/// The whole scene: a zero gravity vector written once at initialization,
/// the static bodies, and the one dynamic body that receives input. Holding
/// the controlled body in a field of its own makes "exactly one controlled
/// entity" true by construction.
pub struct World {
    pub gravity: Vec2I,
    pub statics: Vec<StaticEntity>,
    pub player: DynamicEntity,
}

pub open spec fn left_wall() -> StaticEntity {
    spawn_rectangle_spec(
        transform2d_spec(-400i32, 0, 0, 0),
        Vec2I { x: WALL_THICKNESS, y: ARENA_HEIGHT },
    )
}

pub open spec fn right_wall() -> StaticEntity {
    spawn_rectangle_spec(
        transform2d_spec(400, 0, 0, 0),
        Vec2I { x: WALL_THICKNESS, y: ARENA_HEIGHT },
    )
}

pub open spec fn top_wall() -> StaticEntity {
    spawn_rectangle_spec(
        transform2d_spec(0, -300i32, 0, 0),
        Vec2I { x: ARENA_WIDTH, y: WALL_THICKNESS },
    )
}

pub open spec fn bottom_wall() -> StaticEntity {
    spawn_rectangle_spec(
        transform2d_spec(0, 300, 0, 0),
        Vec2I { x: ARENA_WIDTH, y: WALL_THICKNESS },
    )
}

/// First angled obstacle: a quarter of the playfield wide, four wall
/// thicknesses tall, turned a sixth of a turn.
pub open spec fn first_obstacle() -> StaticEntity {
    spawn_rectangle_spec(transform2d_spec(-200i32, 0, 0, 10), Vec2I { x: 200, y: 40 })
}

/// Second angled obstacle: half the playfield wide, two wall thicknesses
/// tall, turned a fifth of a turn the other way.
pub open spec fn second_obstacle() -> StaticEntity {
    spawn_rectangle_spec(transform2d_spec(200, 0, 0, -12i32), Vec2I { x: 400, y: 20 })
}

/// The six static bodies of the scene, walls first.
pub open spec fn setup_statics() -> Seq<StaticEntity> {
    seq![left_wall(), right_wall(), top_wall(), bottom_wall(), first_obstacle(), second_obstacle()]
}

/// The controlled body: a square at the world origin, drawn above the walls.
pub open spec fn initial_player() -> DynamicEntity {
    spawn_rigid_body_rectangle_spec(
        transform2d_spec(0, 0, 1, 0),
        Vec2I { x: PLAYER_SIDE, y: PLAYER_SIDE },
    )
}

impl World {
    /// Well-formedness: gravity stays the zero vector, every entity is
    /// well-formed, and the collider of the controlled body follows its
    /// simulated position.
    pub open spec fn wf(self) -> bool {
        &&& self.gravity == Vec2I::zero_spec()
        &&& self.player.wf()
        &&& self.player.collider.pos == self.player.body.pos
        &&& forall|i: int| 0 <= i < self.statics@.len() ==> self.statics@[i].wf()
    }
}

/// Initializes the world, once, before the simulation loop starts: gravity
/// is zeroed for this top-down scene, the four walls and two obstacles are
/// spawned, and exactly one dynamic body is spawned at the origin and made
/// the controlled one.
pub fn setup() -> (w: World)
    ensures
        w.wf(),
        w.gravity == Vec2I::zero_spec(),
        w.statics@ == setup_statics(),
        w.statics@.len() == 6,
        w.player == initial_player(),
{
    let half_w: i32 = ARENA_WIDTH / 2;
    let half_h: i32 = ARENA_HEIGHT / 2;
    let mut statics: Vec<StaticEntity> = Vec::new();
    statics.push(
        spawn_rectangle(transform2d(-half_w, 0, 0, 0), Vec2I::new(WALL_THICKNESS, ARENA_HEIGHT)),
    );
    statics.push(
        spawn_rectangle(transform2d(half_w, 0, 0, 0), Vec2I::new(WALL_THICKNESS, ARENA_HEIGHT)),
    );
    statics.push(
        spawn_rectangle(transform2d(0, -half_h, 0, 0), Vec2I::new(ARENA_WIDTH, WALL_THICKNESS)),
    );
    statics.push(
        spawn_rectangle(transform2d(0, half_h, 0, 0), Vec2I::new(ARENA_WIDTH, WALL_THICKNESS)),
    );
    statics.push(
        spawn_rectangle(
            transform2d(-half_w + 200, half_h - 300, 0, 10),
            Vec2I::new(ARENA_WIDTH / 4, WALL_THICKNESS * 4),
        ),
    );
    statics.push(
        spawn_rectangle(
            transform2d(half_w - 200, half_h - 300, 0, -12),
            Vec2I::new(ARENA_WIDTH / 2, WALL_THICKNESS * 2),
        ),
    );
    let player = spawn_rigid_body_rectangle(
        transform2d(0, 0, 1, 0),
        Vec2I::new(PLAYER_SIDE, PLAYER_SIDE),
    );
    let w = World { gravity: Vec2I::zero(), statics, player };
    proof {
        assert(w.statics@ =~= setup_statics());
    }
    w
}

/// The controlled body with its linear velocity replaced.
pub open spec fn with_velocity(p: DynamicEntity, v: Vec2I) -> DynamicEntity {
    DynamicEntity {
        body: RigidBody { linvel: v, ..p.body },
        ..p
    }
}

/// The Input-to-Velocity Mapper, run once per fixed tick: sets the
/// controlled body's linear velocity to `SPEED` times the accumulated key
/// direction. The world owns exactly one controlled body, so the write
/// always has its target; nothing else changes.
pub fn keyboard_control(w: &mut World, keys: &KeyState)
    requires
        old(w).wf(),
    ensures
        final(w).wf(),
        final(w).player == with_velocity(old(w).player, velocity_vec(*keys)),
        final(w).statics == old(w).statics,
        final(w).gravity == old(w).gravity,
{
    let v = velocity_for(keys);
    w.player.body.linvel = v;
}

/// The controlled body after one physics step reported `new_pos` and the
/// discrete synchronization copied the simulated pose verbatim into the
/// visual transform: the collider and transform follow the body, rotation
/// stays locked, the depth coordinate is untouched.
pub open spec fn stepped(p: DynamicEntity, new_pos: Vec2I) -> DynamicEntity {
    DynamicEntity {
        transform: Transform2 { x: new_pos.x, y: new_pos.y, z: p.transform.z, angle: p.body.angle },
        collider: Collider {
            half_x: p.collider.half_x,
            half_y: p.collider.half_y,
            pos: new_pos,
            angle: p.body.angle,
        },
        body: RigidBody { pos: new_pos, ..p.body },
        ..p
    }
}

/// Integrates one physics step into the world. The step itself is the
/// external engine's: it resolves collisions and moves the one dynamic
/// body, and because that body is rotation locked it never changes the
/// body's rotation or angular velocity, so only the new planar position
/// comes back. Static bodies never move; the visual transform then receives
/// the simulated pose verbatim.
pub fn apply_step_result(w: &mut World, new_pos: Vec2I)
    requires
        old(w).wf(),
    ensures
        final(w).wf(),
        final(w).player == stepped(old(w).player, new_pos),
        final(w).player.transform.x == new_pos.x,
        final(w).player.transform.y == new_pos.y,
        final(w).player.transform.angle == old(w).player.body.angle,
        final(w).player.body.angvel == 0,
        final(w).statics == old(w).statics,
        final(w).gravity == old(w).gravity,
{
    w.player.body.pos = new_pos;
    w.player.collider.pos = new_pos;
    w.player.collider.angle = w.player.body.angle;
    w.player.transform.x = new_pos.x;
    w.player.transform.y = new_pos.y;
    w.player.transform.angle = w.player.body.angle;
}

/// The controlled body after one whole fixed tick: the mapper writes the
/// velocity for `keys`, then the engine's step reports `new_pos`.
pub open spec fn tick_player(p: DynamicEntity, keys: KeyState, new_pos: Vec2I) -> DynamicEntity {
    stepped(with_velocity(p, velocity_vec(keys)), new_pos)
}

/// One fixed tick, in the scheduler's order: the mapper first, then the
/// physics step's result.
pub fn run_tick(w: &mut World, keys: &KeyState, new_pos: Vec2I)
    requires
        old(w).wf(),
    ensures
        final(w).wf(),
        final(w).player == tick_player(old(w).player, *keys, new_pos),
        final(w).statics == old(w).statics,
        final(w).gravity == old(w).gravity,
{
    keyboard_control(w, keys);
    apply_step_result(w, new_pos);
}

/// What one fixed tick consumes: the keys held during it and the position
/// the physics step moved the controlled body to.
#[derive(Clone, Copy, PartialEq, Eq, Structural, Debug)]
pub struct TickInput {
    pub keys: KeyState,
    pub pos: Vec2I,
}

/// The controlled body after a whole sequence of fixed ticks.
pub open spec fn player_after_ticks(p: DynamicEntity, ticks: Seq<TickInput>) -> DynamicEntity
    decreases ticks.len(),
{
    if ticks.len() == 0 {
        p
    } else {
        player_after_ticks(tick_player(p, ticks[0].keys, ticks[0].pos), ticks.drop_first())
    }
}

/// Law: a rotation-locked body never acquires angular velocity and never
/// turns, across any sequence of ticks, whatever collisions the physics
/// steps resolved along the way.
pub proof fn lemma_rotation_lock_preserved(p: DynamicEntity, ticks: Seq<TickInput>)
    requires
        p.body.rotation_locked,
        p.body.angvel == 0,
    ensures
        player_after_ticks(p, ticks).body.rotation_locked,
        player_after_ticks(p, ticks).body.angvel == 0,
        player_after_ticks(p, ticks).body.angle == p.body.angle,
        ticks.len() > 0 ==> player_after_ticks(p, ticks).transform.angle == p.body.angle,
    decreases ticks.len(),
{
    if ticks.len() > 0 {
        lemma_rotation_lock_preserved(tick_player(p, ticks[0].keys, ticks[0].pos), ticks.drop_first());
    }
}

/// A point strictly inside the playfield the walls enclose: past every
/// wall's inner face.
pub open spec fn strictly_inside_playfield(x: int, y: int) -> bool {
    &&& (WALL_THICKNESS as int) / 2 - (ARENA_WIDTH as int) / 2 < x
    &&& x < (ARENA_WIDTH as int) / 2 - (WALL_THICKNESS as int) / 2
    &&& (WALL_THICKNESS as int) / 2 - (ARENA_HEIGHT as int) / 2 < y
    &&& y < (ARENA_HEIGHT as int) / 2 - (WALL_THICKNESS as int) / 2
}

/// Law: the four walls enclose the playfield — the side walls are centered
/// at half the width left and right and span the full height, the top and
/// bottom walls likewise — and the controlled body's spawn point and both
/// obstacles lie strictly inside the enclosed region.
pub proof fn lemma_walls_enclose_playfield()
    ensures
        left_wall().transform.x == -((ARENA_WIDTH as int) / 2),
        left_wall().transform.y == 0,
        right_wall().transform.x == (ARENA_WIDTH as int) / 2,
        right_wall().transform.y == 0,
        top_wall().transform.x == 0,
        top_wall().transform.y == -((ARENA_HEIGHT as int) / 2),
        bottom_wall().transform.x == 0,
        bottom_wall().transform.y == (ARENA_HEIGHT as int) / 2,
        left_wall().size == (Vec2I { x: WALL_THICKNESS, y: ARENA_HEIGHT }),
        right_wall().size == (Vec2I { x: WALL_THICKNESS, y: ARENA_HEIGHT }),
        top_wall().size == (Vec2I { x: ARENA_WIDTH, y: WALL_THICKNESS }),
        bottom_wall().size == (Vec2I { x: ARENA_WIDTH, y: WALL_THICKNESS }),
        strictly_inside_playfield(initial_player().transform.x as int, initial_player().transform.y as int),
        strictly_inside_playfield(first_obstacle().transform.x as int, first_obstacle().transform.y as int),
        strictly_inside_playfield(second_obstacle().transform.x as int, second_obstacle().transform.y as int),
{
}

} // verus!
