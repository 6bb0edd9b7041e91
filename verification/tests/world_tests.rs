use arena2d::entity::spawn_rectangle;
use arena2d::entity::spawn_rigid_body_rectangle;
use arena2d::geom::Vec2I;
use arena2d::geom::transform2d;
use arena2d::input::KeyState;
use arena2d::world::ARENA_HEIGHT;
use arena2d::world::ARENA_WIDTH;
use arena2d::world::WALL_THICKNESS;
use arena2d::world::apply_step_result;
use arena2d::world::keyboard_control;
use arena2d::world::run_tick;
use arena2d::world::setup;

fn keys(left: bool, right: bool, down: bool, up: bool) -> KeyState {
    KeyState { left, right, down, up }
}

#[test]
fn setup_population_is_six_statics_and_one_controlled_dynamic() {
    let w = setup();
    assert_eq!(w.statics.len(), 6);
    assert_eq!(w.gravity, Vec2I { x: 0, y: 0 });
    assert_eq!(w.player.transform.x, 0);
    assert_eq!(w.player.transform.y, 0);
    assert_eq!(w.player.transform.z, 1);
    assert_eq!(w.player.body.linvel, Vec2I { x: 0, y: 0 });
    assert_eq!(w.player.body.angvel, 0);
    assert!(w.player.body.rotation_locked);
}

#[test]
fn walls_are_centered_on_the_playfield_edges() {
    let w = setup();
    assert_eq!(w.statics[0].transform.x, -(ARENA_WIDTH / 2));
    assert_eq!(w.statics[0].transform.y, 0);
    assert_eq!(w.statics[1].transform.x, ARENA_WIDTH / 2);
    assert_eq!(w.statics[1].transform.y, 0);
    assert_eq!(w.statics[2].transform.x, 0);
    assert_eq!(w.statics[2].transform.y, -(ARENA_HEIGHT / 2));
    assert_eq!(w.statics[3].transform.x, 0);
    assert_eq!(w.statics[3].transform.y, ARENA_HEIGHT / 2);
    for i in 0..2 {
        assert_eq!(w.statics[i].size, Vec2I { x: WALL_THICKNESS, y: ARENA_HEIGHT });
    }
    for i in 2..4 {
        assert_eq!(w.statics[i].size, Vec2I { x: ARENA_WIDTH, y: WALL_THICKNESS });
    }
}

#[test]
fn obstacles_and_spawn_point_lie_strictly_inside_the_walls() {
    let w = setup();
    let inner_x = ARENA_WIDTH / 2 - WALL_THICKNESS / 2;
    let inner_y = ARENA_HEIGHT / 2 - WALL_THICKNESS / 2;
    assert_eq!(w.statics[4].transform.x, -200);
    assert_eq!(w.statics[4].transform.y, 0);
    assert_eq!(w.statics[4].transform.angle, 10);
    assert_eq!(w.statics[4].size, Vec2I { x: 200, y: 40 });
    assert_eq!(w.statics[5].transform.x, 200);
    assert_eq!(w.statics[5].transform.y, 0);
    assert_eq!(w.statics[5].transform.angle, -12);
    assert_eq!(w.statics[5].size, Vec2I { x: 400, y: 20 });
    for e in [&w.statics[4], &w.statics[5]] {
        assert!(e.transform.x.abs() < inner_x);
        assert!(e.transform.y.abs() < inner_y);
    }
    assert!(w.player.transform.x.abs() < inner_x);
    assert!(w.player.transform.y.abs() < inner_y);
}

#[test]
fn colliders_are_half_the_visual_size() {
    let w = setup();
    for e in &w.statics {
        assert_eq!(e.collider.half_x, e.size.x / 2);
        assert_eq!(e.collider.half_y, e.size.y / 2);
        assert_eq!(e.collider.pos.x, e.transform.x);
        assert_eq!(e.collider.pos.y, e.transform.y);
        assert_eq!(e.collider.angle, e.transform.angle);
    }
    assert_eq!(w.player.collider.half_x, 15);
    assert_eq!(w.player.collider.half_y, 15);
}

#[test]
fn spawn_rectangle_composes_visual_and_collider() {
    let e = spawn_rectangle(transform2d(3, 4, 0, 7), Vec2I::new(10, 8));
    assert_eq!(e.transform.x, 3);
    assert_eq!(e.transform.y, 4);
    assert_eq!(e.transform.angle, 7);
    assert_eq!(e.size, Vec2I { x: 10, y: 8 });
    assert_eq!(e.collider.half_x, 5);
    assert_eq!(e.collider.half_y, 4);
    assert_eq!(e.collider.pos, Vec2I { x: 3, y: 4 });
    assert_eq!(e.collider.angle, 7);
}

#[test]
fn spawn_rigid_body_rectangle_starts_still_and_locked() {
    let e = spawn_rigid_body_rectangle(transform2d(-9, 12, 0, 0), Vec2I::new(6, 6));
    assert_eq!(e.body.pos, Vec2I { x: -9, y: 12 });
    assert_eq!(e.body.angle, 0);
    assert_eq!(e.body.linvel, Vec2I { x: 0, y: 0 });
    assert_eq!(e.body.angvel, 0);
    assert!(e.body.rotation_locked);
    assert_eq!(e.collider.half_x, 3);
    assert_eq!(e.collider.half_y, 3);
}

#[test]
fn keyboard_control_writes_the_mapped_velocity() {
    let mut w = setup();
    keyboard_control(&mut w, &keys(false, true, false, false));
    assert_eq!(w.player.body.linvel, Vec2I { x: 200, y: 0 });
    keyboard_control(&mut w, &keys(true, true, true, false));
    assert_eq!(w.player.body.linvel, Vec2I { x: 0, y: -200 });
    assert_eq!(w.statics.len(), 6);
}

#[test]
fn a_tick_moves_the_body_and_syncs_the_visual_transform() {
    let mut w = setup();
    run_tick(&mut w, &keys(false, false, false, true), Vec2I::new(5, 17));
    assert_eq!(w.player.body.linvel, Vec2I { x: 0, y: 200 });
    assert_eq!(w.player.body.pos, Vec2I { x: 5, y: 17 });
    assert_eq!(w.player.transform.x, 5);
    assert_eq!(w.player.transform.y, 17);
    assert_eq!(w.player.transform.z, 1);
    assert_eq!(w.player.collider.pos, Vec2I { x: 5, y: 17 });
    assert_eq!(w.statics.len(), 6);
}

#[test]
fn rotation_stays_locked_across_many_ticks() {
    let mut w = setup();
    let frames = [
        (keys(true, false, false, false), Vec2I::new(-3, 0)),
        (keys(true, true, true, false), Vec2I::new(-3, -4)),
        (keys(false, false, false, true), Vec2I::new(-395, 200)),
        (keys(false, true, false, true), Vec2I::new(0, 0)),
    ];
    for (k, pos) in frames {
        run_tick(&mut w, &k, pos);
        assert!(w.player.body.rotation_locked);
        assert_eq!(w.player.body.angvel, 0);
        assert_eq!(w.player.body.angle, 0);
        assert_eq!(w.player.transform.angle, 0);
    }
}

#[test]
fn a_step_result_alone_never_turns_the_body() {
    let mut w = setup();
    apply_step_result(&mut w, Vec2I::new(123, -45));
    assert_eq!(w.player.transform.x, 123);
    assert_eq!(w.player.transform.y, -45);
    assert_eq!(w.player.transform.angle, 0);
    assert_eq!(w.player.body.angvel, 0);
    assert_eq!(w.gravity, Vec2I { x: 0, y: 0 });
}
