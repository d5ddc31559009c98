//! Tests of the coordinate mapper, the startup configuration, and the
//! per-frame decisions, on concrete values.

use super_simple::coords::{
    screen_length_to_world, screen_to_world, world_length_to_screen, world_to_screen,
    ScreenVector, WorldVector, SCALE, VIEWPORT_HEIGHT,
};
use super_simple::fixed::{Fixed, MILLI};
use super_simple::render::{background_color, draw, white, CIRCLE_TOLERANCE};
use super_simple::sim::{
    initialize, BodySetup, ColliderSetup, SimulationState, BALL_COLLIDER_RADIUS,
    BALL_LINEAR_DAMPING, BALL_RESTITUTION, BALL_WORLD_RADIUS, GRAVITY_Y,
};

#[test]
fn constants_are_the_demo_values() {
    assert_eq!(MILLI, 1000);
    assert_eq!(SCALE, 10);
    assert_eq!(VIEWPORT_HEIGHT, 800_000);
}

#[test]
fn world_origin_maps_to_bottom_left() {
    // world (0, 0) -> screen (0, 800)
    let s = world_to_screen(WorldVector::from_milli(0, 0));
    assert_eq!(s.x.milli, 0);
    assert_eq!(s.y.milli, 800 * MILLI);
}

#[test]
fn world_top_maps_to_screen_top() {
    // world (40, 80) -> screen (400, 0)
    let s = world_to_screen(WorldVector::from_milli(40 * MILLI, 80 * MILLI));
    assert_eq!(s.x.milli, 400 * MILLI);
    assert_eq!(s.y.milli, 0);
}

#[test]
fn screen_center_maps_to_world() {
    let w = screen_to_world(ScreenVector::from_milli(400 * MILLI, 400 * MILLI));
    assert_eq!(w.x.milli, 40 * MILLI);
    assert_eq!(w.y.milli, 40 * MILLI);
}

#[test]
fn round_trip_is_exact() {
    let samples: Vec<(i64, i64)> = vec![
        (0, 0),
        (12_345, 67_891),
        (-12_345, 67_891),
        (40 * MILLI, 80 * MILLI),
        (-1, -1),
        (999_999_999_999, -999_999_999_999),
    ];
    for (x, y) in samples {
        let w = WorldVector::from_milli(x, y);
        let back = screen_to_world(world_to_screen(w));
        assert_eq!(back, w);
    }
}

#[test]
fn length_scales_by_exactly_ten() {
    assert_eq!(world_length_to_screen(Fixed::from_milli(0)).milli, 0);
    assert_eq!(world_length_to_screen(Fixed::from_milli(1)).milli, 10);
    assert_eq!(world_length_to_screen(Fixed::from_milli(1500)).milli, 15_000);
    assert_eq!(
        world_length_to_screen(Fixed::from_milli(2 * MILLI)).milli,
        20 * MILLI
    );
}

#[test]
fn screen_length_divides_toward_zero() {
    assert_eq!(screen_length_to_world(Fixed::from_milli(15_000)).milli, 1500);
    assert_eq!(screen_length_to_world(Fixed::from_milli(15)).milli, 1);
    assert_eq!(screen_length_to_world(Fixed::from_milli(-15)).milli, -1);
    assert_eq!(screen_length_to_world(Fixed::from_milli(9)).milli, 0);
}

#[test]
fn fixed_unit_conversions() {
    assert_eq!(Fixed::from_units(40).milli, 40 * MILLI);
    assert_eq!(Fixed::from_milli(2_999).to_units(), 2);
    assert_eq!(Fixed::from_milli(-2_999).to_units(), -2);
}

#[test]
fn initialize_places_the_ball_under_the_screen_center() {
    let sim = initialize();
    let expected = screen_to_world(ScreenVector::from_milli(400 * MILLI, 400 * MILLI));
    let body = &sim.state.bodies[sim.ball.rigid_body_handle.index];
    assert_eq!(body.position, expected);
    assert_eq!(body.position.x.milli, 40 * MILLI);
    assert_eq!(body.position.y.milli, 40 * MILLI);
}

#[test]
fn initialize_pins_every_creation_parameter() {
    let sim = initialize();
    assert_eq!(sim.state.bodies.len(), 1);
    assert_eq!(sim.state.colliders.len(), 1);
    let body = &sim.state.bodies[0];
    let attachment = &sim.state.colliders[0];
    assert_eq!(body.linear_damping.milli, BALL_LINEAR_DAMPING);
    assert_eq!(body.linear_damping.milli, 600);
    assert_eq!(attachment.collider.radius.milli, BALL_COLLIDER_RADIUS);
    assert_eq!(attachment.collider.radius.milli, 500);
    assert_eq!(attachment.collider.restitution.milli, BALL_RESTITUTION);
    assert_eq!(attachment.collider.restitution.milli, 400);
    assert_eq!(attachment.parent, sim.ball.rigid_body_handle);
    assert_eq!(sim.config.gravity.x.milli, 0);
    assert_eq!(sim.config.gravity.y.milli, GRAVITY_Y);
    assert_eq!(sim.config.gravity.y.milli, -10 * MILLI);
}

#[test]
fn visual_radius_is_four_times_the_collision_radius() {
    let sim = initialize();
    assert_eq!(sim.ball.world_radius.milli, BALL_WORLD_RADIUS);
    assert_eq!(sim.ball.world_radius.milli, 2 * MILLI);
    let collision = sim.state.colliders[0].collider.radius.milli;
    assert_eq!(collision, 500);
    assert_eq!(sim.ball.world_radius.milli, 4 * collision);
    assert_ne!(sim.ball.world_radius.milli, collision);
}

#[test]
fn update_records_the_elapsed_time_and_nothing_else() {
    let mut sim = initialize();
    assert_eq!(sim.config.time_step.milli, 0);
    let gravity = sim.config.gravity;
    let ball = sim.ball;
    sim.update(Fixed::from_milli(16));
    assert_eq!(sim.config.time_step.milli, 16);
    assert_eq!(sim.config.gravity, gravity);
    assert_eq!(sim.ball, ball);
    assert_eq!(sim.state.bodies.len(), 1);
    sim.update(Fixed::from_milli(0));
    assert_eq!(sim.config.time_step.milli, 0);
}

#[test]
fn handles_are_insertion_indices() {
    let mut state = SimulationState::new();
    assert_eq!(state.bodies.len(), 0);
    assert_eq!(state.colliders.len(), 0);
    let body = BodySetup {
        position: WorldVector::from_milli(1, 2),
        linear_damping: Fixed::from_milli(0),
    };
    let first = state.insert_body(body);
    let second = state.insert_body(body);
    assert_eq!(first.index, 0);
    assert_eq!(second.index, 1);
    let collider = ColliderSetup {
        radius: Fixed::from_milli(500),
        restitution: Fixed::from_milli(0),
    };
    state.insert_with_parent(collider, second);
    assert_eq!(state.bodies.len(), 2);
    assert_eq!(state.colliders.len(), 1);
    assert_eq!(state.colliders[0].parent, second);
    assert_eq!(state.colliders[0].collider, collider);
}

#[test]
fn draw_maps_the_post_step_position() {
    let sim = initialize();
    let position = WorldVector::from_milli(12 * MILLI, 34 * MILLI);
    let command = draw(position, &sim.ball);
    assert_eq!(command.center.x.milli, 120 * MILLI);
    assert_eq!(command.center.y.milli, (800 - 340) * MILLI);
    assert_eq!(command.radius.milli, 20 * MILLI);
    assert_eq!(command.tolerance.milli, CIRCLE_TOLERANCE);
    assert_eq!(command.tolerance.milli, 10);
    assert_eq!(command.color, white());
    assert_eq!(command.background, background_color());
}

#[test]
fn draw_colors_are_the_fixed_palette() {
    let white = white();
    assert_eq!(
        (white.r.milli, white.g.milli, white.b.milli, white.a.milli),
        (1000, 1000, 1000, 1000)
    );
    let bg = background_color();
    assert_eq!((bg.r.milli, bg.g.milli, bg.b.milli, bg.a.milli), (100, 200, 300, 1000));
}
