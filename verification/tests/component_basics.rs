use platformer_core::components::movement::{
    Dasher, DashState, Direction, FacingDirection, Jumper, MovementBundle, Runner, Speed,
    WallJumper, WallJumpState,
};

#[test]
fn opposite_flips_between_left_and_right() {
    assert_eq!(Direction::Left.get_opposite(), Direction::Right);
    assert_eq!(Direction::Right.get_opposite(), Direction::Left);
}

#[test]
fn characters_spawn_facing_right() {
    assert_eq!(FacingDirection::default(), FacingDirection(Direction::Right));
}

#[test]
fn default_tuning_matches_the_shipped_values() {
    let runner = Runner::default();
    assert_eq!(runner.current_speed, 0);
    assert_eq!(runner.run_speed, Speed { max: 10000, accel: 1000, decel: 1000, turn: 1000 });
    assert_eq!(runner.sprint_speed, Speed { max: 15000, accel: 1000, decel: 1200, turn: 800 });
    assert_eq!(runner.air_speed, Speed { max: 10000, accel: 1000, decel: 1000, turn: 1000 });

    let dasher = Dasher::default();
    assert!(matches!(dasher.dash_state, DashState::ReadyToDash));
    assert_eq!(dasher.dash_power, 30000);
    assert_eq!(dasher.dash_duration_ms, 200);
    assert_eq!(dasher.dash_cooldown_duration_ms, 500);

    let jumper = Jumper::default();
    assert_eq!(jumper.jump_height, 225000);
    assert_eq!(jumper.time_to_jump_apex, 20);
    assert_eq!(jumper.down_grav_mult_pct, 150);
    assert_eq!(jumper.jump_count, 1);
    assert_eq!(jumper.max_jump_count, 1);

    let wall_jumper = WallJumper::default();
    assert!(matches!(wall_jumper.wall_jump_state, WallJumpState::NotOnWall));
    assert_eq!(wall_jumper.wall_slide_speed, 10);
    assert_eq!(wall_jumper.wall_jump_direction, Direction::Left);
    assert_eq!(wall_jumper.wall_slide_coyote_duration_ms, 200);
    assert_eq!(wall_jumper.wall_jump_duration_ms, 500);
}

#[test]
fn bundle_default_groups_the_component_defaults() {
    let bundle = MovementBundle::default();
    assert_eq!(bundle.facing, FacingDirection::default());
    assert_eq!(bundle.runner, Runner::default());
    assert_eq!(bundle.jumper, Jumper::default());
}
