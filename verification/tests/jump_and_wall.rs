use platformer_core::components::movement::{
    Direction, FacingDirection, Jumper, WallJumper, WallJumpState,
};
use platformer_core::components::{GroundDetection, InputState, Velocity, WallDetection};
use platformer_core::systems::movement::{set_jumps, vertical_jump, wall_slide_and_jump};

fn no_input() -> InputState {
    InputState {
        pressed_left: false,
        pressed_right: false,
        pressed_sprint: false,
        just_pressed_jump: false,
        just_pressed_dash: false,
    }
}

fn no_walls() -> WallDetection {
    WallDetection { on_wall_left: false, on_wall_right: false }
}

#[test]
fn base_jump_speed_is_exact() {
    // 2 * 225000 / 20 = 22500, with the neutral multiplier of 100 percent.
    let j = Jumper::default();
    assert_eq!(j.get_jump_speed(0, 100), 22500);
}

#[test]
fn jump_speed_blends_with_current_velocity() {
    let j = Jumper::default();
    // Rising: the boost shrinks by the upward speed, floored at zero.
    assert_eq!(j.get_jump_speed(10, 100), 22490);
    assert_eq!(j.get_jump_speed(30000, 100), 0);
    // Falling: the downward speed's magnitude is added back.
    assert_eq!(j.get_jump_speed(-10, 100), 22510);
}

#[test]
fn jump_speed_scales_with_multiplier() {
    let j = Jumper::default();
    // 22500 * 1.25 = 28125.
    assert_eq!(j.get_jump_speed(0, 125), 28125);
}

#[test]
fn jump_mid_fall_spends_the_budget_once() {
    // Grounded character with a budget of one presses jump while falling at
    // 50: the impulse is (22500 + 50) scaled by a full one-second step.
    let mut jumper = Jumper::default();
    let mut vel = Velocity { x: 0, y: -50 };
    let press = InputState { just_pressed_jump: true, ..no_input() };

    vertical_jump(&mut jumper, &GroundDetection { on_ground: true }, &mut vel, &press, 1000);
    assert_eq!(vel.y, 22550);
    assert_eq!(jumper.jump_count, 0);

    // A second press before landing is rejected: airborne with no budget.
    vertical_jump(&mut jumper, &GroundDetection { on_ground: false }, &mut vel, &press, 1000);
    assert_eq!(vel.y, 22550);
    assert_eq!(jumper.jump_count, 0);
}

#[test]
fn grounded_jump_with_empty_budget_still_launches() {
    let mut jumper = Jumper { jump_count: 0, ..Jumper::default() };
    let mut vel = Velocity { x: 0, y: 0 };
    let press = InputState { just_pressed_jump: true, ..no_input() };

    vertical_jump(&mut jumper, &GroundDetection { on_ground: true }, &mut vel, &press, 1000);
    assert_eq!(vel.y, 22500);
    // The budget never goes below zero.
    assert_eq!(jumper.jump_count, 0);
}

#[test]
fn injected_tuning_allows_a_double_jump() {
    // A jumper built with a budget of two launches twice in the air and is
    // then spent.
    let mut jumper = Jumper::new(225000, 20, 150, 2);
    let mut vel = Velocity { x: 0, y: 0 };
    let press = InputState { just_pressed_jump: true, ..no_input() };
    let airborne = GroundDetection { on_ground: false };

    vertical_jump(&mut jumper, &airborne, &mut vel, &press, 1000);
    assert_eq!(jumper.jump_count, 1);
    assert_eq!(vel.y, 22500);

    vel.y = -100;
    vertical_jump(&mut jumper, &airborne, &mut vel, &press, 1000);
    assert_eq!(jumper.jump_count, 0);
    assert_eq!(vel.y, 22600);

    vertical_jump(&mut jumper, &airborne, &mut vel, &press, 1000);
    assert_eq!(jumper.jump_count, 0);
    assert_eq!(vel.y, 22600);
}

#[test]
fn budget_refills_when_grounded_at_rest() {
    let mut jumper = Jumper { jump_count: 0, max_jump_count: 3, ..Jumper::default() };
    set_jumps(&mut jumper, &Velocity { x: 5, y: 0 }, &GroundDetection { on_ground: true });
    assert_eq!(jumper.jump_count, 3);
}

#[test]
fn budget_holds_while_grounded_but_moving_vertically() {
    let mut jumper = Jumper { jump_count: 1, max_jump_count: 3, ..Jumper::default() };
    set_jumps(&mut jumper, &Velocity { x: 0, y: 20 }, &GroundDetection { on_ground: true });
    assert_eq!(jumper.jump_count, 1);
}

#[test]
fn walking_off_a_ledge_spends_one_charge() {
    let mut jumper = Jumper { jump_count: 2, max_jump_count: 2, ..Jumper::default() };
    set_jumps(&mut jumper, &Velocity { x: 0, y: -5 }, &GroundDetection { on_ground: false });
    assert_eq!(jumper.jump_count, 1);

    // Only the untouched budget is charged; it is not drained further.
    set_jumps(&mut jumper, &Velocity { x: 0, y: -5 }, &GroundDetection { on_ground: false });
    assert_eq!(jumper.jump_count, 1);
}

#[test]
fn zero_max_budget_never_underflows() {
    let mut jumper = Jumper { jump_count: 0, max_jump_count: 0, ..Jumper::default() };
    set_jumps(&mut jumper, &Velocity { x: 0, y: -5 }, &GroundDetection { on_ground: false });
    assert_eq!(jumper.jump_count, 0);
}

#[test]
fn hugging_a_wall_while_airborne_starts_the_slide() {
    let mut wall_jumper = WallJumper::default();
    let mut facing = FacingDirection(Direction::Left);
    let mut jumper = Jumper::default();
    let mut vel = Velocity { x: 0, y: -50 };
    let hug = InputState { pressed_left: true, ..no_input() };
    let walls = WallDetection { on_wall_left: true, on_wall_right: false };

    wall_slide_and_jump(
        &mut wall_jumper,
        &mut facing,
        &mut jumper,
        &GroundDetection { on_ground: false },
        &walls,
        &mut vel,
        &hug,
        100,
    );
    assert!(matches!(wall_jumper.wall_jump_state, WallJumpState::WallSliding));
}

#[test]
fn sliding_clamps_the_fall_speed() {
    let mut wall_jumper = WallJumper {
        wall_jump_state: WallJumpState::WallSliding,
        ..WallJumper::default()
    };
    let mut facing = FacingDirection(Direction::Left);
    let mut jumper = Jumper::default();
    let mut vel = Velocity { x: 0, y: -50 };
    let hug = InputState { pressed_left: true, ..no_input() };
    let walls = WallDetection { on_wall_left: true, on_wall_right: false };

    wall_slide_and_jump(
        &mut wall_jumper,
        &mut facing,
        &mut jumper,
        &GroundDetection { on_ground: false },
        &walls,
        &mut vel,
        &hug,
        100,
    );
    // Fall speed is clamped to the wall-slide speed, and the slide goes on.
    assert_eq!(vel.y, -10);
    assert!(matches!(wall_jumper.wall_jump_state, WallJumpState::WallSliding));
}

#[test]
fn wall_jump_flips_facing_and_drives_away_from_wall() {
    // Hugging the left wall, airborne, facing the wall. A jump press enters
    // the wall-jump and aims it away from the wall; the next step flips the
    // facing, resets the jump budget to zero and applies the impulse.
    let mut wall_jumper = WallJumper {
        wall_jump_state: WallJumpState::WallSliding,
        ..WallJumper::default()
    };
    let mut facing = FacingDirection(Direction::Left);
    let mut jumper = Jumper::default();
    let mut vel = Velocity { x: 0, y: -50 };
    let walls = WallDetection { on_wall_left: true, on_wall_right: false };
    let airborne = GroundDetection { on_ground: false };

    let press = InputState { just_pressed_jump: true, pressed_left: true, ..no_input() };
    wall_slide_and_jump(
        &mut wall_jumper,
        &mut facing,
        &mut jumper,
        &airborne,
        &walls,
        &mut vel,
        &press,
        1000,
    );
    assert!(matches!(wall_jumper.wall_jump_state, WallJumpState::WallJumping(_)));
    assert_eq!(wall_jumper.wall_jump_direction, Direction::Right);
    // The slide clamp ran before the transition.
    assert_eq!(vel.y, -10);

    wall_slide_and_jump(
        &mut wall_jumper,
        &mut facing,
        &mut jumper,
        &airborne,
        &no_walls(),
        &mut vel,
        &no_input(),
        1000,
    );
    assert_eq!(facing, FacingDirection(Direction::Right));
    assert_eq!(jumper.jump_count, 0);
    // Horizontal escape velocity: +6000 over a full one-second step;
    // vertical boost: (22500 * 1.25) + 10 falling speed = 28135.
    assert_eq!(vel.x, 6000);
    assert_eq!(vel.y, 28135);
}

#[test]
fn losing_the_hug_grants_a_grace_window() {
    let mut wall_jumper = WallJumper {
        wall_jump_state: WallJumpState::WallSliding,
        ..WallJumper::default()
    };
    let mut facing = FacingDirection(Direction::Left);
    let mut jumper = Jumper::default();
    let mut vel = Velocity { x: 0, y: -5 };
    let walls = WallDetection { on_wall_left: true, on_wall_right: false };
    let airborne = GroundDetection { on_ground: false };

    // Still touching the wall but no longer holding toward it.
    wall_slide_and_jump(
        &mut wall_jumper,
        &mut facing,
        &mut jumper,
        &airborne,
        &walls,
        &mut vel,
        &no_input(),
        100,
    );
    assert!(matches!(wall_jumper.wall_jump_state, WallJumpState::WallSlideCoyote(_)));

    // A jump press inside the grace window still wall-jumps.
    let press = InputState { just_pressed_jump: true, ..no_input() };
    wall_slide_and_jump(
        &mut wall_jumper,
        &mut facing,
        &mut jumper,
        &airborne,
        &walls,
        &mut vel,
        &press,
        100,
    );
    assert!(matches!(wall_jumper.wall_jump_state, WallJumpState::WallJumping(_)));
}

#[test]
fn grace_window_expires_back_to_not_on_wall() {
    let mut wall_jumper = WallJumper {
        wall_jump_state: WallJumpState::WallSliding,
        ..WallJumper::default()
    };
    let mut facing = FacingDirection(Direction::Left);
    let mut jumper = Jumper::default();
    let mut vel = Velocity { x: 0, y: -5 };
    let walls = WallDetection { on_wall_left: true, on_wall_right: false };
    let airborne = GroundDetection { on_ground: false };

    wall_slide_and_jump(
        &mut wall_jumper,
        &mut facing,
        &mut jumper,
        &airborne,
        &walls,
        &mut vel,
        &no_input(),
        100,
    );
    assert!(matches!(wall_jumper.wall_jump_state, WallJumpState::WallSlideCoyote(_)));

    // The 200 ms window runs out, and the step after that observes it.
    for _ in 0..2 {
        wall_slide_and_jump(
            &mut wall_jumper,
            &mut facing,
            &mut jumper,
            &airborne,
            &no_walls(),
            &mut vel,
            &no_input(),
            100,
        );
    }
    wall_slide_and_jump(
        &mut wall_jumper,
        &mut facing,
        &mut jumper,
        &airborne,
        &no_walls(),
        &mut vel,
        &no_input(),
        100,
    );
    assert!(matches!(wall_jumper.wall_jump_state, WallJumpState::NotOnWall));
}

#[test]
fn re_hugging_during_grace_resumes_the_slide() {
    let mut wall_jumper = WallJumper {
        wall_jump_state: WallJumpState::WallSlideCoyote(
            platformer_core::timer::Timer::from_ms(200, platformer_core::timer::TimerMode::Once),
        ),
        ..WallJumper::default()
    };
    let mut facing = FacingDirection(Direction::Left);
    let mut jumper = Jumper::default();
    let mut vel = Velocity { x: 0, y: -5 };
    let walls = WallDetection { on_wall_left: true, on_wall_right: false };
    let hug = InputState { pressed_left: true, ..no_input() };

    wall_slide_and_jump(
        &mut wall_jumper,
        &mut facing,
        &mut jumper,
        &GroundDetection { on_ground: false },
        &walls,
        &mut vel,
        &hug,
        100,
    );
    assert!(matches!(wall_jumper.wall_jump_state, WallJumpState::WallSliding));
}

#[test]
fn landing_ends_the_wall_jump() {
    let mut wall_jumper = WallJumper {
        wall_jump_state: WallJumpState::WallJumping(
            platformer_core::timer::Timer::from_ms(500, platformer_core::timer::TimerMode::Once),
        ),
        wall_jump_direction: Direction::Right,
        ..WallJumper::default()
    };
    // Facing already matches the jump direction: no flip, no boost.
    let mut facing = FacingDirection(Direction::Right);
    let mut jumper = Jumper { jump_count: 0, ..Jumper::default() };
    let mut vel = Velocity { x: 0, y: 0 };

    wall_slide_and_jump(
        &mut wall_jumper,
        &mut facing,
        &mut jumper,
        &GroundDetection { on_ground: true },
        &no_walls(),
        &mut vel,
        &no_input(),
        100,
    );
    assert!(matches!(wall_jumper.wall_jump_state, WallJumpState::NotOnWall));
    // The escape velocity was still applied on the way out.
    assert_eq!(vel.x, 600);
}
