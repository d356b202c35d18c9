use vstd::prelude::*;
use crate::components::movement::{
    Dasher, DashState, Direction, FacingDirection, Jumper, MovementBundle, Runner, Speed,
    WallJumper, WallJumpState, MAX_JUMP_BASE, MAX_MULT_PCT, MAX_SCALED_SPEED, MAX_STEP_MS,
    MAX_STEP_VELOCITY, MAX_VELOCITY,
};
use crate::components::{GroundDetection, InputState, Velocity, WallDetection};

verus! {

/// Horizontal speed applied away from the wall for the whole wall-jump.
pub const WALL_JUMP_HORIZONTAL_SPEED: i64 = 6000;

/// A per-second speed scaled down to this step's share: multiplied by the
/// step length in milliseconds and divided by 1000, rounding toward zero.
pub open spec fn spec_scale_by_step(v: int, dt_ms: int) -> int {
    if v >= 0 {
        v * dt_ms / 1000
    } else {
        -((-v) * dt_ms / 1000)
    }
}

fn scale_by_step(v: i64, dt_ms: u64) -> (r: i64)
    requires
        -MAX_SCALED_SPEED <= v <= MAX_SCALED_SPEED,
        dt_ms <= MAX_STEP_MS,
    ensures
        r == spec_scale_by_step(v as int, dt_ms as int),
        -MAX_SCALED_SPEED <= r <= MAX_SCALED_SPEED,
{
    if v >= 0 {
        let vu: u64 = v as u64;
        proof {
            assert((vu as int) * (dt_ms as int) <= 2_000_000_000_000_000_000int)
                by (nonlinear_arith)
                requires
                    0 <= vu <= 2_000_000_000_000_000,
                    0 <= dt_ms <= 1_000,
            ;
            vstd::arithmetic::div_mod::lemma_div_is_ordered(
                (vu as int) * (dt_ms as int),
                2_000_000_000_000_000_000int,
                1000int,
            );
            vstd::arithmetic::div_mod::lemma_div_pos_is_pos((vu as int) * (dt_ms as int), 1000int);
        }
        (vu * dt_ms / 1000) as i64
    } else {
        let vu: u64 = (-v) as u64;
        proof {
            assert((vu as int) * (dt_ms as int) <= 2_000_000_000_000_000_000int)
                by (nonlinear_arith)
                requires
                    0 <= vu <= 2_000_000_000_000_000,
                    0 <= dt_ms <= 1_000,
            ;
            vstd::arithmetic::div_mod::lemma_div_is_ordered(
                (vu as int) * (dt_ms as int),
                2_000_000_000_000_000_000int,
                1000int,
            );
            vstd::arithmetic::div_mod::lemma_div_pos_is_pos((vu as int) * (dt_ms as int), 1000int);
        }
        -((vu * dt_ms / 1000) as i64)
    }
}

/// The scaled share of a speed never exceeds the speed's own magnitude, the
/// step being at most one second.
proof fn lemma_scale_by_step_bound(v: int, dt_ms: int)
    requires
        0 <= dt_ms <= 1000,
    ensures
        v >= 0 ==> 0 <= spec_scale_by_step(v, dt_ms) <= v,
        v < 0 ==> v <= spec_scale_by_step(v, dt_ms) <= 0,
{
    if v >= 0 {
        assert(v * dt_ms <= v * 1000) by (nonlinear_arith)
            requires
                0 <= v,
                0 <= dt_ms <= 1000,
        ;
        vstd::arithmetic::div_mod::lemma_div_is_ordered(v * dt_ms, v * 1000, 1000);
        vstd::arithmetic::div_mod::lemma_div_multiples_vanish(v, 1000);
        vstd::arithmetic::div_mod::lemma_div_pos_is_pos(v * dt_ms, 1000);
    } else {
        assert((-v) * dt_ms <= (-v) * 1000) by (nonlinear_arith)
            requires
                v < 0,
                0 <= dt_ms <= 1000,
        ;
        vstd::arithmetic::div_mod::lemma_div_is_ordered((-v) * dt_ms, (-v) * 1000, 1000);
        vstd::arithmetic::div_mod::lemma_div_multiples_vanish(-v, 1000);
        vstd::arithmetic::div_mod::lemma_div_pos_is_pos((-v) * dt_ms, 1000);
    }
}

/// A jump impulse adds at most the base jump speed to the velocity's
/// magnitude.
proof fn lemma_jump_speed_bound(j: Jumper, v: int, mult_pct: int)
    requires
        j.wf(),
        0 <= mult_pct <= MAX_MULT_PCT,
    ensures
        0 <= j.spec_jump_speed(v, mult_pct) <= vstd::math::abs(v) + MAX_JUMP_BASE,
{
    let h2 = 2 * j.jump_height;
    let t = j.time_to_jump_apex as int;
    vstd::arithmetic::div_mod::lemma_div_pos_is_pos(h2, t);
    vstd::arithmetic::div_mod::lemma_div_nonincreasing(h2, t);
    assert((h2 / t) * mult_pct <= 20_000_000_000_000int) by (nonlinear_arith)
        requires
            0 <= h2 / t <= 2_000_000_000,
            0 <= mult_pct <= 10_000,
    ;
    assert(0 <= (h2 / t) * mult_pct) by (nonlinear_arith)
        requires
            0 <= h2 / t,
            0 <= mult_pct,
    ;
    vstd::arithmetic::div_mod::lemma_div_is_ordered(
        (h2 / t) * mult_pct,
        20_000_000_000_000int,
        100int,
    );
    vstd::arithmetic::div_mod::lemma_div_pos_is_pos((h2 / t) * mult_pct, 100int);
}

/// Directional intent: right minus left, in `{-1, 0, 1}`, suppressed to zero
/// while dashing or wall-jumping; holding both directions means stopping.
pub open spec fn spec_intent(input: InputState, dasher: Dasher, wall_jumper: WallJumper) -> int {
    if dasher.spec_is_dashing() || wall_jumper.spec_is_wall_jumping() {
        0
    } else {
        (if input.pressed_right { 1int } else { 0int })
            - (if input.pressed_left { 1int } else { 0int })
    }
}

/// The sign used to compare intent against the current speed; zero counts as
/// positive.
pub open spec fn spec_signum(x: int) -> int {
    if x >= 0 {
        1
    } else {
        -1
    }
}

/// The runner with its air profile's cap synced to whichever ground cap
/// matches the sprint key, so airborne speed mirrors the ground choice.
pub open spec fn spec_synced_runner(runner: Runner, input: InputState, on_ground: bool) -> Runner {
    if !on_ground {
        Runner {
            air_speed: Speed {
                max: if input.pressed_sprint {
                    runner.sprint_speed.max
                } else {
                    runner.run_speed.max
                },
                ..runner.air_speed
            },
            ..runner
        }
    } else {
        runner
    }
}

/// The profile steering this step: air when airborne, else sprint or run by
/// the sprint key. Meant to be read off the synced runner.
pub open spec fn spec_active_profile(runner: Runner, input: InputState, on_ground: bool) -> Speed {
    if !on_ground {
        runner.air_speed
    } else if input.pressed_sprint {
        runner.sprint_speed
    } else {
        runner.run_speed
    }
}

/// The rate applied this step: deceleration when stopping, the turn rate
/// when intent opposes the current speed's sign, else acceleration.
pub open spec fn spec_speed_change(profile: Speed, intent: int, current: int) -> int {
    if intent == 0 {
        profile.decel as int
    } else if spec_signum(intent) != spec_signum(current) {
        profile.turn as int
    } else {
        profile.accel as int
    }
}

/// The new current speed: with intent, accelerate and clamp into
/// `[-max, max]`; without intent, move toward zero by the deceleration rate,
/// never crossing zero.
pub open spec fn spec_new_speed(profile: Speed, intent: int, current: int) -> int {
    let change = spec_speed_change(profile, intent, current);
    if intent != 0 {
        let moved = current + intent * change;
        if moved > profile.max {
            profile.max as int
        } else if moved < -profile.max {
            -(profile.max as int)
        } else {
            moved
        }
    } else {
        if current > 0 {
            if current - change < 0 {
                0
            } else {
                current - change
            }
        } else if current < 0 {
            if current + change > 0 {
                0
            } else {
                current + change
            }
        } else {
            0
        }
    }
}

/// Facing follows the most recent nonzero intent.
pub open spec fn spec_new_facing(facing: FacingDirection, intent: int) -> FacingDirection {
    if intent == 1 {
        FacingDirection(Direction::Right)
    } else if intent == -1 {
        FacingDirection(Direction::Left)
    } else {
        facing
    }
}

/// The whole horizontal-movement step: sync the air cap, pick the profile,
/// update speed and facing from intent, and write the scaled horizontal
/// velocity.
pub open spec fn spec_horizontal_movement(
    runner: Runner,
    facing: FacingDirection,
    wall_jumper: WallJumper,
    dasher: Dasher,
    on_ground: bool,
    vel: Velocity,
    input: InputState,
    dt_ms: u64,
) -> (Runner, FacingDirection, Velocity) {
    let synced = spec_synced_runner(runner, input, on_ground);
    let profile = spec_active_profile(synced, input, on_ground);
    let intent = spec_intent(input, dasher, wall_jumper);
    let new_speed = spec_new_speed(profile, intent, runner.current_speed as int);
    (
        Runner { current_speed: new_speed as i64, ..synced },
        spec_new_facing(facing, intent),
        Velocity { x: spec_scale_by_step(new_speed, dt_ms as int) as i64, ..vel },
    )
}

/// Compute this step's horizontal velocity from directional input, the
/// detection flags and the active speed profile; dashing and wall-jumping
/// suppress input. Flips facing toward any applied intent.
pub fn horizontal_movement(
    input: &InputState,
    runner: &mut Runner,
    facing_direction: &mut FacingDirection,
    wall_jumper: &WallJumper,
    ground_detection: &GroundDetection,
    dasher: &Dasher,
    velocity: &mut Velocity,
    dt_ms: u64,
)
    requires
        old(runner).wf(),
        dt_ms <= MAX_STEP_MS,
    ensures
        ({
            let (r2, f2, v2) = spec_horizontal_movement(
                *old(runner),
                *old(facing_direction),
                *wall_jumper,
                *dasher,
                ground_detection.on_ground,
                *old(velocity),
                *input,
                dt_ms,
            );
            *final(runner) == r2 && *final(facing_direction) == f2 && *final(velocity) == v2
        }),
        final(runner).wf(),
{
    let suppressed = dasher.is_dashing() || wall_jumper.is_wall_jumping();
    let mut direction: i64 = 0;
    if !suppressed {
        if input.pressed_right {
            direction = direction + 1;
        }
        if input.pressed_left {
            direction = direction - 1;
        }
    }

    if direction == 1 {
        facing_direction.0 = Direction::Right;
    } else if direction == -1 {
        facing_direction.0 = Direction::Left;
    }

    let horizontal_speed: Speed;
    if !ground_detection.on_ground {
        if input.pressed_sprint {
            runner.air_speed.max = runner.sprint_speed.max;
        } else {
            runner.air_speed.max = runner.run_speed.max;
        }
        horizontal_speed = runner.air_speed;
    } else if input.pressed_sprint {
        horizontal_speed = runner.sprint_speed;
    } else {
        horizontal_speed = runner.run_speed;
    }

    if direction != 0 {
        let speed_change = if (direction >= 0) != (runner.current_speed >= 0) {
            horizontal_speed.turn
        } else {
            horizontal_speed.accel
        };
        let mut moved = runner.current_speed + direction * speed_change;
        if moved > horizontal_speed.max {
            moved = horizontal_speed.max;
        } else if moved < -horizontal_speed.max {
            moved = -horizontal_speed.max;
        }
        runner.current_speed = moved;
    } else {
        let speed_change = horizontal_speed.decel;
        if runner.current_speed > 0 {
            let slowed = runner.current_speed - speed_change;
            runner.current_speed = if slowed < 0 {
                0
            } else {
                slowed
            };
        } else if runner.current_speed < 0 {
            let slowed = runner.current_speed + speed_change;
            runner.current_speed = if slowed > 0 {
                0
            } else {
                slowed
            };
        } else {
            runner.current_speed = 0;
        }
    }

    velocity.x = scale_by_step(runner.current_speed, dt_ms);
}

/// The dash step: arm on a fresh press, override velocity with the facing's
/// dash burst (vertical velocity forced to zero) while dashing, and tick the
/// cooldown until re-armed.
pub open spec fn spec_horizontal_dash(
    dasher: Dasher,
    facing: FacingDirection,
    vel: Velocity,
    input: InputState,
    dt_ms: u64,
) -> (Dasher, Velocity) {
    match dasher.dash_state {
        DashState::ReadyToDash => if input.just_pressed_dash {
            (dasher.spec_transition(0), vel)
        } else {
            (dasher, vel)
        },
        DashState::Dashing(_) => (
            dasher.spec_transition(dt_ms),
            Velocity {
                x: spec_scale_by_step(facing.0.spec_sign() * dasher.dash_power, dt_ms as int)
                    as i64,
                y: 0,
            },
        ),
        DashState::OnCooldown(_) => (dasher.spec_transition(dt_ms), vel),
    }
}

/// Arm, drive or cool down the dash. While the burst is active the whole
/// velocity is overridden: horizontal from facing and dash power, vertical
/// forced to zero.
pub fn horizontal_dash(
    dasher: &mut Dasher,
    facing: &FacingDirection,
    velocity: &mut Velocity,
    input: &InputState,
    dt_ms: u64,
)
    requires
        old(dasher).wf(),
        dt_ms <= MAX_STEP_MS,
    ensures
        ({
            let (d2, v2) = spec_horizontal_dash(
                *old(dasher),
                *facing,
                *old(velocity),
                *input,
                dt_ms,
            );
            *final(dasher) == d2 && *final(velocity) == v2
        }),
        final(dasher).wf(),
{
    let direction: i64 = if facing.0 == Direction::Left {
        -1
    } else {
        1
    };
    match &dasher.dash_state {
        DashState::ReadyToDash => {
            if input.just_pressed_dash {
                dasher.transition(0);
            }
        }
        DashState::Dashing(_) => {
            velocity.x = scale_by_step(direction * dasher.dash_power, dt_ms);
            velocity.y = 0;
            dasher.transition(dt_ms);
        }
        DashState::OnCooldown(_) => {
            dasher.transition(dt_ms);
        }
    }
}

/// The gravity multiplier in percent: zero while dashing, the heavier
/// falling multiplier while the vertical velocity is negative, else one.
pub open spec fn spec_gravity_mult_pct(dasher: Dasher, jumper: Jumper, vel: Velocity) -> int {
    if dasher.spec_is_dashing() {
        0
    } else if vel.y < 0 {
        jumper.down_grav_mult_pct as int
    } else {
        100
    }
}

/// The gravity scale in thousandths: the apex-derived ideal gravity
/// `-2 * height / apex_time^2` divided by the engine's own vertical gravity,
/// times the multiplier. Zero when the engine reports no gravity at all.
pub open spec fn spec_gravity_scale_milli(
    dasher: Dasher,
    jumper: Jumper,
    vel: Velocity,
    engine_gravity_y: i64,
) -> int {
    if engine_gravity_y == 0 {
        0
    } else {
        let mult = spec_gravity_mult_pct(dasher, jumper, vel);
        let g_abs = if engine_gravity_y < 0 {
            -(engine_gravity_y as int)
        } else {
            engine_gravity_y as int
        };
        let magnitude = 20 * jumper.jump_height * mult
            / ((jumper.time_to_jump_apex as int) * (jumper.time_to_jump_apex as int)) / g_abs;
        if engine_gravity_y < 0 {
            magnitude
        } else {
            -magnitude
        }
    }
}

/// Derive this step's gravity scale, recomputed every step because velocity
/// and dash state change continuously.
pub fn set_player_gravity(
    dasher: &Dasher,
    jumper: &Jumper,
    velocity: &Velocity,
    engine_gravity_y: i64,
) -> (scale_milli: i64)
    requires
        jumper.wf(),
        -MAX_VELOCITY <= engine_gravity_y <= MAX_VELOCITY,
    ensures
        scale_milli == spec_gravity_scale_milli(*dasher, *jumper, *velocity, engine_gravity_y),
{
    if engine_gravity_y == 0 {
        return 0;
    }
    let mult: u64 = if dasher.is_dashing() {
        0
    } else if velocity.y < 0 {
        jumper.down_grav_mult_pct as u64
    } else {
        100
    };
    let h: u64 = jumper.jump_height as u64;
    let t: u64 = jumper.time_to_jump_apex as u64;
    let g_abs: u64 = if engine_gravity_y < 0 {
        (-engine_gravity_y) as u64
    } else {
        engine_gravity_y as u64
    };
    proof {
        assert((20 * h) as int * (mult as int) <= 200_000_000_000_000int) by (nonlinear_arith)
            requires
                0 <= h <= 1_000_000_000,
                0 <= mult <= 10_000,
        ;
        assert((t as int) * (t as int) <= 1_000_000_000_000int && 1 <= (t as int) * (t as int))
            by (nonlinear_arith)
            requires
                1 <= t <= 1_000_000,
        ;
        vstd::arithmetic::div_mod::lemma_div_nonincreasing(
            (20 * h) as int * (mult as int),
            (t as int) * (t as int),
        );
        vstd::arithmetic::div_mod::lemma_div_pos_is_pos(
            (20 * h) as int * (mult as int),
            (t as int) * (t as int),
        );
        vstd::arithmetic::div_mod::lemma_div_nonincreasing(
            ((20 * h) as int * (mult as int)) / ((t as int) * (t as int)),
            g_abs as int,
        );
        vstd::arithmetic::div_mod::lemma_div_pos_is_pos(
            ((20 * h) as int * (mult as int)) / ((t as int) * (t as int)),
            g_abs as int,
        );
    }
    let magnitude: u64 = 20 * h * mult / (t * t) / g_abs;
    let signed: i64 = magnitude as i64;
    if engine_gravity_y < 0 {
        signed
    } else {
        -signed
    }
}

/// The jump step: a fresh jump press launches when grounded or when budget
/// remains; the budget is spent down to zero and the vertical velocity is
/// replaced by the blended jump impulse.
pub open spec fn spec_vertical_jump(
    jumper: Jumper,
    on_ground: bool,
    vel: Velocity,
    input: InputState,
    dt_ms: u64,
) -> (Jumper, Velocity) {
    if input.just_pressed_jump && (on_ground || jumper.jump_count > 0) {
        (
            Jumper {
                jump_count: if jumper.jump_count > 0 {
                    (jumper.jump_count - 1) as i32
                } else {
                    0
                },
                ..jumper
            },
            Velocity {
                y: spec_scale_by_step(jumper.spec_jump_speed(vel.y as int, 100), dt_ms as int)
                    as i64,
                ..vel
            },
        )
    } else {
        (jumper, vel)
    }
}

/// Launch a jump on a fresh press when grounded or when the jump budget
/// allows, spending one charge (never below zero) and replacing the vertical
/// velocity with the blended impulse.
pub fn vertical_jump(
    jumper: &mut Jumper,
    ground_detection: &GroundDetection,
    velocity: &mut Velocity,
    input: &InputState,
    dt_ms: u64,
)
    requires
        old(jumper).wf(),
        dt_ms <= MAX_STEP_MS,
        -MAX_STEP_VELOCITY <= old(velocity).y <= MAX_STEP_VELOCITY,
    ensures
        ({
            let (j2, v2) = spec_vertical_jump(
                *old(jumper),
                ground_detection.on_ground,
                *old(velocity),
                *input,
                dt_ms,
            );
            *final(jumper) == j2 && *final(velocity) == v2
        }),
        final(jumper).wf(),
        -MAX_STEP_VELOCITY - MAX_JUMP_BASE <= final(velocity).y
            <= MAX_STEP_VELOCITY + MAX_JUMP_BASE,
        final(velocity).x == old(velocity).x,
{
    if input.just_pressed_jump && (ground_detection.on_ground || jumper.jump_count > 0) {
        if jumper.jump_count > 0 {
            jumper.jump_count = jumper.jump_count - 1;
        }
        let speed = jumper.get_jump_speed(velocity.y, 100);
        proof {
            lemma_jump_speed_bound(*jumper, old(velocity).y as int, 100);
            lemma_scale_by_step_bound(
                old(jumper).spec_jump_speed(old(velocity).y as int, 100),
                dt_ms as int,
            );
        }
        velocity.y = scale_by_step(speed, dt_ms);
    }
}

/// The budget-refill step: grounded at rest refills the budget to the
/// maximum; leaving the ground with the budget untouched spends one charge,
/// so walking off a ledge still consumes a jump.
pub open spec fn spec_set_jumps(jumper: Jumper, vel: Velocity, on_ground: bool) -> Jumper {
    if on_ground && vel.y == 0 {
        Jumper { jump_count: jumper.max_jump_count, ..jumper }
    } else if !on_ground && jumper.jump_count == jumper.max_jump_count && jumper.jump_count > 0 {
        Jumper { jump_count: (jumper.jump_count - 1) as i32, ..jumper }
    } else {
        jumper
    }
}

/// Refill the jump budget when grounded at rest, and spend one charge the
/// moment the character is airborne without having jumped.
pub fn set_jumps(jumper: &mut Jumper, velocity: &Velocity, ground_detection: &GroundDetection)
    requires
        old(jumper).wf(),
    ensures
        *final(jumper) == spec_set_jumps(*old(jumper), *velocity, ground_detection.on_ground),
        final(jumper).wf(),
{
    if ground_detection.on_ground && velocity.y == 0 {
        jumper.jump_count = jumper.max_jump_count;
    } else if !ground_detection.on_ground
        && jumper.jump_count == jumper.max_jump_count
        && jumper.jump_count > 0 {
        jumper.jump_count = jumper.jump_count - 1;
    }
}

/// The wall step, by current phase: watch for a hug while off the wall;
/// clamp the fall and aim the escape direction while sliding; keep the aim
/// fresh through the grace window; and while wall-jumping flip the facing
/// once, zero the jump budget, boost upward with an elevated multiplier, and
/// hold the fixed horizontal escape velocity.
pub open spec fn spec_wall_slide_and_jump(
    wall_jumper: WallJumper,
    facing: FacingDirection,
    jumper: Jumper,
    on_ground: bool,
    walls: WallDetection,
    vel: Velocity,
    input: InputState,
    dt_ms: u64,
) -> (WallJumper, FacingDirection, Jumper, Velocity) {
    let pj = input.just_pressed_jump;
    let pl = input.pressed_left;
    let pr = input.pressed_right;
    let wl = walls.on_wall_left;
    let wr = walls.on_wall_right;
    match wall_jumper.wall_jump_state {
        WallJumpState::NotOnWall => (
            wall_jumper.spec_transition(0, pj, pl, pr, on_ground, wl, wr),
            facing,
            jumper,
            vel,
        ),
        WallJumpState::WallSliding => {
            let vel2 = if vel.y < -wall_jumper.wall_slide_speed {
                Velocity { y: (-(wall_jumper.wall_slide_speed as int)) as i64, ..vel }
            } else {
                vel
            };
            let w2 = wall_jumper.spec_transition(0, pj, pl, pr, on_ground, wl, wr);
            let w3 = if w2.spec_is_wall_jumping() {
                WallJumper { wall_jump_direction: facing.0.spec_opposite(), ..w2 }
            } else {
                w2
            };
            (w3, facing, jumper, vel2)
        },
        WallJumpState::WallSlideCoyote(_) => {
            let w2 = wall_jumper.spec_transition(dt_ms, pj, pl, pr, on_ground, wl, wr);
            let w3 = if w2.spec_is_wall_jumping() {
                WallJumper { wall_jump_direction: facing.0.spec_opposite(), ..w2 }
            } else {
                w2
            };
            (w3, facing, jumper, vel)
        },
        WallJumpState::WallJumping(_) => {
            let flip = facing.0 != wall_jumper.wall_jump_direction;
            let facing2 = if flip {
                FacingDirection(facing.0.spec_opposite())
            } else {
                facing
            };
            let jumper2 = if flip {
                Jumper { jump_count: 0, ..jumper }
            } else {
                jumper
            };
            let vel2 = if flip {
                Velocity {
                    y: spec_scale_by_step(jumper.spec_jump_speed(vel.y as int, 125), dt_ms as int)
                        as i64,
                    ..vel
                }
            } else {
                vel
            };
            let vel3 = Velocity {
                x: spec_scale_by_step(
                    wall_jumper.wall_jump_direction.spec_sign() * WALL_JUMP_HORIZONTAL_SPEED,
                    dt_ms as int,
                ) as i64,
                ..vel2
            };
            (
                wall_jumper.spec_transition(dt_ms, pj, pl, pr, on_ground, wl, wr),
                facing2,
                jumper2,
                vel3,
            )
        },
    }
}

/// Run the wall-slide / wall-jump machinery for this step: transition the
/// state machine, clamp the slide, aim and drive the wall-jump impulse, and
/// zero the jump budget on the jump's first step.
pub fn wall_slide_and_jump(
    wall_jumper: &mut WallJumper,
    facing: &mut FacingDirection,
    jumper: &mut Jumper,
    ground_detection: &GroundDetection,
    wall_detection: &WallDetection,
    velocity: &mut Velocity,
    input: &InputState,
    dt_ms: u64,
)
    requires
        old(wall_jumper).wf(),
        old(jumper).wf(),
        dt_ms <= MAX_STEP_MS,
        -MAX_STEP_VELOCITY - MAX_JUMP_BASE <= old(velocity).y
            <= MAX_STEP_VELOCITY + MAX_JUMP_BASE,
    ensures
        ({
            let (w2, f2, j2, v2) = spec_wall_slide_and_jump(
                *old(wall_jumper),
                *old(facing),
                *old(jumper),
                ground_detection.on_ground,
                *wall_detection,
                *old(velocity),
                *input,
                dt_ms,
            );
            *final(wall_jumper) == w2 && *final(facing) == f2 && *final(jumper) == j2
                && *final(velocity) == v2
        }),
        final(wall_jumper).wf(),
        final(jumper).wf(),
{
    let input_states = (input.just_pressed_jump, input.pressed_left, input.pressed_right);
    let detection_states = (
        ground_detection.on_ground,
        wall_detection.on_wall_left,
        wall_detection.on_wall_right,
    );

    match &wall_jumper.wall_jump_state {
        WallJumpState::NotOnWall => {
            wall_jumper.transition(0, input_states, detection_states);
        }
        WallJumpState::WallSliding => {
            if velocity.y < -wall_jumper.wall_slide_speed {
                velocity.y = -wall_jumper.wall_slide_speed;
            }
            wall_jumper.transition(0, input_states, detection_states);
            if wall_jumper.is_wall_jumping() {
                wall_jumper.wall_jump_direction = facing.0.get_opposite();
            }
        }
        WallJumpState::WallSlideCoyote(_) => {
            wall_jumper.transition(dt_ms, input_states, detection_states);
            if wall_jumper.is_wall_jumping() {
                wall_jumper.wall_jump_direction = facing.0.get_opposite();
            }
        }
        WallJumpState::WallJumping(_) => {
            if facing.0 != wall_jumper.wall_jump_direction {
                facing.0 = facing.0.get_opposite();
                jumper.jump_count = 0;

                let wall_jump_speed = jumper.get_jump_speed(velocity.y, 125);
                velocity.y = scale_by_step(wall_jump_speed, dt_ms);
            }

            let direction: i64 = if wall_jumper.wall_jump_direction == Direction::Right {
                1
            } else {
                -1
            };
            velocity.x = scale_by_step(direction * WALL_JUMP_HORIZONTAL_SPEED, dt_ms);

            wall_jumper.transition(dt_ms, input_states, detection_states);
        }
    }
}

/// One whole simulation step in the fixed order: horizontal movement, dash,
/// gravity, jump, wall machinery, then the jump-budget refill check against
/// the latest ground flag. Returns the gravity scale in thousandths.
pub open spec fn spec_simulation_step(
    bundle: MovementBundle,
    ground: GroundDetection,
    walls: WallDetection,
    input: InputState,
    vel: Velocity,
    dt_ms: u64,
    engine_gravity_y: i64,
) -> (MovementBundle, Velocity, int) {
    let (r2, f2, v2) = spec_horizontal_movement(
        bundle.runner,
        bundle.facing,
        bundle.wall_jumper,
        bundle.dasher,
        ground.on_ground,
        vel,
        input,
        dt_ms,
    );
    let (d2, v3) = spec_horizontal_dash(bundle.dasher, f2, v2, input, dt_ms);
    let scale = spec_gravity_scale_milli(d2, bundle.jumper, v3, engine_gravity_y);
    let (j2, v4) = spec_vertical_jump(bundle.jumper, ground.on_ground, v3, input, dt_ms);
    let (w2, f3, j3, v5) = spec_wall_slide_and_jump(
        bundle.wall_jumper,
        f2,
        j2,
        ground.on_ground,
        walls,
        v4,
        input,
        dt_ms,
    );
    let j4 = spec_set_jumps(j3, v5, ground.on_ground);
    (
        MovementBundle { facing: f3, runner: r2, dasher: d2, jumper: j4, wall_jumper: w2 },
        v5,
        scale,
    )
}

/// Advance the character by one simulation step, in the fixed order the
/// systems run: horizontal movement, dash, gravity, jump, wall machinery,
/// jump-budget refill. Reads and rewrites the engine-owned velocity and
/// returns the gravity scale to hand back, in thousandths.
pub fn simulation_step(
    bundle: &mut MovementBundle,
    ground_detection: &GroundDetection,
    wall_detection: &WallDetection,
    input: &InputState,
    velocity: &mut Velocity,
    dt_ms: u64,
    engine_gravity_y: i64,
) -> (gravity_scale_milli: i64)
    requires
        old(bundle).wf(),
        dt_ms <= MAX_STEP_MS,
        -MAX_VELOCITY <= old(velocity).y <= MAX_VELOCITY,
        -MAX_VELOCITY <= engine_gravity_y <= MAX_VELOCITY,
    ensures
        ({
            let (b2, v2, scale) = spec_simulation_step(
                *old(bundle),
                *ground_detection,
                *wall_detection,
                *input,
                *old(velocity),
                dt_ms,
                engine_gravity_y,
            );
            *final(bundle) == b2 && *final(velocity) == v2 && gravity_scale_milli == scale
        }),
        final(bundle).wf(),
{
    horizontal_movement(
        input,
        &mut bundle.runner,
        &mut bundle.facing,
        &bundle.wall_jumper,
        ground_detection,
        &bundle.dasher,
        velocity,
        dt_ms,
    );
    horizontal_dash(&mut bundle.dasher, &bundle.facing, velocity, input, dt_ms);
    let gravity_scale_milli = set_player_gravity(
        &bundle.dasher,
        &bundle.jumper,
        velocity,
        engine_gravity_y,
    );
    vertical_jump(&mut bundle.jumper, ground_detection, velocity, input, dt_ms);
    wall_slide_and_jump(
        &mut bundle.wall_jumper,
        &mut bundle.facing,
        &mut bundle.jumper,
        ground_detection,
        wall_detection,
        velocity,
        input,
        dt_ms,
    );
    set_jumps(&mut bundle.jumper, velocity, ground_detection);
    gravity_scale_milli
}


/// Law: over a whole simulation step the jump budget stays inside
/// `[0, max_jump_count]`, whatever the inputs, detection flags and velocity
/// are; stepping from any well-formed state therefore keeps it there over
/// every step sequence.
pub proof fn lemma_jump_budget_stays_in_range(
    bundle: MovementBundle,
    ground: GroundDetection,
    walls: WallDetection,
    input: InputState,
    vel: Velocity,
    dt_ms: u64,
    engine_gravity_y: i64,
)
    requires
        bundle.wf(),
    ensures
        ({
            let (b2, v2, scale) = spec_simulation_step(
                bundle,
                ground,
                walls,
                input,
                vel,
                dt_ms,
                engine_gravity_y,
            );
            0 <= b2.jumper.jump_count <= b2.jumper.max_jump_count
        }),
{
}

/// Law: when the current speed starts within the active profile's cap, the
/// horizontal-movement step keeps its magnitude within that cap: applied
/// intent clamps into `[-max, max]`, and stopping only shrinks the
/// magnitude.
pub proof fn lemma_current_speed_within_profile_max(
    runner: Runner,
    facing: FacingDirection,
    wall_jumper: WallJumper,
    dasher: Dasher,
    on_ground: bool,
    vel: Velocity,
    input: InputState,
    dt_ms: u64,
)
    requires
        runner.wf(),
        ({
            let profile = spec_active_profile(
                spec_synced_runner(runner, input, on_ground),
                input,
                on_ground,
            );
            -profile.max <= runner.current_speed <= profile.max
        }),
    ensures
        ({
            let profile = spec_active_profile(
                spec_synced_runner(runner, input, on_ground),
                input,
                on_ground,
            );
            let (r2, f2, v2) = spec_horizontal_movement(
                runner,
                facing,
                wall_jumper,
                dasher,
                on_ground,
                vel,
                input,
                dt_ms,
            );
            -profile.max <= r2.current_speed <= profile.max
        }),
{
}

/// Law: decelerating toward a stop never overshoots zero; without intent the
/// new speed stays between zero and the old speed, so it cannot change sign
/// in one step.
pub proof fn lemma_deceleration_never_crosses_zero(
    runner: Runner,
    facing: FacingDirection,
    wall_jumper: WallJumper,
    dasher: Dasher,
    on_ground: bool,
    vel: Velocity,
    input: InputState,
    dt_ms: u64,
)
    requires
        runner.wf(),
        spec_intent(input, dasher, wall_jumper) == 0,
    ensures
        ({
            let (r2, f2, v2) = spec_horizontal_movement(
                runner,
                facing,
                wall_jumper,
                dasher,
                on_ground,
                vel,
                input,
                dt_ms,
            );
            &&& runner.current_speed >= 0 ==> 0 <= r2.current_speed <= runner.current_speed
            &&& runner.current_speed <= 0 ==> runner.current_speed <= r2.current_speed <= 0
        }),
{
}

} // verus!\n