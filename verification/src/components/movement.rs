use vstd::prelude::*;
use crate::timer::{Timer, TimerMode};

verus! {

/// Upper bound on tuning magnitudes (speeds, acceleration rates, jump
/// height, dash power), so every intermediate product below fits in 64 bits.
pub const MAX_TUNING: i64 = 1_000_000_000;

/// Upper bound on the time-to-apex tuning value.
pub const MAX_APEX_TIME: i64 = 1_000_000;

/// Upper bound on percentage multipliers (100 = one).
pub const MAX_MULT_PCT: i64 = 10_000;

/// Largest velocity magnitude the movement formulas accept as input.
pub const MAX_VELOCITY: i64 = 1_000_000_000_000_000;

/// Bound on any speed handed to the per-step scaling helper; jump impulses
/// stay under it because a jump adds at most the base jump speed to the
/// magnitude of an in-range velocity.
pub const MAX_SCALED_SPEED: i64 = 2_000_000_000_000_000;

/// Largest base jump speed the tuning bounds allow:
/// `2 * MAX_TUNING / 1 * MAX_MULT_PCT / 100`.
pub const MAX_JUMP_BASE: i64 = 200_000_000_000;

/// Velocity bound each movement phase accepts, leaving room for the jump
/// impulses added earlier in the same step to a velocity that entered the
/// step within `MAX_VELOCITY`.
pub const MAX_STEP_VELOCITY: i64 = 1_500_000_000_000_000;

/// Largest simulation step, in milliseconds, that the movement systems take.
pub const MAX_STEP_MS: u64 = 1_000;

/// Horizontal facing of the character; dashes and wall-jumps are aimed by it.
#[derive(Clone, Copy, PartialEq, Eq, Structural, Debug)]
pub enum Direction {
    Left,
    Right,
}

impl Direction {
    pub open spec fn spec_opposite(&self) -> Direction {
        match *self {
            Direction::Left => Direction::Right,
            Direction::Right => Direction::Left,
        }
    }

    /// The sign of this direction: left is negative, right is positive.
    pub open spec fn spec_sign(&self) -> int {
        match *self {
            Direction::Left => -1,
            Direction::Right => 1,
        }
    }

    pub fn get_opposite(&self) -> (r: Direction)
        ensures
            r == self.spec_opposite(),
    {
        if *self == Direction::Left {
            Direction::Right
        } else {
            Direction::Left
        }
    }
}

/// Current facing, flipped by directional input, dashing aim and wall-jumps.
#[derive(Clone, Copy, PartialEq, Eq, Structural, Debug)]
pub struct FacingDirection(pub Direction);

impl FacingDirection {
    pub open spec fn spec_default() -> Self {
        FacingDirection(Direction::Right)
    }
}

impl Default for FacingDirection {
    fn default() -> (d: Self)
        ensures
            d == FacingDirection::spec_default(),
    {
        FacingDirection(Direction::Right)
    }
}

/// One speed profile: a cap plus the acceleration, deceleration and
/// turn-around rates that move the current speed toward or away from it.
#[derive(Clone, Copy, PartialEq, Eq, Structural, Debug)]
pub struct Speed {
    pub max: i64,
    pub accel: i64,
    pub decel: i64,
    pub turn: i64,
}

impl Speed {
    /// All rates are non-negative and small enough for the step arithmetic.
    pub open spec fn wf(&self) -> bool {
        &&& 0 <= self.max <= MAX_TUNING
        &&& 0 <= self.accel <= MAX_TUNING
        &&& 0 <= self.decel <= MAX_TUNING
        &&& 0 <= self.turn <= MAX_TUNING
    }

    pub fn new(max: i64, accel: i64, decel: i64, turn: i64) -> (s: Self)
        ensures
            s == (Speed { max, accel, decel, turn }),
    {
        Speed { max, accel, decel, turn }
    }
}

/// Horizontal speed model: the current scalar speed plus the ground-run,
/// sprint and air profiles it is steered by.
#[derive(Clone, Copy, PartialEq, Eq, Structural, Debug)]
pub struct Runner {
    pub current_speed: i64,
    pub run_speed: Speed,
    pub sprint_speed: Speed,
    pub air_speed: Speed,
}

impl Runner {
    pub open spec fn wf(&self) -> bool {
        &&& self.run_speed.wf()
        &&& self.sprint_speed.wf()
        &&& self.air_speed.wf()
        &&& -MAX_TUNING <= self.current_speed <= MAX_TUNING
    }

    pub open spec fn spec_default() -> Self {
        Runner {
            current_speed: 0i64,
            run_speed: Speed { max: 10000i64, accel: 1000i64, decel: 1000i64, turn: 1000i64 },
            sprint_speed: Speed { max: 15000i64, accel: 1000i64, decel: 1200i64, turn: 800i64 },
            air_speed: Speed { max: 10000i64, accel: 1000i64, decel: 1000i64, turn: 1000i64 },
        }
    }
}

impl Runner {
    /// Build a runner from injected speed profiles, starting at rest.
    pub fn new(run_speed: Speed, sprint_speed: Speed, air_speed: Speed) -> (r: Self)
        requires
            run_speed.wf(),
            sprint_speed.wf(),
            air_speed.wf(),
        ensures
            r == (Runner { current_speed: 0i64, run_speed, sprint_speed, air_speed }),
            r.wf(),
    {
        Runner { current_speed: 0, run_speed, sprint_speed, air_speed }
    }
}

impl Default for Runner {
    fn default() -> (r: Self)
        ensures
            r == Runner::spec_default(),
            r.wf(),
    {
        Runner {
            current_speed: 0,
            run_speed: Speed::new(10000, 1000, 1000, 1000),
            sprint_speed: Speed::new(15000, 1000, 1200, 800),
            air_speed: Speed::new(10000, 1000, 1000, 1000),
        }
    }
}

/// Dash phases: exactly one dash attempt may be in flight, and the timer in
/// the active phase owns its own elapsed time.
#[derive(Clone, PartialEq, Eq, Structural, Debug)]
pub enum DashState {
    ReadyToDash,
    Dashing(Timer),
    OnCooldown(Timer),
}

/// The dash state machine: ready, bursting, then cooling down before
/// re-arming.
#[derive(Clone, PartialEq, Eq, Structural, Debug)]
pub struct Dasher {
    pub dash_state: DashState,
    pub dash_power: i64,
    pub dash_duration_ms: u64,
    pub dash_cooldown_duration_ms: u64,
}

impl Dasher {
    pub open spec fn wf(&self) -> bool {
        &&& 0 <= self.dash_power <= MAX_TUNING
        &&& match self.dash_state {
            DashState::ReadyToDash => true,
            DashState::Dashing(t) => t.wf(),
            DashState::OnCooldown(t) => t.wf(),
        }
    }

    /// The dash phase after one step: arming starts the burst, a finished
    /// burst timer starts the cooldown, a finished cooldown re-arms, and an
    /// unfinished timer is simply advanced.
    pub open spec fn spec_transition(self, dt_ms: u64) -> Dasher {
        match self.dash_state {
            DashState::ReadyToDash => Dasher {
                dash_state: DashState::Dashing(
                    Timer::spec_fresh(self.dash_duration_ms, TimerMode::Once),
                ),
                ..self
            },
            DashState::Dashing(t) => if t.spec_finished() {
                Dasher {
                    dash_state: DashState::OnCooldown(
                        Timer::spec_fresh(self.dash_cooldown_duration_ms, TimerMode::Once),
                    ),
                    ..self
                }
            } else {
                Dasher { dash_state: DashState::Dashing(t.spec_tick(dt_ms)), ..self }
            },
            DashState::OnCooldown(t) => if t.spec_finished() {
                Dasher { dash_state: DashState::ReadyToDash, ..self }
            } else {
                Dasher { dash_state: DashState::OnCooldown(t.spec_tick(dt_ms)), ..self }
            },
        }
    }

    pub open spec fn spec_is_dashing(&self) -> bool {
        self.dash_state is Dashing
    }

    pub open spec fn spec_default() -> Self {
        Dasher {
            dash_state: DashState::ReadyToDash,
            dash_power: 30000i64,
            dash_duration_ms: 200u64,
            dash_cooldown_duration_ms: 500u64,
        }
    }

    pub fn transition(&mut self, dt_ms: u64)
        requires
            old(self).wf(),
        ensures
            *final(self) == old(self).spec_transition(dt_ms),
            final(self).wf(),
    {
        match &mut self.dash_state {
            DashState::ReadyToDash => {
                self.dash_state =
                    DashState::Dashing(Timer::from_ms(self.dash_duration_ms, TimerMode::Once));
            }
            DashState::Dashing(timer) => {
                if timer.finished() {
                    self.dash_state = DashState::OnCooldown(
                        Timer::from_ms(self.dash_cooldown_duration_ms, TimerMode::Once),
                    );
                } else {
                    timer.tick(dt_ms);
                }
            }
            DashState::OnCooldown(timer) => {
                if timer.finished() {
                    self.dash_state = DashState::ReadyToDash;
                } else {
                    timer.tick(dt_ms);
                }
            }
        }
    }

    /// True exactly in the bursting phase of the dash cycle.
    pub fn is_dashing(&self) -> (r: bool)
        ensures
            r == self.spec_is_dashing(),
    {
        match &self.dash_state {
            DashState::Dashing(_) => true,
            _ => false,
        }
    }
}

impl Default for Dasher {
    fn default() -> (d: Self)
        ensures
            d == Dasher::spec_default(),
            d.wf(),
    {
        Dasher {
            dash_state: DashState::ReadyToDash,
            dash_power: 30000,
            dash_duration_ms: 200,
            dash_cooldown_duration_ms: 500,
        }
    }
}

/// Jump budget plus the apex-time jump formula: the initial velocity that
/// reaches `jump_height` in `time_to_jump_apex` under constant deceleration.
#[derive(Clone, Copy, PartialEq, Eq, Structural, Debug)]
pub struct Jumper {
    pub jump_height: i64,
    pub time_to_jump_apex: i64,
    pub down_grav_mult_pct: i64,
    pub jump_count: i32,
    pub max_jump_count: i32,
}

impl Jumper {
    /// Tunings are in range and the jump budget sits inside
    /// `[0, max_jump_count]`.
    pub open spec fn wf(&self) -> bool {
        &&& 0 <= self.jump_height <= MAX_TUNING
        &&& 1 <= self.time_to_jump_apex <= MAX_APEX_TIME
        &&& 0 <= self.down_grav_mult_pct <= MAX_MULT_PCT
        &&& 0 <= self.jump_count <= self.max_jump_count
    }

    /// The base launch speed `2 * height / time-to-apex`, scaled by a
    /// percentage multiplier.
    pub open spec fn spec_base_jump_speed(&self, base_mult_pct: int) -> int {
        2 * self.jump_height / (self.time_to_jump_apex as int) * base_mult_pct / 100
    }

    /// The launch speed blended with the current vertical velocity: a rising
    /// character gets the base minus its upward speed (floored at zero), a
    /// falling one gets the base plus its downward speed, a resting one the
    /// base itself.
    pub open spec fn spec_jump_speed(&self, current_vel: int, base_mult_pct: int) -> int {
        let base = self.spec_base_jump_speed(base_mult_pct);
        if current_vel > 0 {
            if base - current_vel > 0 {
                base - current_vel
            } else {
                0
            }
        } else if current_vel < 0 {
            base + (-current_vel)
        } else {
            base
        }
    }

    pub open spec fn spec_default() -> Self {
        Jumper {
            jump_height: 225000i64,
            time_to_jump_apex: 20i64,
            down_grav_mult_pct: 150i64,
            jump_count: 1i32,
            max_jump_count: 1i32,
        }
    }

    pub fn get_jump_speed(&self, current_vel: i64, base_mult_pct: i64) -> (r: i64)
        requires
            self.wf(),
            0 <= base_mult_pct <= MAX_MULT_PCT,
            -MAX_STEP_VELOCITY - MAX_JUMP_BASE <= current_vel
                <= MAX_STEP_VELOCITY + MAX_JUMP_BASE,
        ensures
            r == self.spec_jump_speed(current_vel as int, base_mult_pct as int),
            0 <= r <= MAX_SCALED_SPEED,
    {
        let h2: u64 = (2 * self.jump_height) as u64;
        let t: u64 = self.time_to_jump_apex as u64;
        let m: u64 = base_mult_pct as u64;
        let q: u64 = h2 / t;
        proof {
            vstd::arithmetic::div_mod::lemma_div_nonincreasing(h2 as int, t as int);
            assert((q as int) * (m as int) <= 20_000_000_000_000int) by (nonlinear_arith)
                requires
                    0 <= q <= 2_000_000_000,
                    0 <= m <= 10_000,
            ;
            vstd::arithmetic::div_mod::lemma_div_nonincreasing((q as int) * (m as int), 100int);
        }
        let base: i64 = (q * m / 100) as i64;

        if current_vel > 0 {
            let val = base - current_vel;
            let result = if val > 0 { val } else { 0 };
            result
        } else if current_vel < 0 {
            base + (-current_vel)
        } else {
            base
        }
    }
}

impl Jumper {
    /// Build a jumper from injected tuning values, with a full jump budget.
    pub fn new(
        jump_height: i64,
        time_to_jump_apex: i64,
        down_grav_mult_pct: i64,
        max_jump_count: i32,
    ) -> (j: Self)
        requires
            0 <= jump_height <= MAX_TUNING,
            1 <= time_to_jump_apex <= MAX_APEX_TIME,
            0 <= down_grav_mult_pct <= MAX_MULT_PCT,
            0 <= max_jump_count,
        ensures
            j == (Jumper {
                jump_height,
                time_to_jump_apex,
                down_grav_mult_pct,
                jump_count: max_jump_count,
                max_jump_count,
            }),
            j.wf(),
    {
        Jumper {
            jump_height,
            time_to_jump_apex,
            down_grav_mult_pct,
            jump_count: max_jump_count,
            max_jump_count,
        }
    }
}

impl Default for Jumper {
    fn default() -> (j: Self)
        ensures
            j == Jumper::spec_default(),
            j.wf(),
    {
        Jumper {
            jump_height: 225000,
            time_to_jump_apex: 20,
            down_grav_mult_pct: 150,
            jump_count: 1,
            max_jump_count: 1,
        }
    }
}

/// Wall engagement phases: off the wall, sliding down it, a short grace
/// window after leaving it, or riding the timed wall-jump impulse.
#[derive(Clone, PartialEq, Eq, Structural, Debug)]
pub enum WallJumpState {
    NotOnWall,
    WallSliding,
    WallSlideCoyote(Timer),
    WallJumping(Timer),
}

/// The wall-slide / wall-jump state machine: clamps fall speed while
/// sliding, grants a grace window after leaving a wall, and drives a timed
/// impulse away from it.
#[derive(Clone, PartialEq, Eq, Structural, Debug)]
pub struct WallJumper {
    pub wall_jump_state: WallJumpState,
    pub wall_slide_speed: i64,
    pub wall_jump_direction: Direction,
    pub wall_slide_coyote_duration_ms: u64,
    pub wall_jump_duration_ms: u64,
}

impl WallJumper {
    pub open spec fn wf(&self) -> bool {
        &&& 0 <= self.wall_slide_speed <= MAX_TUNING
        &&& match self.wall_jump_state {
            WallJumpState::NotOnWall => true,
            WallJumpState::WallSliding => true,
            WallJumpState::WallSlideCoyote(t) => t.wf(),
            WallJumpState::WallJumping(t) => t.wf(),
        }
    }

    /// The wall state after one step, given the jump/left/right input flags
    /// and the ground/left-wall/right-wall detection flags. "Hugging" a wall
    /// means touching it while holding the direction key toward it.
    pub open spec fn spec_transition(
        self,
        dt_ms: u64,
        pressed_jump: bool,
        pressed_left: bool,
        pressed_right: bool,
        on_ground: bool,
        on_wall_left: bool,
        on_wall_right: bool,
    ) -> WallJumper {
        match self.wall_jump_state {
            WallJumpState::NotOnWall => if !on_ground && ((on_wall_left && pressed_left)
                || (on_wall_right && pressed_right)) {
                WallJumper { wall_jump_state: WallJumpState::WallSliding, ..self }
            } else {
                self
            },
            WallJumpState::WallSliding => if pressed_jump {
                WallJumper {
                    wall_jump_state: WallJumpState::WallJumping(
                        Timer::spec_fresh(self.wall_jump_duration_ms, TimerMode::Once),
                    ),
                    ..self
                }
            } else if (on_wall_left && !pressed_left) || (on_wall_right && !pressed_right) {
                WallJumper {
                    wall_jump_state: WallJumpState::WallSlideCoyote(
                        Timer::spec_fresh(self.wall_slide_coyote_duration_ms, TimerMode::Once),
                    ),
                    ..self
                }
            } else if on_ground {
                WallJumper { wall_jump_state: WallJumpState::NotOnWall, ..self }
            } else {
                self
            },
            WallJumpState::WallSlideCoyote(t) => if t.just_finished_now || on_ground {
                WallJumper { wall_jump_state: WallJumpState::NotOnWall, ..self }
            } else if pressed_jump {
                WallJumper {
                    wall_jump_state: WallJumpState::WallJumping(
                        Timer::spec_fresh(self.wall_jump_duration_ms, TimerMode::Once),
                    ),
                    ..self
                }
            } else if (on_wall_left && pressed_left) || (on_wall_right && pressed_right) {
                WallJumper { wall_jump_state: WallJumpState::WallSliding, ..self }
            } else {
                WallJumper { wall_jump_state: WallJumpState::WallSlideCoyote(t.spec_tick(dt_ms)), ..self }
            },
            WallJumpState::WallJumping(t) => if t.just_finished_now || on_ground {
                WallJumper { wall_jump_state: WallJumpState::NotOnWall, ..self }
            } else {
                WallJumper { wall_jump_state: WallJumpState::WallJumping(t.spec_tick(dt_ms)), ..self }
            },
        }
    }

    pub open spec fn spec_is_wall_jumping(&self) -> bool {
        self.wall_jump_state is WallJumping
    }

    pub open spec fn spec_default() -> Self {
        WallJumper {
            wall_jump_state: WallJumpState::NotOnWall,
            wall_slide_speed: 10i64,
            wall_jump_direction: Direction::Left,
            wall_slide_coyote_duration_ms: 200u64,
            wall_jump_duration_ms: 500u64,
        }
    }

    pub fn transition(
        &mut self,
        dt_ms: u64,
        input_states: (bool, bool, bool),
        detection_states: (bool, bool, bool),
    )
        requires
            old(self).wf(),
        ensures
            *final(self) == old(self).spec_transition(
                dt_ms,
                input_states.0,
                input_states.1,
                input_states.2,
                detection_states.0,
                detection_states.1,
                detection_states.2,
            ),
            final(self).wf(),
    {
        let (pressed_jump, pressed_left, pressed_right) = input_states;
        let (on_ground, on_wall_left, on_wall_right) = detection_states;

        match &mut self.wall_jump_state {
            WallJumpState::NotOnWall => {
                if !on_ground && ((on_wall_left && pressed_left)
                    || (on_wall_right && pressed_right)) {
                    self.wall_jump_state = WallJumpState::WallSliding;
                }
            }
            WallJumpState::WallSliding => {
                if pressed_jump {
                    self.wall_jump_state = WallJumpState::WallJumping(
                        Timer::from_ms(self.wall_jump_duration_ms, TimerMode::Once),
                    );
                } else if (on_wall_left && !pressed_left) || (on_wall_right && !pressed_right) {
                    self.wall_jump_state = WallJumpState::WallSlideCoyote(
                        Timer::from_ms(self.wall_slide_coyote_duration_ms, TimerMode::Once),
                    );
                } else if on_ground {
                    self.wall_jump_state = WallJumpState::NotOnWall;
                }
            }
            WallJumpState::WallSlideCoyote(timer) => {
                if timer.just_finished() || on_ground {
                    self.wall_jump_state = WallJumpState::NotOnWall;
                } else if pressed_jump {
                    self.wall_jump_state = WallJumpState::WallJumping(
                        Timer::from_ms(self.wall_jump_duration_ms, TimerMode::Once),
                    );
                } else if (on_wall_left && pressed_left) || (on_wall_right && pressed_right) {
                    self.wall_jump_state = WallJumpState::WallSliding;
                } else {
                    timer.tick(dt_ms);
                }
            }
            WallJumpState::WallJumping(timer) => {
                if timer.just_finished() || on_ground {
                    self.wall_jump_state = WallJumpState::NotOnWall;
                } else {
                    timer.tick(dt_ms);
                }
            }
        }
    }

    /// True exactly while the timed wall-jump impulse is driving the
    /// character.
    pub fn is_wall_jumping(&self) -> (r: bool)
        ensures
            r == self.spec_is_wall_jumping(),
    {
        match self.wall_jump_state {
            WallJumpState::WallJumping(_) => true,
            _ => false,
        }
    }
}

impl Default for WallJumper {
    fn default() -> (w: Self)
        ensures
            w == WallJumper::spec_default(),
            w.wf(),
    {
        WallJumper {
            wall_jump_state: WallJumpState::NotOnWall,
            wall_slide_speed: 10,
            wall_jump_direction: Direction::Left,
            wall_slide_coyote_duration_ms: 200,
            wall_jump_duration_ms: 500,
        }
    }
}

/// Every movement facet a character carries, grouped as it is attached at
/// spawn.
#[derive(Clone, PartialEq, Eq, Structural, Debug)]
pub struct MovementBundle {
    pub facing: FacingDirection,
    pub runner: Runner,
    pub dasher: Dasher,
    pub jumper: Jumper,
    pub wall_jumper: WallJumper,
}

impl MovementBundle {
    pub open spec fn wf(&self) -> bool {
        &&& self.runner.wf()
        &&& self.dasher.wf()
        &&& self.jumper.wf()
        &&& self.wall_jumper.wf()
    }

    pub open spec fn spec_default() -> Self {
        MovementBundle {
            facing: FacingDirection::spec_default(),
            runner: Runner::spec_default(),
            dasher: Dasher::spec_default(),
            jumper: Jumper::spec_default(),
            wall_jumper: WallJumper::spec_default(),
        }
    }
}

impl Default for MovementBundle {
    fn default() -> (b: Self)
        ensures
            b == MovementBundle::spec_default(),
            b.wf(),
    {
        MovementBundle {
            facing: FacingDirection::default(),
            runner: Runner::default(),
            dasher: Dasher::default(),
            jumper: Jumper::default(),
            wall_jumper: WallJumper::default(),
        }
    }
}

/// Law: the dash phases strictly cycle. A transition from ready arms the
/// burst; a burst either keeps running or moves to the cooldown; a cooldown
/// either keeps running or re-arms; and `is_dashing` is true in exactly the
/// bursting phase of that cycle.
pub proof fn lemma_dash_transition_cycles(d: Dasher, dt_ms: u64)
    requires
        d.wf(),
    ensures
        d.dash_state is ReadyToDash ==> d.spec_transition(dt_ms).dash_state is Dashing,
        d.dash_state is Dashing ==> (d.spec_transition(dt_ms).dash_state is Dashing
            || d.spec_transition(dt_ms).dash_state is OnCooldown),
        d.dash_state is OnCooldown ==> (d.spec_transition(dt_ms).dash_state is OnCooldown
            || d.spec_transition(dt_ms).dash_state is ReadyToDash),
        d.spec_is_dashing() <==> d.dash_state is Dashing,
{
}

/// Law: jumping from rest launches at exactly `2 * jump_height /
/// time_to_jump_apex` when no multiplier is applied.
pub proof fn lemma_jump_speed_from_rest(j: Jumper)
    requires
        j.wf(),
    ensures
        j.spec_jump_speed(0, 100) == 2 * j.jump_height / (j.time_to_jump_apex as int),
{
    let q = 2 * j.jump_height / (j.time_to_jump_apex as int);
    vstd::arithmetic::div_mod::lemma_div_pos_is_pos(2 * j.jump_height, j.time_to_jump_apex as int);
    vstd::arithmetic::div_mod::lemma_div_multiples_vanish(q, 100);
}

/// Law: the velocity blend around the base jump speed. Jumping while rising
/// gives the base minus the upward speed, floored at zero; jumping while
/// falling gives the base plus the downward speed's magnitude.
pub proof fn lemma_jump_speed_blend(j: Jumper, v: int, mult_pct: int)
    requires
        j.wf(),
    ensures
        v > 0 ==> j.spec_jump_speed(v, mult_pct) == vstd::math::max(
            0,
            j.spec_base_jump_speed(mult_pct) - v,
        ),
        v < 0 ==> j.spec_jump_speed(v, mult_pct) == j.spec_base_jump_speed(mult_pct)
            + vstd::math::abs(v),
        v == 0 ==> j.spec_jump_speed(v, mult_pct) == j.spec_base_jump_speed(mult_pct),
{
}

} // verus!
