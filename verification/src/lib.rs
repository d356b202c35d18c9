//! Player-movement core for a 2D platformer.
//!
//! The library turns raw input flags and collision-sensor state into a
//! character's velocity and gravity scale each simulation step: run
//! acceleration curves, dashing, variable-height jumping, wall-sliding and
//! wall-jumping, as a set of coordinated state machines with embedded timers.
//! All physical quantities are integers: speeds and velocities are plain
//! units, durations are milliseconds, multipliers are percentages
//! (100 = one), and the gravity scale is reported in thousandths.

pub mod components;
pub mod systems;
pub mod timer;
