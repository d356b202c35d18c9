//! The per-step systems: collision-sensor bookkeeping and the movement
//! pipeline that turns input and detection flags into velocity and gravity.

pub mod detection;
pub mod movement;
