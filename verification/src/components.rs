//! Data carried by the controlled character: movement state machines, the
//! ground/wall detection flags fed by the collision sensors, and the plain
//! values exchanged with the surrounding engine each step.

pub mod movement;

use vstd::prelude::*;
use crate::components::movement::Direction;

verus! {

/// The input queries the movement systems consume this step: held direction
/// and sprint keys, plus the just-pressed edges for jump and dash.
#[derive(Clone, Copy, PartialEq, Eq, Structural, Debug)]
pub struct InputState {
    pub pressed_left: bool,
    pub pressed_right: bool,
    pub pressed_sprint: bool,
    pub just_pressed_jump: bool,
    pub just_pressed_dash: bool,
}

/// The character's velocity as the physics engine holds it; read and
/// rewritten by the movement systems each step.
#[derive(Clone, Copy, PartialEq, Eq, Structural, Debug)]
pub struct Velocity {
    pub x: i64,
    pub y: i64,
}

/// Whether the ground sensor currently overlaps any solid body.
#[derive(Clone, Copy, PartialEq, Eq, Structural, Debug)]
pub struct GroundDetection {
    pub on_ground: bool,
}

/// Whether either wall sensor currently overlaps any solid body.
#[derive(Clone, Copy, PartialEq, Eq, Structural, Debug)]
pub struct WallDetection {
    pub on_wall_left: bool,
    pub on_wall_right: bool,
}

/// The region below the character that watches for ground contact. It keeps
/// the identifiers of the solid bodies it overlaps and a reference to the
/// character whose ground flag it feeds.
#[derive(Clone, PartialEq, Eq, Debug)]
pub struct GroundSensor {
    pub ground_detection_entity: u64,
    pub intersecting_ground_entities: Vec<u64>,
}

impl GroundSensor {
    /// Overlap bookkeeping has set semantics: each body id at most once.
    pub open spec fn wf(&self) -> bool {
        self.intersecting_ground_entities@.no_duplicates()
    }

    /// The overlap set this sensor tracks.
    pub open spec fn overlap_set(&self) -> Set<u64> {
        self.intersecting_ground_entities@.to_set()
    }
}

/// A region on one side of the character that watches for wall contact,
/// feeding the left or right wall flag named by its direction.
#[derive(Clone, PartialEq, Eq, Debug)]
pub struct WallSensor {
    pub direction: Direction,
    pub wall_detection_entity: u64,
    pub intersecting_wall_entities: Vec<u64>,
}

impl WallSensor {
    /// Overlap bookkeeping has set semantics: each body id at most once.
    pub open spec fn wf(&self) -> bool {
        self.intersecting_wall_entities@.no_duplicates()
    }

    /// The overlap set this sensor tracks.
    pub open spec fn overlap_set(&self) -> Set<u64> {
        self.intersecting_wall_entities@.to_set()
    }
}

} // verus!
