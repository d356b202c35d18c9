use vstd::prelude::*;
use crate::components::movement::Direction;
use crate::components::{GroundDetection, GroundSensor, WallDetection, WallSensor};

verus! {

/// One collision contact event from the physics engine, naming the two
/// bodies by identifier. Events arrive in emission order and are drained in
/// full once per step.
#[derive(Clone, Copy, PartialEq, Eq, Structural, Debug)]
pub enum CollisionEvent {
    Started(u64, u64),
    Stopped(u64, u64),
}

/// A sensor's overlap set after one event: when one side of the contact is a
/// solid body from `solids` and the other side is the sensor itself, the
/// solid body's id is inserted (contact started) or removed (contact
/// stopped); every other event leaves the set alone.
pub open spec fn spec_apply_event(
    overlaps: Set<u64>,
    ev: CollisionEvent,
    sensor_entity: u64,
    solids: Set<u64>,
) -> Set<u64> {
    match ev {
        CollisionEvent::Started(a, b) => if solids.contains(a) {
            if b == sensor_entity {
                overlaps.insert(a)
            } else {
                overlaps
            }
        } else if solids.contains(b) {
            if a == sensor_entity {
                overlaps.insert(b)
            } else {
                overlaps
            }
        } else {
            overlaps
        },
        CollisionEvent::Stopped(a, b) => if solids.contains(a) {
            if b == sensor_entity {
                overlaps.remove(a)
            } else {
                overlaps
            }
        } else if solids.contains(b) {
            if a == sensor_entity {
                overlaps.remove(b)
            } else {
                overlaps
            }
        } else {
            overlaps
        },
    }
}

/// A sensor's overlap set after a whole event stream, applied in order.
pub open spec fn spec_apply_events(
    overlaps: Set<u64>,
    evs: Seq<CollisionEvent>,
    sensor_entity: u64,
    solids: Set<u64>,
) -> Set<u64>
    decreases evs.len(),
{
    if evs.len() == 0 {
        overlaps
    } else {
        spec_apply_event(
            spec_apply_events(overlaps, evs.drop_last(), sensor_entity, solids),
            evs.last(),
            sensor_entity,
            solids,
        )
    }
}

/// Whether `ids` holds `x`, by linear scan.
fn id_list_contains(ids: &Vec<u64>, x: u64) -> (r: bool)
    ensures
        r == ids@.contains(x),
{
    let mut i: usize = 0;
    while i < ids.len()
        invariant
            i <= ids@.len(),
            forall|k: int| 0 <= k < i ==> ids@[k] != x,
        decreases ids@.len() - i,
    {
        if ids[i] == x {
            return true;
        }
        i = i + 1;
    }
    false
}

/// Insert `x` into a duplicate-free id list, keeping set semantics: a second
/// start event for a body already present is a no-op.
fn id_list_insert(ids: &mut Vec<u64>, x: u64)
    requires
        old(ids)@.no_duplicates(),
    ensures
        final(ids)@.no_duplicates(),
        final(ids)@.to_set() == old(ids)@.to_set().insert(x),
{
    if !id_list_contains(ids, x) {
        ids.push(x);
        proof {
            assert(ids@ =~= old(ids)@ + seq![x]);
            Seq::<u64>::lemma_to_set_insert_commutes(old(ids)@, x);
            assert(ids@.no_duplicates()) by {
                assert(forall|k: int| 0 <= k < old(ids)@.len() ==> old(ids)@[k] != x);
            }
        }
    } else {
        proof {
            assert(old(ids)@.to_set() =~= old(ids)@.to_set().insert(x));
        }
    }
}

/// Remove `x` from a duplicate-free id list, if present.
fn id_list_remove(ids: &mut Vec<u64>, x: u64)
    requires
        old(ids)@.no_duplicates(),
    ensures
        final(ids)@.no_duplicates(),
        final(ids)@.to_set() == old(ids)@.to_set().remove(x),
{
    let mut i: usize = 0;
    while i < ids.len()
        invariant
            i <= ids@.len(),
            ids@ == old(ids)@,
            ids@.no_duplicates(),
            forall|k: int| 0 <= k < i ==> ids@[k] != x,
        decreases ids@.len() - i,
    {
        if ids[i] == x {
            ids.remove(i);
            proof {
                let olds = old(ids)@;
                let news = ids@;
                assert(olds[i as int] == x);
                assert forall|y: u64| news.contains(y) implies olds.contains(y) && y != x by {
                    let j = choose|j: int| 0 <= j < news.len() && news[j] == y;
                    if j < i {
                        assert(news[j] == olds[j]);
                        assert(olds[j] == y);
                        assert(olds[j] != olds[i as int]);
                    } else {
                        assert(news[j] == olds[j + 1]);
                        assert(olds[j + 1] == y);
                        assert(olds[j + 1] != olds[i as int]);
                    }
                }
                assert forall|y: u64| olds.contains(y) && y != x implies news.contains(y) by {
                    let j = choose|j: int| 0 <= j < olds.len() && olds[j] == y;
                    if j < i {
                        assert(news[j] == y);
                    } else {
                        assert(j != i);
                        assert(news[j - 1] == olds[j]);
                        assert(news[j - 1] == y);
                    }
                }
                assert(news.to_set() =~= olds.to_set().remove(x));
                assert forall|k: int, l: int|
                    0 <= k < l < news.len() implies news[k] != news[l] by {
                    let ok = if k < i { k } else { k + 1 };
                    let ol = if l < i { l } else { l + 1 };
                    assert(news[k] == olds[ok]);
                    assert(news[l] == olds[ol]);
                    assert(olds[ok] != olds[ol]);
                }
                assert(news.no_duplicates());
            }
            return;
        }
        i = i + 1;
    }
    proof {
        assert(!ids@.contains(x));
        assert(ids@.to_set() =~= ids@.to_set().remove(x));
    }
}

/// Drain this step's collision events into the ground sensor's overlap set:
/// contacts between the sensor (id `sensor_entity`) and a solid body from
/// `solids` are inserted on start and removed on stop, in emission order.
pub fn ground_detection(
    sensor_entity: u64,
    sensor: &mut GroundSensor,
    collisions: &Vec<CollisionEvent>,
    solids: &Vec<u64>,
)
    requires
        old(sensor).wf(),
    ensures
        final(sensor).wf(),
        final(sensor).overlap_set() == spec_apply_events(
            old(sensor).overlap_set(),
            collisions@,
            sensor_entity,
            solids@.to_set(),
        ),
        final(sensor).ground_detection_entity == old(sensor).ground_detection_entity,
{
    let ghost init_set = sensor.overlap_set();
    let mut i: usize = 0;
    while i < collisions.len()
        invariant
            i <= collisions@.len(),
            sensor.wf(),
            sensor.ground_detection_entity == old(sensor).ground_detection_entity,
            sensor.overlap_set() == spec_apply_events(
                init_set,
                collisions@.subrange(0, i as int),
                sensor_entity,
                solids@.to_set(),
            ),
        decreases collisions@.len() - i,
    {
        let ghost prefix = collisions@.subrange(0, i as int);
        let ev = collisions[i];
        match ev {
            CollisionEvent::Started(a, b) => {
                if id_list_contains(solids, a) {
                    if b == sensor_entity {
                        id_list_insert(&mut sensor.intersecting_ground_entities, a);
                    }
                } else if id_list_contains(solids, b) {
                    if a == sensor_entity {
                        id_list_insert(&mut sensor.intersecting_ground_entities, b);
                    }
                }
            }
            CollisionEvent::Stopped(a, b) => {
                if id_list_contains(solids, a) {
                    if b == sensor_entity {
                        id_list_remove(&mut sensor.intersecting_ground_entities, a);
                    }
                } else if id_list_contains(solids, b) {
                    if a == sensor_entity {
                        id_list_remove(&mut sensor.intersecting_ground_entities, b);
                    }
                }
            }
        }
        proof {
            let next = collisions@.subrange(0, i + 1);
            assert(next.drop_last() =~= prefix);
            assert(next.last() == collisions@[i as int]);
        }
        i = i + 1;
    }
    proof {
        assert(collisions@.subrange(0, collisions@.len() as int) =~= collisions@);
    }
}

/// Recompute the ground flag from the sensor that feeds it: grounded exactly
/// when the overlap set is non-empty.
pub fn update_on_ground(ground_detector: &mut GroundDetection, sensor: &GroundSensor)
    ensures
        final(ground_detector).on_ground == (sensor.intersecting_ground_entities@.len() != 0),
        final(ground_detector).on_ground == !(sensor.overlap_set() =~= Set::<u64>::empty()),
{
    ground_detector.on_ground = sensor.intersecting_ground_entities.len() != 0;
    proof {
        if sensor.intersecting_ground_entities@.len() != 0 {
            assert(sensor.overlap_set().contains(sensor.intersecting_ground_entities@[0]));
        } else {
            assert(sensor.overlap_set() =~= Set::<u64>::empty());
        }
    }
}

/// Drain this step's collision events into a wall sensor's overlap set, as
/// `ground_detection` does for the ground sensor.
pub fn wall_detection(
    sensor_entity: u64,
    sensor: &mut WallSensor,
    collisions: &Vec<CollisionEvent>,
    solids: &Vec<u64>,
)
    requires
        old(sensor).wf(),
    ensures
        final(sensor).wf(),
        final(sensor).overlap_set() == spec_apply_events(
            old(sensor).overlap_set(),
            collisions@,
            sensor_entity,
            solids@.to_set(),
        ),
        final(sensor).wall_detection_entity == old(sensor).wall_detection_entity,
        final(sensor).direction == old(sensor).direction,
{
    let ghost init_set = sensor.overlap_set();
    let mut i: usize = 0;
    while i < collisions.len()
        invariant
            i <= collisions@.len(),
            sensor.wf(),
            sensor.wall_detection_entity == old(sensor).wall_detection_entity,
            sensor.direction == old(sensor).direction,
            sensor.overlap_set() == spec_apply_events(
                init_set,
                collisions@.subrange(0, i as int),
                sensor_entity,
                solids@.to_set(),
            ),
        decreases collisions@.len() - i,
    {
        let ghost prefix = collisions@.subrange(0, i as int);
        let ev = collisions[i];
        match ev {
            CollisionEvent::Started(a, b) => {
                if id_list_contains(solids, a) {
                    if b == sensor_entity {
                        id_list_insert(&mut sensor.intersecting_wall_entities, a);
                    }
                } else if id_list_contains(solids, b) {
                    if a == sensor_entity {
                        id_list_insert(&mut sensor.intersecting_wall_entities, b);
                    }
                }
            }
            CollisionEvent::Stopped(a, b) => {
                if id_list_contains(solids, a) {
                    if b == sensor_entity {
                        id_list_remove(&mut sensor.intersecting_wall_entities, a);
                    }
                } else if id_list_contains(solids, b) {
                    if a == sensor_entity {
                        id_list_remove(&mut sensor.intersecting_wall_entities, b);
                    }
                }
            }
        }
        proof {
            let next = collisions@.subrange(0, i + 1);
            assert(next.drop_last() =~= prefix);
            assert(next.last() == collisions@[i as int]);
        }
        i = i + 1;
    }
    proof {
        assert(collisions@.subrange(0, collisions@.len() as int) =~= collisions@);
    }
}

/// Recompute the wall flag this sensor feeds, on the side named by its
/// direction; the other side's flag is left alone.
pub fn update_on_wall(wall_detector: &mut WallDetection, sensor: &WallSensor)
    ensures
        sensor.direction is Left ==> *final(wall_detector) == (WallDetection {
            on_wall_left: sensor.intersecting_wall_entities@.len() != 0,
            ..*old(wall_detector)
        }),
        sensor.direction is Right ==> *final(wall_detector) == (WallDetection {
            on_wall_right: sensor.intersecting_wall_entities@.len() != 0,
            ..*old(wall_detector)
        }),
        (sensor.intersecting_wall_entities@.len() != 0)
            == !(sensor.overlap_set() =~= Set::<u64>::empty()),
{
    let touching = sensor.intersecting_wall_entities.len() != 0;
    match sensor.direction {
        Direction::Left => {
            wall_detector.on_wall_left = touching;
        }
        Direction::Right => {
            wall_detector.on_wall_right = touching;
        }
    }
    proof {
        if sensor.intersecting_wall_entities@.len() != 0 {
            assert(sensor.overlap_set().contains(sensor.intersecting_wall_entities@[0]));
        } else {
            assert(sensor.overlap_set() =~= Set::<u64>::empty());
        }
    }
}

} // verus!
