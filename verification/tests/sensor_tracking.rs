use platformer_core::components::movement::Direction;
use platformer_core::components::{GroundDetection, GroundSensor, WallDetection, WallSensor};
use platformer_core::systems::detection::{
    ground_detection, update_on_ground, update_on_wall, wall_detection, CollisionEvent,
};

const SENSOR: u64 = 55;
const CHARACTER: u64 = 7;

fn fresh_ground_sensor() -> GroundSensor {
    GroundSensor {
        ground_detection_entity: CHARACTER,
        intersecting_ground_entities: Vec::new(),
    }
}

#[test]
fn start_then_stop_in_one_step_leaves_the_set_empty() {
    let mut sensor = fresh_ground_sensor();
    let events = vec![
        CollisionEvent::Started(100, SENSOR),
        CollisionEvent::Stopped(100, SENSOR),
    ];
    let solids = vec![100];

    ground_detection(SENSOR, &mut sensor, &events, &solids);
    assert!(sensor.intersecting_ground_entities.is_empty());

    let mut flag = GroundDetection { on_ground: true };
    update_on_ground(&mut flag, &sensor);
    assert!(!flag.on_ground);
}

#[test]
fn contact_start_sets_the_ground_flag() {
    let mut sensor = fresh_ground_sensor();
    let events = vec![CollisionEvent::Started(100, SENSOR)];
    let solids = vec![100];

    ground_detection(SENSOR, &mut sensor, &events, &solids);
    assert_eq!(sensor.intersecting_ground_entities, vec![100]);

    let mut flag = GroundDetection { on_ground: false };
    update_on_ground(&mut flag, &sensor);
    assert!(flag.on_ground);
}

#[test]
fn duplicate_start_events_are_idempotent() {
    let mut sensor = fresh_ground_sensor();
    let events = vec![
        CollisionEvent::Started(100, SENSOR),
        CollisionEvent::Started(100, SENSOR),
    ];
    let solids = vec![100];

    ground_detection(SENSOR, &mut sensor, &events, &solids);
    assert_eq!(sensor.intersecting_ground_entities, vec![100]);

    // One stop is then enough to clear the contact.
    let stop = vec![CollisionEvent::Stopped(100, SENSOR)];
    ground_detection(SENSOR, &mut sensor, &stop, &solids);
    assert!(sensor.intersecting_ground_entities.is_empty());
}

#[test]
fn sensor_side_may_come_first_in_the_event() {
    let mut sensor = fresh_ground_sensor();
    let events = vec![CollisionEvent::Started(SENSOR, 100)];
    let solids = vec![100];

    ground_detection(SENSOR, &mut sensor, &events, &solids);
    assert_eq!(sensor.intersecting_ground_entities, vec![100]);
}

#[test]
fn contacts_with_non_solids_are_ignored() {
    let mut sensor = fresh_ground_sensor();
    // Body 200 is not in the solid list: a sensor-to-sensor contact.
    let events = vec![CollisionEvent::Started(200, SENSOR)];
    let solids = vec![100];

    ground_detection(SENSOR, &mut sensor, &events, &solids);
    assert!(sensor.intersecting_ground_entities.is_empty());
}

#[test]
fn events_for_other_sensors_are_ignored() {
    let mut sensor = fresh_ground_sensor();
    let events = vec![CollisionEvent::Started(100, 99)];
    let solids = vec![100];

    ground_detection(SENSOR, &mut sensor, &events, &solids);
    assert!(sensor.intersecting_ground_entities.is_empty());
}

#[test]
fn several_contacts_keep_the_flag_until_all_stop() {
    let mut sensor = fresh_ground_sensor();
    let solids = vec![100, 101];
    let events = vec![
        CollisionEvent::Started(100, SENSOR),
        CollisionEvent::Started(101, SENSOR),
        CollisionEvent::Stopped(100, SENSOR),
    ];
    ground_detection(SENSOR, &mut sensor, &events, &solids);
    assert_eq!(sensor.intersecting_ground_entities, vec![101]);

    let mut flag = GroundDetection { on_ground: false };
    update_on_ground(&mut flag, &sensor);
    assert!(flag.on_ground);
}

#[test]
fn wall_sensor_feeds_the_flag_on_its_own_side() {
    let mut left_sensor = WallSensor {
        direction: Direction::Left,
        wall_detection_entity: CHARACTER,
        intersecting_wall_entities: Vec::new(),
    };
    let solids = vec![100];
    let events = vec![CollisionEvent::Started(100, SENSOR)];
    wall_detection(SENSOR, &mut left_sensor, &events, &solids);

    let mut flags = WallDetection { on_wall_left: false, on_wall_right: true };
    update_on_wall(&mut flags, &left_sensor);
    assert!(flags.on_wall_left);
    // The other side's flag is left alone.
    assert!(flags.on_wall_right);
}

#[test]
fn wall_contact_stop_clears_only_that_side() {
    let mut right_sensor = WallSensor {
        direction: Direction::Right,
        wall_detection_entity: CHARACTER,
        intersecting_wall_entities: vec![100],
    };
    let solids = vec![100];
    let events = vec![CollisionEvent::Stopped(SENSOR, 100)];
    wall_detection(SENSOR, &mut right_sensor, &events, &solids);
    assert!(right_sensor.intersecting_wall_entities.is_empty());

    let mut flags = WallDetection { on_wall_left: true, on_wall_right: true };
    update_on_wall(&mut flags, &right_sensor);
    assert!(flags.on_wall_left);
    assert!(!flags.on_wall_right);
}
