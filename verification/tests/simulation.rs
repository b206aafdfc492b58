use mini_ele::codec::STATE_RECORD_BYTES;
use mini_ele::{encode_state, Action, Recording, RobotState, StateCache, Targets};

#[test]
fn cache_starts_with_initial_state() {
    let cache = StateCache::new();
    assert_eq!(cache.get_robot_state(), RobotState::new());
}

#[test]
fn cache_overwrites_unread_record() {
    let mut cache = StateCache::new();
    let mut r1 = RobotState::new();
    r1.rotation = 1.0f32.to_bits();
    let mut r2 = RobotState::new();
    r2.rotation = 2.0f32.to_bits();
    cache.store(r1);
    cache.store(r2);
    // R1 was never read and is gone; the cache yields R2.
    assert_eq!(cache.get_robot_state(), r2);
    assert_eq!(cache.get_robot_state(), r2);
}

#[test]
fn targets_start_at_state_defaults() {
    let t = Targets::new();
    assert_eq!(t.drive_x, 0.0f32.to_bits());
    assert_eq!(t.drive_y, 0.0f32.to_bits());
    assert_eq!(t.bucket_height, 0.1f32.to_bits());
    assert_eq!(t.bucket_angle, 0.0f32.to_bits());
}

#[test]
fn each_action_updates_exactly_its_setpoint() {
    let mut t = Targets::new();
    t.apply_action(&Action::SetBucketAngle(1.0f32.to_bits()));
    assert_eq!(t.bucket_angle, 1.0f32.to_bits());
    assert_eq!(t.bucket_height, 0.1f32.to_bits());
    assert_eq!((t.drive_x, t.drive_y), (0, 0));

    t.apply_action(&Action::SetDrive(2.0f32.to_bits(), 3.0f32.to_bits()));
    assert_eq!((t.drive_x, t.drive_y), (2.0f32.to_bits(), 3.0f32.to_bits()));
    // Earlier targets persist until overwritten.
    assert_eq!(t.bucket_angle, 1.0f32.to_bits());

    t.apply_action(&Action::SetBucketHeight(0.5f32.to_bits()));
    assert_eq!(t.bucket_height, 0.5f32.to_bits());
    assert_eq!(t.bucket_angle, 1.0f32.to_bits());
    assert_eq!((t.drive_x, t.drive_y), (2.0f32.to_bits(), 3.0f32.to_bits()));
}

#[test]
fn later_action_overwrites_same_setpoint() {
    let mut t = Targets::new();
    t.apply_action(&Action::SetBucketHeight(0.25f32.to_bits()));
    t.apply_action(&Action::SetBucketHeight(0.75f32.to_bits()));
    assert_eq!(t.bucket_height, 0.75f32.to_bits());
}

#[test]
fn recording_is_a_whole_number_of_records() {
    let mut log = Recording::new();
    assert_eq!(log.len(), 0);
    let mut s = RobotState::new();
    log.append(&s);
    assert_eq!(log.len(), STATE_RECORD_BYTES);
    s.bucket_angle = 1.0f32.to_bits();
    log.append(&s);
    assert_eq!(log.len(), 2 * STATE_RECORD_BYTES);
    assert_eq!(log.len() % STATE_RECORD_BYTES, 0);
}

#[test]
fn recording_holds_the_emitted_bytes_in_order() {
    let mut log = Recording::new();
    let mut s1 = RobotState::new();
    s1.origin_x = 4.0f32.to_bits();
    let mut s2 = RobotState::new();
    s2.origin_x = 5.0f32.to_bits();
    log.append(&s1);
    log.append(&s2);
    let mut expect = encode_state(&s1);
    expect.extend_from_slice(&encode_state(&s2));
    assert_eq!(log.into_bytes(), expect);
}

#[test]
fn wait_returns() {
    // One tick of the spin-assisted sleep: about 20 ms.
    mini_ele::wait();
}
