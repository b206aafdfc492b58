//! Holds the library's byte layouts against the serializers the running
//! system's peers historically used: bincode's fixed-int little-endian
//! encoding for commands and a plain in-memory float dump for state records.

use mini_ele::{encode_action, encode_state, Action, RobotState};

#[test]
fn action_tag_matches_bincode_u32_encoding() {
    let b = encode_action(&Action::SetBucketAngle(1.0f32.to_bits()));
    let tag_bytes = bincode::serialize(&2u32).unwrap();
    assert_eq!(&b[0..4], &tag_bytes[..]);
    let tag: u32 = bincode::deserialize(&b[0..4]).unwrap();
    assert_eq!(tag, 2);
}

#[test]
fn action_payload_matches_bincode_f32_encoding() {
    let b = encode_action(&Action::SetBucketHeight(0.1f32.to_bits()));
    let payload_bytes = bincode::serialize(&0.1f32).unwrap();
    assert_eq!(&b[4..8], &payload_bytes[..]);
    let h: f32 = bincode::deserialize(&b[4..8]).unwrap();
    assert_eq!(h, 0.1f32);
}

#[test]
fn drive_payload_matches_bincode_pair_encoding() {
    let b = encode_action(&Action::SetDrive(1.5f32.to_bits(), (-2.0f32).to_bits()));
    let pair: (f32, f32) = bincode::deserialize(&b[4..12]).unwrap();
    assert_eq!(pair, (1.5, -2.0));
}

#[test]
fn state_record_matches_in_memory_float_layout() {
    let s = RobotState {
        origin_x: 1.0f32.to_bits(),
        origin_y: 2.0f32.to_bits(),
        velocity_x: 3.0f32.to_bits(),
        velocity_y: 4.0f32.to_bits(),
        rotation: 5.0f32.to_bits(),
        bucket_height: 6.0f32.to_bits(),
        bucket_angle: 7.0f32.to_bits(),
    };
    let b = encode_state(&s);
    let floats = [1.0f32, 2.0, 3.0, 4.0, 5.0, 6.0, 7.0];
    // bytemuck renders each f32 as its native (little-endian) byte image,
    // the same image a packed no-padding struct of seven f32s has.
    for (i, f) in floats.iter().enumerate() {
        assert_eq!(&b[4 * i..4 * i + 4], bytemuck::bytes_of(f));
    }
}

#[test]
fn initial_bucket_height_matches_float_bits() {
    let s = RobotState::new();
    assert_eq!(s.bucket_height, bytemuck::cast::<f32, u32>(0.1f32));
}
