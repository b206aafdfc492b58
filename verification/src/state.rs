//! The actuator state record, the command messages, and the simulator's
//! target setpoints.
//!
//! Every scalar of the running system is an IEEE 754 single-precision value;
//! the library carries each one as its raw 32-bit pattern (`u32`), so that
//! the wire layout, the setpoint updates and the cache hand-offs can be
//! stated and proved bit-for-bit. The unverified process shells convert to
//! and from native floats at their edges; non-finite patterns (NaN,
//! infinities) pass through the library unchanged like any other bits.

use vstd::prelude::*;

verus! {

/// Ticks per second of both processes' fixed-rate loops.
pub const TICKS_PER_SECOND: u64 = 50;

/// Length of one tick in milliseconds: 1000 / TICKS_PER_SECOND.
pub const TICK_MILLIS: u64 = 20;

/// Bit pattern of the single-precision value 0.1, the bucket height both
/// the initial state and the initial height setpoint start from.
pub const BUCKET_HEIGHT_START_BITS: u32 = 0x3DCC_CCCD;

/// One instant of actuator state, mutated only by the simulator's tick loop.
///
/// Each field is the bit pattern of one single-precision scalar; the field
/// order here is the byte order of the wire and recording layout.
#[derive(Clone, Copy, Debug, PartialEq, Eq, Structural)]
pub struct RobotState {
    /// World-plane position, x component.
    pub origin_x: u32,
    /// World-plane position, y component.
    pub origin_y: u32,
    /// Velocity, x component.
    pub velocity_x: u32,
    /// Velocity, y component.
    pub velocity_y: u32,
    /// Rotation scalar, in radians.
    pub rotation: u32,
    /// Bucket height, conventionally near [0, 1].
    pub bucket_height: u32,
    /// Bucket tilt angle.
    pub bucket_angle: u32,
}

impl RobotState {
    /// The initial state: position and velocity zero, rotation zero,
    /// bucket height 0.1, bucket angle zero.
    pub open spec fn initial() -> Self {
        RobotState {
            origin_x: 0,
            origin_y: 0,
            velocity_x: 0,
            velocity_y: 0,
            rotation: 0,
            bucket_height: BUCKET_HEIGHT_START_BITS,
            bucket_angle: 0,
        }
    }

    /// Builds the initial state.
    pub fn new() -> (s: Self)
        ensures
            s == Self::initial(),
    {
        RobotState {
            origin_x: 0,
            origin_y: 0,
            velocity_x: 0,
            velocity_y: 0,
            rotation: 0,
            bucket_height: BUCKET_HEIGHT_START_BITS,
            bucket_angle: 0,
        }
    }
}

impl Default for RobotState {
    fn default() -> (s: Self)
        ensures
            s == Self::initial(),
    {
        Self::new()
    }
}

/// One controller command. Exactly one variant is active per message; each
/// payload is the bit pattern of a single-precision scalar.
#[derive(Clone, Copy, Debug, PartialEq, Eq, Structural)]
pub enum Action {
    /// Requests a drive velocity/intent target (x, y).
    SetDrive(u32, u32),
    /// Requests a target bucket height.
    SetBucketHeight(u32),
    /// Requests a target bucket tilt angle.
    SetBucketAngle(u32),
}

/// The simulator's three target setpoints. Each command overwrites exactly
/// the setpoint of its degree of freedom; targets persist until overwritten.
#[derive(Clone, Copy, Debug, PartialEq, Eq, Structural)]
pub struct Targets {
    /// Drive target, x component.
    pub drive_x: u32,
    /// Drive target, y component.
    pub drive_y: u32,
    /// Bucket height target.
    pub bucket_height: u32,
    /// Bucket angle target.
    pub bucket_angle: u32,
}

impl Targets {
    /// The setpoints at simulator start: drive (0, 0), bucket height 0.1,
    /// bucket angle 0 — the same values the initial state holds.
    pub open spec fn initial() -> Self {
        Targets {
            drive_x: 0,
            drive_y: 0,
            bucket_height: BUCKET_HEIGHT_START_BITS,
            bucket_angle: 0,
        }
    }

    /// The setpoints after one command is applied: the command's degree of
    /// freedom takes the payload, the other setpoints are unchanged.
    pub open spec fn applied(self, a: Action) -> Self {
        match a {
            Action::SetDrive(x, y) => Targets { drive_x: x, drive_y: y, ..self },
            Action::SetBucketHeight(h) => Targets { bucket_height: h, ..self },
            Action::SetBucketAngle(g) => Targets { bucket_angle: g, ..self },
        }
    }

    /// Builds the initial setpoints.
    pub fn new() -> (t: Self)
        ensures
            t == Self::initial(),
    {
        Targets {
            drive_x: 0,
            drive_y: 0,
            bucket_height: BUCKET_HEIGHT_START_BITS,
            bucket_angle: 0,
        }
    }

    /// Consumes one command: overwrites the setpoint of its degree of
    /// freedom and leaves the others as they were.
    pub fn apply_action(&mut self, a: &Action)
        ensures
            *final(self) == old(self).applied(*a),
    {
        match *a {
            Action::SetDrive(x, y) => {
                self.drive_x = x;
                self.drive_y = y;
            },
            Action::SetBucketHeight(h) => {
                self.bucket_height = h;
            },
            Action::SetBucketAngle(g) => {
                self.bucket_angle = g;
            },
        }
    }
}

} // verus!
