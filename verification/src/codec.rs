//! The binary channel codec.
//!
//! A state record travels as a fixed 28-byte buffer: its seven scalars in
//! field order, each as the four little-endian bytes of its bit pattern. A
//! command travels self-described: a four-byte little-endian discriminant
//! followed by exactly the payload scalars of that variant, so a decoder
//! needs no outside context and no length header to find the message
//! boundary.

use vstd::assert_seqs_equal;
use vstd::bytes::lemma_auto_spec_u32_to_from_le_bytes;
use vstd::bytes::spec_u32_from_le_bytes;
use vstd::bytes::spec_u32_to_le_bytes;
use vstd::bytes::u32_from_le_bytes;
use vstd::bytes::u32_to_le_bytes;
use vstd::prelude::*;
use vstd::slice::slice_subrange;

use crate::state::Action;
use crate::state::RobotState;

verus! {

/// Number of bytes of one encoded state record: seven four-byte scalars.
pub const STATE_RECORD_BYTES: usize = 28;

/// Wire discriminant of `Action::SetDrive`.
pub const TAG_SET_DRIVE: u32 = 0;

/// Wire discriminant of `Action::SetBucketHeight`.
pub const TAG_SET_BUCKET_HEIGHT: u32 = 1;

/// Wire discriminant of `Action::SetBucketAngle`.
pub const TAG_SET_BUCKET_ANGLE: u32 = 2;

/// The 28 bytes of one state record: each scalar's bit pattern in
/// little-endian order, fields in declaration order.
pub open spec fn state_bytes(s: RobotState) -> Seq<u8> {
    spec_u32_to_le_bytes(s.origin_x) + spec_u32_to_le_bytes(s.origin_y)
        + spec_u32_to_le_bytes(s.velocity_x) + spec_u32_to_le_bytes(s.velocity_y)
        + spec_u32_to_le_bytes(s.rotation) + spec_u32_to_le_bytes(s.bucket_height)
        + spec_u32_to_le_bytes(s.bucket_angle)
}

/// The state record a 28-byte buffer holds.
pub open spec fn state_of_bytes(b: Seq<u8>) -> RobotState
    recommends
        b.len() == STATE_RECORD_BYTES,
{
    RobotState {
        origin_x: spec_u32_from_le_bytes(b.subrange(0, 4)),
        origin_y: spec_u32_from_le_bytes(b.subrange(4, 8)),
        velocity_x: spec_u32_from_le_bytes(b.subrange(8, 12)),
        velocity_y: spec_u32_from_le_bytes(b.subrange(12, 16)),
        rotation: spec_u32_from_le_bytes(b.subrange(16, 20)),
        bucket_height: spec_u32_from_le_bytes(b.subrange(20, 24)),
        bucket_angle: spec_u32_from_le_bytes(b.subrange(24, 28)),
    }
}

/// Encodes one state record into its fixed-size buffer.
pub fn encode_state(s: &RobotState) -> (b: Vec<u8>)
    ensures
        b@ == state_bytes(*s),
        b@.len() == STATE_RECORD_BYTES,
{
    proof {
        lemma_auto_spec_u32_to_from_le_bytes();
    }
    let mut b: Vec<u8> = Vec::new();
    let mut part = u32_to_le_bytes(s.origin_x);
    b.append(&mut part);
    let mut part = u32_to_le_bytes(s.origin_y);
    b.append(&mut part);
    let mut part = u32_to_le_bytes(s.velocity_x);
    b.append(&mut part);
    let mut part = u32_to_le_bytes(s.velocity_y);
    b.append(&mut part);
    let mut part = u32_to_le_bytes(s.rotation);
    b.append(&mut part);
    let mut part = u32_to_le_bytes(s.bucket_height);
    b.append(&mut part);
    let mut part = u32_to_le_bytes(s.bucket_angle);
    b.append(&mut part);
    b
}

/// Decodes one fixed-size buffer back into a state record.
pub fn decode_state(b: &[u8]) -> (s: RobotState)
    requires
        b@.len() == STATE_RECORD_BYTES,
    ensures
        s == state_of_bytes(b@),
        state_bytes(s) == b@,
{
    proof {
        lemma_auto_spec_u32_to_from_le_bytes();
    }
    let s = RobotState {
        origin_x: u32_from_le_bytes(slice_subrange(b, 0, 4)),
        origin_y: u32_from_le_bytes(slice_subrange(b, 4, 8)),
        velocity_x: u32_from_le_bytes(slice_subrange(b, 8, 12)),
        velocity_y: u32_from_le_bytes(slice_subrange(b, 12, 16)),
        rotation: u32_from_le_bytes(slice_subrange(b, 16, 20)),
        bucket_height: u32_from_le_bytes(slice_subrange(b, 20, 24)),
        bucket_angle: u32_from_le_bytes(slice_subrange(b, 24, 28)),
    };
    proof {
        assert_seqs_equal!(state_bytes(s) == b@);
    }
    s
}

/// Round trip: decoding an encoded state record yields the record again,
/// bit for bit — non-finite patterns (NaN, infinities) included, since the
/// codec never interprets the bits as numbers.
pub proof fn lemma_state_round_trip(s: RobotState)
    ensures
        state_of_bytes(state_bytes(s)) == s,
{
    lemma_auto_spec_u32_to_from_le_bytes();
    let b = state_bytes(s);
    assert_seqs_equal!(b.subrange(0, 4) == spec_u32_to_le_bytes(s.origin_x));
    assert_seqs_equal!(b.subrange(4, 8) == spec_u32_to_le_bytes(s.origin_y));
    assert_seqs_equal!(b.subrange(8, 12) == spec_u32_to_le_bytes(s.velocity_x));
    assert_seqs_equal!(b.subrange(12, 16) == spec_u32_to_le_bytes(s.velocity_y));
    assert_seqs_equal!(b.subrange(16, 20) == spec_u32_to_le_bytes(s.rotation));
    assert_seqs_equal!(b.subrange(20, 24) == spec_u32_to_le_bytes(s.bucket_height));
    assert_seqs_equal!(b.subrange(24, 28) == spec_u32_to_le_bytes(s.bucket_angle));
}

/// How a decode of one command can fail.
#[derive(Clone, Copy, Debug, PartialEq, Eq, Structural)]
pub enum DecodeError {
    /// The stream ended exactly at a message boundary: the peer closed
    /// cleanly. Not a fault.
    CleanShutdown,
    /// The discriminant is none of the known tags; carries the raw tag as
    /// corrupt-input context.
    UnknownTag(u32),
    /// The stream ended inside a message: a truncated discriminant or
    /// payload. Corrupt input.
    Truncated,
}

/// The bytes of one encoded command: the discriminant, then exactly the
/// payload scalars of the variant, all little-endian.
pub open spec fn action_bytes(a: Action) -> Seq<u8> {
    match a {
        Action::SetDrive(x, y) => spec_u32_to_le_bytes(TAG_SET_DRIVE) + spec_u32_to_le_bytes(x)
            + spec_u32_to_le_bytes(y),
        Action::SetBucketHeight(h) => spec_u32_to_le_bytes(TAG_SET_BUCKET_HEIGHT)
            + spec_u32_to_le_bytes(h),
        Action::SetBucketAngle(g) => spec_u32_to_le_bytes(TAG_SET_BUCKET_ANGLE)
            + spec_u32_to_le_bytes(g),
    }
}

/// What decoding a buffer that starts with one (possibly partial) command
/// yields: the command and how many bytes it occupied, or the exact error.
pub open spec fn spec_decode_action(b: Seq<u8>) -> Result<(Action, int), DecodeError> {
    if b.len() == 0 {
        Err(DecodeError::CleanShutdown)
    } else if b.len() < 4 {
        Err(DecodeError::Truncated)
    } else {
        let tag = spec_u32_from_le_bytes(b.subrange(0, 4));
        if tag == TAG_SET_DRIVE {
            if b.len() >= 12 {
                Ok(
                    (
                        Action::SetDrive(
                            spec_u32_from_le_bytes(b.subrange(4, 8)),
                            spec_u32_from_le_bytes(b.subrange(8, 12)),
                        ),
                        12,
                    ),
                )
            } else {
                Err(DecodeError::Truncated)
            }
        } else if tag == TAG_SET_BUCKET_HEIGHT {
            if b.len() >= 8 {
                Ok((Action::SetBucketHeight(spec_u32_from_le_bytes(b.subrange(4, 8))), 8))
            } else {
                Err(DecodeError::Truncated)
            }
        } else if tag == TAG_SET_BUCKET_ANGLE {
            if b.len() >= 8 {
                Ok((Action::SetBucketAngle(spec_u32_from_le_bytes(b.subrange(4, 8))), 8))
            } else {
                Err(DecodeError::Truncated)
            }
        } else {
            Err(DecodeError::UnknownTag(tag))
        }
    }
}

/// How many bytes a whole message with the given discriminant occupies on
/// the wire, or `None` for an unknown discriminant.
pub open spec fn spec_action_size(tag: u32) -> Option<usize> {
    if tag == TAG_SET_DRIVE {
        Some(12usize)
    } else if tag == TAG_SET_BUCKET_HEIGHT {
        Some(8usize)
    } else if tag == TAG_SET_BUCKET_ANGLE {
        Some(8usize)
    } else {
        None
    }
}

/// Message size by discriminant: how many bytes, discriminant included, a
/// reader must take off the stream to hold one whole message.
pub fn action_size(tag: u32) -> (n: Option<usize>)
    ensures
        n == spec_action_size(tag),
{
    if tag == TAG_SET_DRIVE {
        Some(12)
    } else if tag == TAG_SET_BUCKET_HEIGHT || tag == TAG_SET_BUCKET_ANGLE {
        Some(8)
    } else {
        None
    }
}

/// Framing: a buffer that starts with a known discriminant and holds that
/// discriminant's whole message size decodes successfully and consumes
/// exactly that many bytes.
pub proof fn lemma_action_size_frames(b: Seq<u8>, n: usize)
    requires
        b.len() >= 4,
        spec_action_size(spec_u32_from_le_bytes(b.subrange(0, 4))) == Some(n),
        b.len() >= n,
    ensures
        spec_decode_action(b) matches Ok(p) && p.1 == n,
{
}

/// Encodes one command, self-described: discriminant plus payload.
pub fn encode_action(a: &Action) -> (b: Vec<u8>)
    ensures
        b@ == action_bytes(*a),
{
    let mut b: Vec<u8> = Vec::new();
    match *a {
        Action::SetDrive(x, y) => {
            let mut part = u32_to_le_bytes(TAG_SET_DRIVE);
            b.append(&mut part);
            let mut part = u32_to_le_bytes(x);
            b.append(&mut part);
            let mut part = u32_to_le_bytes(y);
            b.append(&mut part);
        },
        Action::SetBucketHeight(h) => {
            let mut part = u32_to_le_bytes(TAG_SET_BUCKET_HEIGHT);
            b.append(&mut part);
            let mut part = u32_to_le_bytes(h);
            b.append(&mut part);
        },
        Action::SetBucketAngle(g) => {
            let mut part = u32_to_le_bytes(TAG_SET_BUCKET_ANGLE);
            b.append(&mut part);
            let mut part = u32_to_le_bytes(g);
            b.append(&mut part);
        },
    }
    b
}

/// Decodes the command at the front of a buffer.
///
/// An empty buffer is the clean-shutdown condition; a buffer that ends
/// inside the discriminant or the payload, or whose discriminant is
/// unknown, is corrupt input. A successful decode consumes exactly the
/// bytes of one message — the consumed prefix re-encodes to itself — so
/// messages can be read back to back from one stream.
pub fn decode_action(b: &[u8]) -> (r: Result<(Action, usize), DecodeError>)
    ensures
        (match (r, spec_decode_action(b@)) {
            (Ok((a1, n1)), Ok((a2, n2))) => a1 == a2 && n1 == n2,
            (Err(e1), Err(e2)) => e1 == e2,
            _ => false,
        }),
        r matches Ok(p) ==> p.1 <= b@.len() && action_bytes(p.0) == b@.subrange(0, p.1 as int),
{
    proof {
        lemma_auto_spec_u32_to_from_le_bytes();
    }
    if b.len() == 0 {
        return Err(DecodeError::CleanShutdown);
    }
    if b.len() < 4 {
        return Err(DecodeError::Truncated);
    }
    let tag = u32_from_le_bytes(slice_subrange(b, 0, 4));
    if tag == TAG_SET_DRIVE {
        if b.len() >= 12 {
            let x = u32_from_le_bytes(slice_subrange(b, 4, 8));
            let y = u32_from_le_bytes(slice_subrange(b, 8, 12));
            let a = Action::SetDrive(x, y);
            proof {
                assert_seqs_equal!(action_bytes(a) == b@.subrange(0, 12));
            }
            Ok((a, 12))
        } else {
            Err(DecodeError::Truncated)
        }
    } else if tag == TAG_SET_BUCKET_HEIGHT {
        if b.len() >= 8 {
            let a = Action::SetBucketHeight(u32_from_le_bytes(slice_subrange(b, 4, 8)));
            proof {
                assert_seqs_equal!(action_bytes(a) == b@.subrange(0, 8));
            }
            Ok((a, 8))
        } else {
            Err(DecodeError::Truncated)
        }
    } else if tag == TAG_SET_BUCKET_ANGLE {
        if b.len() >= 8 {
            let a = Action::SetBucketAngle(u32_from_le_bytes(slice_subrange(b, 4, 8)));
            proof {
                assert_seqs_equal!(action_bytes(a) == b@.subrange(0, 8));
            }
            Ok((a, 8))
        } else {
            Err(DecodeError::Truncated)
        }
    } else {
        Err(DecodeError::UnknownTag(tag))
    }
}

/// Round trip: decoding an encoded command yields the same variant with the
/// same payload bits, and consumes the whole encoding.
pub proof fn lemma_action_round_trip(a: Action)
    ensures
        spec_decode_action(action_bytes(a)) == Ok::<(Action, int), DecodeError>(
            (a, action_bytes(a).len() as int),
        ),
{
    lemma_auto_spec_u32_to_from_le_bytes();
    let b = action_bytes(a);
    match a {
        Action::SetDrive(x, y) => {
            assert_seqs_equal!(b.subrange(0, 4) == spec_u32_to_le_bytes(TAG_SET_DRIVE));
            assert_seqs_equal!(b.subrange(4, 8) == spec_u32_to_le_bytes(x));
            assert_seqs_equal!(b.subrange(8, 12) == spec_u32_to_le_bytes(y));
        },
        Action::SetBucketHeight(h) => {
            assert_seqs_equal!(b.subrange(0, 4) == spec_u32_to_le_bytes(TAG_SET_BUCKET_HEIGHT));
            assert_seqs_equal!(b.subrange(4, 8) == spec_u32_to_le_bytes(h));
        },
        Action::SetBucketAngle(g) => {
            assert_seqs_equal!(b.subrange(0, 4) == spec_u32_to_le_bytes(TAG_SET_BUCKET_ANGLE));
            assert_seqs_equal!(b.subrange(4, 8) == spec_u32_to_le_bytes(g));
        },
    }
}

} // verus!
