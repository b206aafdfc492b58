//! Core of a fixed-rate actuator simulation protocol: a bucket-loader-like
//! simulator and a controller exchange binary messages over a pair of byte
//! streams, at 50 ticks per second.
//!
//! The library holds everything with a contract worth proving: the fixed
//! 28-byte state-record layout and the self-delimiting action encoding
//! ([`codec`]), the simulator's target setpoints and how each command updates
//! them ([`state`]), the controller's single-slot overwrite-on-write state
//! cache ([`cache`]), and the append-only recording log ([`recording`]).
//! Every floating-point scalar is carried as its raw 32-bit pattern, so all
//! of these are proved bit-for-bit; the processes around the library convert
//! to and from native floats at their edges and do the stream I/O.

pub mod cache;
pub mod codec;
pub mod recording;
pub mod state;
pub mod timing;

pub use cache::StateCache;
pub use codec::{decode_action, decode_state, encode_action, encode_state, DecodeError};
pub use recording::Recording;
pub use state::{Action, RobotState, Targets};
pub use timing::wait;
