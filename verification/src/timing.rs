//! The timing primitive: a precise fixed-duration sleep that both processes
//! use to hold the 50 Hz tick rate.

use vstd::prelude::*;

verus! {

/// Blocks the calling thread for one tick interval (20 ms), favoring low
/// jitter over CPU efficiency.
///
/// Relies on spin_sleep::sleep: a spin-assisted sleep for as close to the
/// given duration as the platform allows; it returns no value and computes
/// nothing.
#[verifier::external_body]
pub fn wait() {
    spin_sleep::sleep(std::time::Duration::from_millis(crate::state::TICK_MILLIS));
}

} // verus!
