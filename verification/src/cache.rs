//! The controller's state cache: a single-slot, overwrite-on-write holder
//! for the most recently received state record.
//!
//! The receiver thread overwrites the slot with every record it decodes;
//! controller logic reads the slot at any time and never blocks on the next
//! record. Nothing is queued: a write discards whatever the slot held. The
//! process shell shares one cache between its two threads behind a
//! lightweight lock.

use vstd::prelude::*;

use crate::state::RobotState;

verus! {

/// The single-slot holder of the newest state record.
pub struct StateCache {
    state: RobotState,
}

impl StateCache {
    /// The record the cache currently holds.
    pub closed spec fn cached(self) -> RobotState {
        self.state
    }

    /// The cache after one record is written: it holds that record,
    /// whatever it held before.
    pub closed spec fn with_record(self, r: RobotState) -> StateCache {
        StateCache { state: r }
    }

    /// A fresh cache holds the initial state, the same value the simulator
    /// starts from.
    pub fn new() -> (c: Self)
        ensures
            c.cached() == RobotState::initial(),
    {
        StateCache { state: RobotState::new() }
    }

    /// Overwrites the slot with the newest record; the previous record is
    /// discarded, never queued.
    pub fn store(&mut self, r: RobotState)
        ensures
            *final(self) == old(self).with_record(r),
            final(self).cached() == r,
    {
        self.state = r;
    }

    /// Returns the most recently stored record, instantaneously: reading
    /// never waits for the next incoming record.
    pub fn get_robot_state(&self) -> (r: RobotState)
        ensures
            r == self.cached(),
    {
        self.state
    }
}

/// Overwrite semantics: when the cache receives two records with no read
/// between, it afterwards holds the second one — the first is discarded,
/// never queued, whatever the cache held before.
pub proof fn lemma_cache_overwrite(c: StateCache, r1: RobotState, r2: RobotState)
    ensures
        c.with_record(r1).with_record(r2).cached() == r2,
{
}

} // verus!
