//! The recording log: an append-only byte log holding one encoded state
//! record per tick, identical to what went over the outbound stream.
//!
//! The simulator appends every emitted record and hands the bytes out in
//! one piece for the shutdown flush. The log is a replay/audit artifact; by
//! construction its byte length is always a whole number of records.

use vstd::prelude::*;

use crate::codec::encode_state;
use crate::codec::state_bytes;
use crate::codec::STATE_RECORD_BYTES;
use crate::state::RobotState;

verus! {

/// The bytes of a sequence of state records, laid end to end in order.
pub open spec fn records_bytes(rs: Seq<RobotState>) -> Seq<u8>
    decreases rs.len(),
{
    if rs.len() == 0 {
        Seq::empty()
    } else {
        records_bytes(rs.drop_last()) + state_bytes(rs.last())
    }
}

/// Each record occupies exactly `STATE_RECORD_BYTES` bytes, so a log of n
/// records is 28·n bytes long.
pub proof fn lemma_records_bytes_len(rs: Seq<RobotState>)
    ensures
        records_bytes(rs).len() == STATE_RECORD_BYTES * rs.len(),
    decreases rs.len(),
{
    vstd::bytes::lemma_auto_spec_u32_to_from_le_bytes();
    if rs.len() > 0 {
        lemma_records_bytes_len(rs.drop_last());
    }
}

/// The append-only recording log.
pub struct Recording {
    buf: Vec<u8>,
    records: Ghost<Seq<RobotState>>,
}

impl Recording {
    /// The records appended so far, in order.
    pub closed spec fn records(self) -> Seq<RobotState> {
        self.records@
    }

    /// The bytes of the log.
    pub closed spec fn bytes(self) -> Seq<u8> {
        self.buf@
    }

    /// The log is exactly its records' encodings, laid end to end.
    pub closed spec fn well_formed(self) -> bool {
        self.buf@ == records_bytes(self.records@)
    }

    /// Starts an empty log.
    pub fn new() -> (log: Self)
        ensures
            log.well_formed(),
            log.records() == Seq::<RobotState>::empty(),
    {
        Recording { buf: Vec::new(), records: Ghost(Seq::empty()) }
    }

    /// Appends one record's encoding to the end of the log.
    pub fn append(&mut self, s: &RobotState)
        requires
            old(self).well_formed(),
        ensures
            final(self).well_formed(),
            final(self).records() == old(self).records().push(*s),
            final(self).bytes() == old(self).bytes() + state_bytes(*s),
    {
        let mut part = encode_state(s);
        self.buf.append(&mut part);
        proof {
            let rs = old(self).records@;
            self.records@ = rs.push(*s);
            assert(rs.push(*s).drop_last() =~= rs);
        }
    }

    /// The log's byte length.
    pub fn len(&self) -> (n: usize)
        ensures
            n == self.bytes().len(),
    {
        self.buf.len()
    }

    /// Hands the whole log out, for the flush at process shutdown.
    pub fn into_bytes(self) -> (b: Vec<u8>)
        ensures
            b@ == self.bytes(),
    {
        self.buf
    }
}

/// The recording length law: a well-formed log's byte length is an exact
/// multiple of the record size — one record's bytes per tick recorded.
pub proof fn lemma_recording_length(log: Recording)
    requires
        log.well_formed(),
    ensures
        log.bytes().len() == STATE_RECORD_BYTES * log.records().len(),
{
    lemma_records_bytes_len(log.records());
}

} // verus!
