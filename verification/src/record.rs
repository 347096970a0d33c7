//! The record that the registry keeps of one connection.

use vstd::prelude::*;
use crate::model::RecordView;
use crate::queue::OutboundQueue;

verus! {

/// One open connection: its outbound queue, the time of its last liveness
/// acknowledgment (milliseconds on the relay's monotonic clock) and the user
/// it was identified as, if any.
#[derive(Debug)]
pub struct ConnectionRecord {
    pub outbound: OutboundQueue,
    pub last_liveness: u64,
    pub identity: Option<u32>,
}

impl View for ConnectionRecord {
    type V = RecordView;

    open spec fn view(&self) -> RecordView {
        RecordView {
            outbound: self.outbound@,
            last_liveness: self.last_liveness,
            identity: self.identity,
        }
    }
}

/// A record without its queue: what can be copied out of the registry.
#[derive(Debug, Clone, Copy, PartialEq, Eq)]
pub struct RecordSummary {
    pub last_liveness: u64,
    pub identity: Option<u32>,
}

impl RecordSummary {
    /// Whether this is the summary of `record`.
    pub open spec fn describes(&self, record: RecordView) -> bool {
        self.last_liveness == record.last_liveness && self.identity == record.identity
    }
}

impl ConnectionRecord {
    /// The record of a connection accepted at `now`, which sends through
    /// `outbound` and has no identity yet.
    pub fn new(outbound: OutboundQueue, now: u64) -> (record: ConnectionRecord)
        ensures
            record@ == (RecordView { outbound: outbound@, last_liveness: now, identity: None }),
    {
        ConnectionRecord { outbound, last_liveness: now, identity: None }
    }

    /// The record without its queue.
    pub fn summary(&self) -> (summary: RecordSummary)
        ensures
            summary.describes(self@),
    {
        RecordSummary { last_liveness: self.last_liveness, identity: self.identity }
    }
}

} // verus!
