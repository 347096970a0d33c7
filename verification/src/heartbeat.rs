//! The heartbeat emitter: one probe to every connection, at a fixed period.

use vstd::prelude::*;
use crate::broadcaster::spread_frame;
use crate::clock::unix_time;
use crate::envelope::{Envelope, Frame};
use crate::model::{
    at_most_once, exactly_once, others, ping_envelope, spread_to, Directory, FrameView,
};
use crate::registry::Registry;

verus! {

/// Whether a beat at wall-clock time `timestamp` can turn the registry
/// `before` into `after` with `count` queues taking the probe: a `ping`
/// envelope is offered to every registered connection, whoever it is.
pub open spec fn beaten(before: Directory, after: Directory, timestamp: u64, count: nat) -> bool {
    spread_to(before, after, None, FrameView::Text(ping_envelope(timestamp)), count)
}

/// One beat at wall-clock time `timestamp`: a `ping` envelope is offered to
/// the queue of every registered connection. A queue that takes nothing
/// holds nobody else up. Returns how many queues took the probe.
pub fn heartbeat_at(registry: &mut Registry, timestamp: u64) -> (sent_count: usize)
    ensures
        final(registry).ceiling() == old(registry).ceiling(),
        beaten(old(registry)@, final(registry)@, timestamp, sent_count as nat),
        at_most_once(
            old(registry)@,
            final(registry)@,
            None,
            FrameView::Text(ping_envelope(timestamp)),
        ),
        sent_count <= others(old(registry)@, None).len(),
        sent_count == others(old(registry)@, None).len() ==> exactly_once(
            old(registry)@,
            final(registry)@,
            None,
            FrameView::Text(ping_envelope(timestamp)),
        ),
{
    let frame = Frame::Text(Envelope::ping(timestamp));
    spread_frame(registry, &None, &frame)
}

/// One beat, stamped with the wall clock's time at the call.
pub fn heartbeat(registry: &mut Registry) -> (sent_count: usize)
    ensures
        final(registry).ceiling() == old(registry).ceiling(),
        exists|timestamp: u64|
            beaten(old(registry)@, final(registry)@, timestamp, sent_count as nat),
{
    let timestamp = unix_time();
    heartbeat_at(registry, timestamp)
}

} // verus!
