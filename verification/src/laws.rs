//! What holds of the relay in every state, stated over the model and proved.

use vstd::prelude::*;
use crate::admission::admits;
use crate::error::RelayError;
use crate::limits::{CLIENT_TIMEOUT_MS, MAX_MESSAGE_SIZE};
use crate::model::{
    broadcast_to, claimed_identity, deliver, ends_session, expired, offer, pong_envelope, reap,
    passed_over, spread_to, spreads, text_size, took_once, ConnId, Directory, EnvelopeView,
    FrameView, InboundView, RecordView,
};
use crate::router::{routed, Routing};
use crate::session::{handled, Disposition};
use crate::wire::envelope_of;

verus! {

/// Admission keeps the registry under its ceiling: a connection is admitted
/// only while the registry is below the ceiling, so that with the new record
/// in it the registry is still not above it.
pub proof fn lemma_admission_keeps_ceiling(
    dir: Directory,
    capacity: usize,
    id: ConnId,
    record: RecordView,
)
    requires
        dir.dom().finite(),
        admits(dir.len(), capacity),
    ensures
        dir.insert(id, record).dom().finite(),
        dir.insert(id, record).len() <= capacity,
{
}

/// A frame that goes to all but one connection is offered to every other
/// connection exactly once, reaches each of them at most once and the one
/// never: the one's record is untouched, every other queue was offered the
/// frame once and either holds it once more than before or holds what it
/// held, no connection enters or leaves the registry, and no more queues
/// took the frame than there are other connections.
pub proof fn lemma_spread_once_never_to_skipped(
    before: Directory,
    after: Directory,
    skip: Option<ConnId>,
    frame: FrameView,
    count: nat,
    id: ConnId,
)
    requires
        before.dom().finite(),
        spread_to(before, after, skip, frame, count),
        before.dom().contains(id),
    ensures
        after.dom() == before.dom(),
        skip == Some(id) ==> after[id] == before[id],
        skip != Some(id) ==> after[id].outbound.offered == before[id].outbound.offered.push(frame),
        skip != Some(id) ==> took_once(before[id], after[id], frame) || passed_over(
            before[id],
            after[id],
            frame,
        ),
        after[id].last_liveness == before[id].last_liveness,
        after[id].identity == before[id].identity,
        count <= before.len(),
{
    let took = choose|took: Set<ConnId>| spreads(before, after, skip, frame, count, took);
    assert(after.dom() =~= before.dom());
    assert(took.subset_of(before.dom()));
    vstd::set_lib::lemma_len_subset(took, before.dom());
}

/// A broadcast is offered to every other connection exactly once, reaches
/// each of them at most once, and never reaches its sender.
pub proof fn lemma_broadcast_once_never_to_sender(
    before: Directory,
    after: Directory,
    sender: ConnId,
    frame: FrameView,
    count: nat,
    id: ConnId,
)
    requires
        before.dom().finite(),
        broadcast_to(before, after, sender, frame, count),
        before.dom().contains(id),
    ensures
        after.dom() == before.dom(),
        id == sender ==> after[id] == before[id],
        id != sender ==> after[id].outbound.offered == before[id].outbound.offered.push(frame),
        id != sender ==> took_once(before[id], after[id], frame) || passed_over(
            before[id],
            after[id],
            frame,
        ),
        count <= before.len(),
{
    lemma_spread_once_never_to_skipped(before, after, Some(sender), frame, count, id);
}

/// A queue that takes nothing holds nobody else up: whatever the others do,
/// each queue that took the frame holds it behind what it held.
pub proof fn lemma_refusal_holds_nobody_up(
    before: Directory,
    after: Directory,
    skip: Option<ConnId>,
    frame: FrameView,
    count: nat,
    took: Set<ConnId>,
    id: ConnId,
)
    requires
        spreads(before, after, skip, frame, count, took),
        took.contains(id),
    ensures
        before.dom().contains(id),
        skip != Some(id),
        after[id].outbound.taken == before[id].outbound.taken.push(frame),
{
}

/// A `ping` of a connection is answered with one `pong`, offered to that
/// connection's own queue once, and reaches no other connection. Where the
/// queue took it, it holds exactly one `pong` more; where not, it holds what
/// it held.
pub proof fn lemma_ping_answered_to_sender_alone(
    before: Directory,
    after: Directory,
    sender: ConnId,
    msg: EnvelopeView,
    timestamp: u64,
    routing: Routing,
    id: ConnId,
)
    requires
        msg.msg_type == "ping"@,
        routed(before, after, sender, msg, timestamp, routing),
        before.dom().contains(id),
    ensures
        after.dom() == before.dom(),
        id != sender ==> after[id] == before[id],
        routing matches Routing::Replied { queued } && (before.dom().contains(sender) ==> {
            &&& after[sender].outbound.offered == before[sender].outbound.offered.push(
                FrameView::Text(pong_envelope(timestamp)),
            )
            &&& after[sender].outbound.taken == if queued {
                before[sender].outbound.taken.push(FrameView::Text(pong_envelope(timestamp)))
            } else {
                before[sender].outbound.taken
            }
        }),
{
    assert(after.dom() =~= before.dom());
}

/// Of two `user_info` envelopes from one connection, the later one decides:
/// after both, the connection is bound to the user that the second names.
pub proof fn lemma_latest_identity_wins(
    before: Directory,
    between: Directory,
    after: Directory,
    sender: ConnId,
    first: EnvelopeView,
    second: EnvelopeView,
    first_time: u64,
    second_time: u64,
    first_routing: Routing,
    second_routing: Routing,
)
    requires
        before.dom().contains(sender),
        first.msg_type == "user_info"@,
        second.msg_type == "user_info"@,
        claimed_identity(second) is Some,
        routed(before, between, sender, first, first_time, first_routing),
        routed(between, after, sender, second, second_time, second_routing),
    ensures
        after[sender].identity == claimed_identity(second),
        second_routing == (Routing::Identified { identity: claimed_identity(second) }),
{
    reveal_strlit("ping");
    reveal_strlit("user_info");
    assert("ping"@.len() == 4);
    assert("user_info"@.len() == 9);
}

/// A `user_info` envelope is neither answered nor passed on: no queue
/// changes.
pub proof fn lemma_identification_is_silent(
    before: Directory,
    after: Directory,
    sender: ConnId,
    msg: EnvelopeView,
    timestamp: u64,
    routing: Routing,
    id: ConnId,
)
    requires
        msg.msg_type == "user_info"@,
        routed(before, after, sender, msg, timestamp, routing),
        before.dom().contains(id),
    ensures
        after.dom() == before.dom(),
        after[id].outbound == before[id].outbound,
{
    reveal_strlit("ping");
    reveal_strlit("user_info");
    assert("ping"@.len() == 4);
    assert("user_info"@.len() == 9);
    assert(after.dom() =~= before.dom());
}

/// A scan removes exactly the connections whose timeout has run out, and
/// leaves the others as they were.
pub proof fn lemma_scan_evicts_the_expired(dir: Directory, now: u64, id: ConnId)
    requires
        dir.dom().contains(id),
    ensures
        expired(dir[id], now) ==> !reap(dir, now).dom().contains(id),
        !expired(dir[id], now) ==> reap(dir, now).dom().contains(id) && reap(dir, now)[id]
            == dir[id],
{
}

/// Whether the scan that runs `cycles` periods after the one at `scan` comes
/// at `at`, after the deadline of connection `id` and at most `period` after
/// it, and leaves the registry without that connection.
pub open spec fn evicting_scan(
    dir: Directory,
    id: ConnId,
    scan: u64,
    period: u64,
    cycles: nat,
    at: u64,
) -> bool {
    &&& at == scan + cycles * period
    &&& dir[id].last_liveness + CLIENT_TIMEOUT_MS < at
    &&& at <= dir[id].last_liveness + CLIENT_TIMEOUT_MS + period
    &&& !reap(dir, at).dom().contains(id)
}

/// A connection that has stopped acknowledging liveness probes is gone
/// within one scan period after its timeout has run out. Let scans run
/// every `period` from a scan at `scan` that came no later than the
/// connection's deadline: then some scan of that schedule comes after the
/// deadline, at most `period` after it, and the connection is not in the
/// registry once that scan is done.
pub proof fn lemma_evicted_within_one_period(dir: Directory, id: ConnId, scan: u64, period: u64)
    requires
        dir.dom().contains(id),
        period > 0,
        scan <= dir[id].last_liveness + CLIENT_TIMEOUT_MS,
        dir[id].last_liveness + CLIENT_TIMEOUT_MS + period <= u64::MAX,
    ensures
        exists|cycles: nat, at: u64| evicting_scan(dir, id, scan, period, cycles, at),
    decreases dir[id].last_liveness + CLIENT_TIMEOUT_MS - scan,
{
    let deadline = dir[id].last_liveness + CLIENT_TIMEOUT_MS;
    let next = (scan + period) as u64;
    if scan + period > deadline {
        assert(1nat * period == period) by (nonlinear_arith);
        assert(expired(dir[id], next));
        assert(evicting_scan(dir, id, scan, period, 1nat, next));
    } else {
        lemma_evicted_within_one_period(dir, id, next, period);
        let (cycles, at) = choose|cycles: nat, at: u64|
            evicting_scan(dir, id, next, period, cycles, at);
        assert((cycles + 1) * period == cycles * period + period) by (nonlinear_arith);
        assert(evicting_scan(dir, id, scan, period, cycles + 1, at));
    }
}

/// A text frame over the size ceiling reaches nobody and costs the sender
/// nothing: the registry is as it was, and the frame does not end the
/// session, which handles the next frame as if the oversize one had never
/// come.
pub proof fn lemma_oversize_text_reaches_nobody(
    before: Directory,
    after: Directory,
    id: ConnId,
    text: Seq<char>,
    now: u64,
    timestamp: u64,
    disposition: Disposition,
)
    requires
        text_size(text) > MAX_MESSAGE_SIZE,
        handled(before, after, id, InboundView::Text(text), now, timestamp, disposition),
    ensures
        after == before,
        disposition == Disposition::Dropped(RelayError::OversizeFrame),
        !ends_session(InboundView::Text(text)),
{
}

/// A text frame that holds no envelope reaches nobody either, and does not
/// end the session.
pub proof fn lemma_malformed_text_reaches_nobody(
    before: Directory,
    after: Directory,
    id: ConnId,
    text: Seq<char>,
    now: u64,
    timestamp: u64,
    disposition: Disposition,
)
    requires
        text_size(text) <= MAX_MESSAGE_SIZE,
        envelope_of(text) is None,
        handled(before, after, id, InboundView::Text(text), now, timestamp, disposition),
    ensures
        after == before,
        disposition == Disposition::Dropped(RelayError::ParseError),
        !ends_session(InboundView::Text(text)),
{
}

/// Binary data over the size ceiling reaches nobody either.
pub proof fn lemma_oversize_binary_reaches_nobody(
    before: Directory,
    after: Directory,
    id: ConnId,
    bytes: Seq<u8>,
    now: u64,
    timestamp: u64,
    disposition: Disposition,
)
    requires
        bytes.len() > MAX_MESSAGE_SIZE,
        handled(before, after, id, InboundView::Binary(bytes), now, timestamp, disposition),
    ensures
        after == before,
        disposition == Disposition::Dropped(RelayError::OversizeFrame),
        !ends_session(InboundView::Binary(bytes)),
{
}

/// A queue keeps the order in which it took its frames: what it takes later
/// stands behind what it took earlier.
pub proof fn lemma_queue_keeps_order(record: RecordView, earlier: FrameView, later: FrameView)
    ensures
        offer(offer(record, earlier, true), later, true).outbound.taken
            == record.outbound.taken + seq![earlier, later],
{
    assert(offer(offer(record, earlier, true), later, true).outbound.taken
        =~= record.outbound.taken + seq![earlier, later]);
}

/// Sending to a connection that is not registered changes nothing.
pub proof fn lemma_unregistered_takes_nothing(
    dir: Directory,
    id: ConnId,
    frame: FrameView,
    accepted: bool,
)
    requires
        !dir.dom().contains(id),
    ensures
        deliver(dir, id, frame, accepted) == dir,
{
}

/// A frame that nobody took was still offered to every other connection,
/// and left every queue holding what it held.
pub proof fn lemma_nobody_took_leaves_queues(
    before: Directory,
    after: Directory,
    skip: Option<ConnId>,
    frame: FrameView,
    id: ConnId,
)
    requires
        spread_to(before, after, skip, frame, 0),
        before.dom().contains(id),
    ensures
        after[id].outbound.taken == before[id].outbound.taken,
        skip != Some(id) ==> passed_over(before[id], after[id], frame),
{
    let took = choose|took: Set<ConnId>| spreads(before, after, skip, frame, 0, took);
    assert(took =~= Set::<ConnId>::empty());
}

} // verus!
