//! The mathematical model that the contracts of this crate speak of.
//!
//! A registry is a finite map from connection ids to records; a record holds
//! what the connection's outbound queue was offered and what it has taken,
//! the time of its last liveness acknowledgment and its bound identity.
//! Every operation of the relay is a function on such maps, of its arguments
//! and of which queues took what they were offered: a queue whose writer is
//! gone takes nothing, and only the attempt shows it.

use vstd::prelude::*;
use vstd::utf8::encode_utf8;
use crate::limits::CLIENT_TIMEOUT_MS;
use crate::payload::{json_members_of, json_u64_value};
use crate::wire::{member, welcome_payload_text};

verus! {

/// A connection id: the characters of the token.
pub type ConnId = Seq<char>;

/// An envelope as a value.
pub struct EnvelopeView {
    pub msg_type: Seq<char>,
    pub data: Option<Seq<char>>,
    pub timestamp: u64,
    pub sender_id: Option<u32>,
}

/// One item of an outbound queue.
pub enum FrameView {
    Text(EnvelopeView),
    Binary(Seq<u8>),
}

/// An outbound queue: the frames that it was offered, and those of them
/// that it took, both oldest first. What it took is what its writer sends,
/// in this order.
pub struct QueueView {
    pub offered: Seq<FrameView>,
    pub taken: Seq<FrameView>,
}

/// A connection record.
pub struct RecordView {
    pub outbound: QueueView,
    pub last_liveness: u64,
    pub identity: Option<u32>,
}

/// The registry: connection id to record.
pub type Directory = Map<ConnId, RecordView>;

/// The registry that holds no connection.
pub open spec fn empty_directory() -> Directory {
    Map::empty()
}

/// No frames.
pub open spec fn no_frames() -> Seq<FrameView> {
    Seq::empty()
}

/// A new queue: nothing was offered to it yet.
pub open spec fn new_queue() -> QueueView {
    QueueView { offered: Seq::empty(), taken: Seq::empty() }
}

/// The queue after `frame` was offered to it, and it took the frame or not.
pub open spec fn enqueue(queue: QueueView, frame: FrameView, accepted: bool) -> QueueView {
    QueueView {
        offered: queue.offered.push(frame),
        taken: if accepted {
            queue.taken.push(frame)
        } else {
            queue.taken
        },
    }
}

/// The record after `frame` was offered to its queue, which took it or not.
pub open spec fn offer(record: RecordView, frame: FrameView, accepted: bool) -> RecordView {
    RecordView { outbound: enqueue(record.outbound, frame, accepted), ..record }
}

/// The registry after `frame` was offered to connection `id` alone, whose
/// queue took it or not. An id that is not registered receives nothing.
pub open spec fn deliver(dir: Directory, id: ConnId, frame: FrameView, accepted: bool) -> Directory {
    if dir.dom().contains(id) {
        dir.insert(id, offer(dir[id], frame, accepted))
    } else {
        dir
    }
}

/// The connections that a frame is offered to when it goes to all but the
/// one named by `skip`.
pub open spec fn others(dir: Directory, skip: Option<ConnId>) -> Set<ConnId> {
    Set::new(|id: ConnId| dir.dom().contains(id) && skip != Some(id))
}

/// The registry after `frame` was offered once to every connection but the
/// one named by `skip`, and the queues of `took` took it.
pub open spec fn spread(
    dir: Directory,
    skip: Option<ConnId>,
    frame: FrameView,
    took: Set<ConnId>,
) -> Directory {
    Map::new(
        |id: ConnId| dir.dom().contains(id),
        |id: ConnId|
            if skip == Some(id) {
                dir[id]
            } else {
                offer(dir[id], frame, took.contains(id))
            },
    )
}

/// The registry after `sender` broadcast `frame`: every other connection was
/// offered it once, the queues of `took` took it, and `sender` was offered
/// nothing.
pub open spec fn fan_out(
    dir: Directory,
    sender: ConnId,
    frame: FrameView,
    took: Set<ConnId>,
) -> Directory {
    spread(dir, Some(sender), frame, took)
}

/// The registry after `frame` was offered once to every connection, and the
/// queues of `took` took it.
pub open spec fn fan_out_all(dir: Directory, frame: FrameView, took: Set<ConnId>) -> Directory {
    spread(dir, None, frame, took)
}

/// Whether `took` can be the connections that took a frame offered to all
/// of `before` but `skip`, `count` can be their number, and `after` the
/// registry that this leaves.
pub open spec fn spreads(
    before: Directory,
    after: Directory,
    skip: Option<ConnId>,
    frame: FrameView,
    count: nat,
    took: Set<ConnId>,
) -> bool {
    &&& took.subset_of(others(before, skip))
    &&& took.finite()
    &&& took.len() == count
    &&& after == spread(before, skip, frame, took)
}

/// Whether `after` is `before` with `frame` offered once to every
/// connection but `skip`, of which `count` took it.
pub open spec fn spread_to(
    before: Directory,
    after: Directory,
    skip: Option<ConnId>,
    frame: FrameView,
    count: nat,
) -> bool {
    exists|took: Set<ConnId>| spreads(before, after, skip, frame, count, took)
}

/// Whether `after` is `before` with `frame` broadcast by `sender`, and
/// `count` connections took it.
pub open spec fn broadcast_to(
    before: Directory,
    after: Directory,
    sender: ConnId,
    frame: FrameView,
    count: nat,
) -> bool {
    spread_to(before, after, Some(sender), frame, count)
}

/// Whether the queue of `after` was offered `frame` once and took it: it
/// holds the frame once more than that of `before`, behind what it held, and
/// the records are otherwise the same.
pub open spec fn took_once(before: RecordView, after: RecordView, frame: FrameView) -> bool {
    after == offer(before, frame, true)
}

/// Whether the queue of `after` was offered `frame` once and took nothing:
/// it holds what that of `before` held, and the records are otherwise the
/// same.
pub open spec fn passed_over(before: RecordView, after: RecordView, frame: FrameView) -> bool {
    after == offer(before, frame, false)
}

/// Whether `frame` was offered once to every connection but the one named
/// by `skip`, and so reached each of them at most once and `skip` never: no
/// connection entered or left the registry, the record of `skip` is as it
/// was, and every other queue was offered the frame once and either took it
/// or took nothing.
pub open spec fn at_most_once(
    before: Directory,
    after: Directory,
    skip: Option<ConnId>,
    frame: FrameView,
) -> bool {
    &&& after.dom() == before.dom()
    &&& forall|id: ConnId|
        others(before, skip).contains(id) ==> took_once(before[id], #[trigger] after[id], frame)
            || passed_over(before[id], after[id], frame)
    &&& forall|id: ConnId|
        before.dom().contains(id) && skip == Some(id) ==> #[trigger] after[id] == before[id]
}

/// Whether `frame` reached every connection but the one named by `skip`
/// exactly once: each of their queues holds it once more.
pub open spec fn exactly_once(
    before: Directory,
    after: Directory,
    skip: Option<ConnId>,
    frame: FrameView,
) -> bool {
    forall|id: ConnId|
        others(before, skip).contains(id) ==> took_once(before[id], #[trigger] after[id], frame)
}

/// What a frame that goes to all but `skip` does to the registry, when
/// `count` queues took it: it reached nobody twice and `skip` never, no more
/// queues took it than it was offered to, and if as many took it, it
/// reached each of them exactly once.
pub proof fn lemma_spread_reaches(
    before: Directory,
    after: Directory,
    skip: Option<ConnId>,
    frame: FrameView,
    count: nat,
)
    requires
        before.dom().finite(),
        spread_to(before, after, skip, frame, count),
    ensures
        at_most_once(before, after, skip, frame),
        others(before, skip).finite(),
        count <= others(before, skip).len(),
        count == others(before, skip).len() ==> exactly_once(before, after, skip, frame),
{
    let took = choose|took: Set<ConnId>| spreads(before, after, skip, frame, count, took);
    let offered = others(before, skip);
    assert(after.dom() =~= before.dom());
    assert(offered.subset_of(before.dom()));
    vstd::set_lib::lemma_len_subset(offered, before.dom());
    vstd::set_lib::lemma_len_subset(took, offered);
    if count == offered.len() {
        vstd::set_lib::lemma_subset_equality(took, offered);
    }
}

/// Whether a record has gone without a liveness acknowledgment for longer
/// than the timeout at time `now` (milliseconds on the relay's monotonic
/// clock). A record acknowledged after `now` has not expired.
pub open spec fn expired(record: RecordView, now: u64) -> bool {
    now as int - record.last_liveness as int > CLIENT_TIMEOUT_MS as int
}

/// The registry after a scan of the reaper at time `now`: the expired
/// records are gone, the others untouched.
pub open spec fn reap(dir: Directory, now: u64) -> Directory {
    Map::new(
        |id: ConnId| dir.dom().contains(id) && !expired(dir[id], now),
        |id: ConnId| dir[id],
    )
}

/// The registry after connection `id` acknowledged a liveness probe at `now`.
pub open spec fn acknowledge(dir: Directory, id: ConnId, now: u64) -> Directory {
    if dir.dom().contains(id) {
        dir.insert(id, RecordView { last_liveness: now, ..dir[id] })
    } else {
        dir
    }
}

/// The registry after connection `id` was bound to `identity`.
pub open spec fn bind(dir: Directory, id: ConnId, identity: u32) -> Directory {
    if dir.dom().contains(id) {
        dir.insert(id, RecordView { identity: Some(identity), ..dir[id] })
    } else {
        dir
    }
}

/// The first of `draws` that no connection of the registry has, if there
/// is one.
pub open spec fn first_free(dir: Directory, draws: Seq<ConnId>) -> Option<ConnId>
    decreases draws.len(),
{
    if draws.len() == 0 {
        None
    } else if !dir.dom().contains(draws[0]) {
        Some(draws[0])
    } else {
        first_free(dir, draws.drop_first())
    }
}

/// The envelope without payload that the relay writes itself: a `ping` or a
/// `pong`.
pub open spec fn bare_envelope(msg_type: Seq<char>, timestamp: u64) -> EnvelopeView {
    EnvelopeView { msg_type, data: None, timestamp, sender_id: None }
}

/// The heartbeat's probe.
pub open spec fn ping_envelope(timestamp: u64) -> EnvelopeView {
    bare_envelope("ping"@, timestamp)
}

/// The answer to a client's `ping`.
pub open spec fn pong_envelope(timestamp: u64) -> EnvelopeView {
    bare_envelope("pong"@, timestamp)
}

/// The envelope that tells a new connection its id and the server's time.
pub open spec fn welcome_envelope(id: ConnId, server_time: u64) -> EnvelopeView {
    EnvelopeView {
        msg_type: "welcome"@,
        data: Some(welcome_payload_text(id, server_time)),
        timestamp: server_time,
        sender_id: None,
    }
}

/// The record of a connection that was accepted at `now` with the queue
/// `before`, to which its welcome was then offered.
pub open spec fn welcomed_record(
    id: ConnId,
    before: QueueView,
    now: u64,
    server_time: u64,
    accepted: bool,
) -> RecordView {
    offer(
        RecordView { outbound: before, last_liveness: now, identity: None },
        FrameView::Text(welcome_envelope(id, server_time)),
        accepted,
    )
}

/// The number that the payload `payload` holds under `user_id`: the payload
/// is a JSON object, it has that member, and the member is an integer from
/// 0 to 2^64 - 1.
pub open spec fn user_id_of(payload: Seq<char>) -> Option<u64> {
    match json_members_of(payload) {
        Some(members) => match member(members, "user_id"@) {
            Some(text) => json_u64_value(text),
            None => None,
        },
        None => None,
    }
}

/// The user that a `user_info` envelope names: the number under `user_id` in
/// its payload, cut to 32 bits.
pub open spec fn claimed_identity(msg: EnvelopeView) -> Option<u32> {
    match msg.data {
        Some(payload) => match user_id_of(payload) {
            Some(user_id) => Some((user_id % 0x1_0000_0000) as u32),
            None => None,
        },
        None => None,
    }
}

/// The registry after a `user_info` envelope of connection `sender`: the
/// sender is bound to the user that the envelope names, if it names one.
pub open spec fn identify(dir: Directory, sender: ConnId, msg: EnvelopeView) -> Directory {
    match claimed_identity(msg) {
        Some(identity) => bind(dir, sender, identity),
        None => dir,
    }
}

/// What a connection's reader gets from the transport.
pub enum InboundView {
    Close,
    Pong,
    Text(Seq<char>),
    Binary(Seq<u8>),
    Other,
    TransportError,
}

/// The size of a text frame: the number of bytes of its UTF-8 encoding, as
/// the length of a string is measured.
pub open spec fn text_size(text: Seq<char>) -> usize {
    encode_utf8(text).len() as usize
}

/// Whether a frame ends the session that receives it.
pub open spec fn ends_session(frame: InboundView) -> bool {
    frame is Close || frame is TransportError
}

} // verus!
