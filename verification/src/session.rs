//! The session handler: the lifecycle of one connection.
//!
//! A session starts `Connecting`, becomes `Open` when its record enters the
//! registry, and ends `Closed`. The connection's reader turns each thing it
//! gets from the transport into an [`Inbound`] and hands it to the session;
//! the connection's writer sends what comes out of the receiving half of
//! the connection's queue.

use vstd::prelude::*;
use tokio::sync::mpsc::UnboundedReceiver;
use crate::broadcaster::broadcast_binary;
use crate::clock::{fresh_id, unix_time};
use crate::envelope::{Envelope, Frame};
use crate::error::RelayError;
use crate::limits::{ID_DRAWS, MAX_MESSAGE_SIZE};
use crate::model::{
    acknowledge, broadcast_to, ends_session, first_free, new_queue, text_size, welcomed_record,
    ConnId, Directory, FrameView, InboundView, QueueView,
};
use crate::queue::OutboundQueue;
use crate::record::ConnectionRecord;
use crate::registry::{ids_of, Registry};
use crate::router::{handle_p2p_message, routed, Routing};
use crate::wire::{decode_envelope, envelope_of};

verus! {

/// Where a session stands in its lifecycle.
#[derive(Debug, Clone, Copy, PartialEq, Eq, Structural)]
pub enum SessionState {
    Connecting,
    Open,
    Closed,
}

/// What a connection's reader gets from the transport.
#[derive(Debug, Clone, PartialEq, Eq)]
pub enum Inbound {
    /// The peer closed the connection.
    Close,
    /// The peer acknowledged a liveness probe at the transport level.
    Pong,
    /// A text frame.
    Text(String),
    /// A binary frame.
    Binary(Vec<u8>),
    /// Any other frame of the transport.
    Other,
    /// Reading from the transport failed.
    TransportError,
}

impl View for Inbound {
    type V = InboundView;

    open spec fn view(&self) -> InboundView {
        match self {
            Inbound::Close => InboundView::Close,
            Inbound::Pong => InboundView::Pong,
            Inbound::Text(text) => InboundView::Text(text@),
            Inbound::Binary(bytes) => InboundView::Binary(bytes@),
            Inbound::Other => InboundView::Other,
            Inbound::TransportError => InboundView::TransportError,
        }
    }
}

/// What a session did with an inbound frame.
#[derive(Debug, Clone, Copy, PartialEq, Eq)]
pub enum Disposition {
    /// The peer closed the connection: the session has ended and its record
    /// is out of the registry.
    Closed,
    /// The transport failed: the session has ended and its record is out of
    /// the registry.
    Failed(RelayError),
    /// The liveness acknowledgment was recorded.
    LivenessRecorded,
    /// The frame was dropped; the connection stays open.
    Dropped(RelayError),
    /// The envelope was routed.
    Routed(Routing),
    /// The bytes were broadcast, and `sent_count` connections took them.
    RelayedBinary { sent_count: usize },
    /// Nothing was done: the frame means nothing to the relay, or the
    /// session is not open.
    Ignored,
}

/// Whether the open session `id`, handling `frame` at `now` (monotonic
/// milliseconds) with the wall clock showing `timestamp`, can turn the
/// registry `before` into `after` and report `disposition`.
pub open spec fn handled(
    before: Directory,
    after: Directory,
    id: ConnId,
    frame: InboundView,
    now: u64,
    timestamp: u64,
    disposition: Disposition,
) -> bool {
    match frame {
        InboundView::Close => after == before.remove(id) && disposition == Disposition::Closed,
        InboundView::TransportError => after == before.remove(id) && disposition
            == Disposition::Failed(RelayError::TransportError),
        InboundView::Pong => after == acknowledge(before, id, now) && disposition
            == Disposition::LivenessRecorded,
        InboundView::Text(text) => if text_size(text) > MAX_MESSAGE_SIZE {
            after == before && disposition == Disposition::Dropped(RelayError::OversizeFrame)
        } else {
            match envelope_of(text) {
                Some(msg) => {
                    &&& disposition matches Disposition::Routed(routing)
                    &&& routed(before, after, id, msg, timestamp, routing)
                },
                None => after == before && disposition == Disposition::Dropped(
                    RelayError::ParseError,
                ),
            }
        },
        InboundView::Binary(bytes) => if bytes.len() > MAX_MESSAGE_SIZE {
            after == before && disposition == Disposition::Dropped(RelayError::OversizeFrame)
        } else {
            &&& disposition matches Disposition::RelayedBinary { sent_count }
            &&& broadcast_to(before, after, id, FrameView::Binary(bytes), sent_count as nat)
        },
        InboundView::Other => after == before && disposition == Disposition::Ignored,
    }
}

/// Whether `after` is `before` with connection `id` registered at `now`
/// with the queue `queue`, to which its welcome was offered.
pub open spec fn welcomed(
    before: Directory,
    after: Directory,
    id: ConnId,
    queue: QueueView,
    now: u64,
    server_time: u64,
) -> bool {
    ||| after == before.insert(id, welcomed_record(id, queue, now, server_time, true))
    ||| after == before.insert(id, welcomed_record(id, queue, now, server_time, false))
}

/// Whether a registry of the ceiling `capacity` takes a new connection under
/// `id`: it does unless it is full, or holds the id already.
pub open spec fn admission(dir: Directory, capacity: usize, id: ConnId) -> Result<(), RelayError> {
    if dir.len() >= capacity {
        Err(RelayError::CapacityExceeded)
    } else if dir.dom().contains(id) {
        Err(RelayError::IdTaken)
    } else {
        Ok(())
    }
}

/// Whom a call that accepts a connection took in, or why it took nobody.
pub open spec fn outcome(result: Result<(Session, UnboundedReceiver<Frame>), RelayError>) -> Result<
    ConnId,
    RelayError,
> {
    match result {
        Ok(opened) => Ok(opened.0.id_spec()),
        Err(refusal) => Err(refusal),
    }
}

/// Whether accepting a connection under the first free of the ids `draws`,
/// at `now` with the wall clock showing `server_time`, can turn the registry
/// `before` of the ceiling `capacity` into `after` with the outcome
/// `outcome`.
///
/// A full registry refuses with `CapacityExceeded` and a registry that holds
/// every draw with `IdTaken`, and neither changes; otherwise the first free
/// draw is registered with a new queue, to which its welcome was offered.
pub open spec fn joined(
    before: Directory,
    after: Directory,
    capacity: usize,
    draws: Seq<ConnId>,
    now: u64,
    server_time: u64,
    outcome: Result<ConnId, RelayError>,
) -> bool {
    if before.len() >= capacity {
        after == before && outcome == Err::<ConnId, RelayError>(RelayError::CapacityExceeded)
    } else {
        match first_free(before, draws) {
            Some(id) => outcome == Ok::<ConnId, RelayError>(id) && welcomed(
                before,
                after,
                id,
                new_queue(),
                now,
                server_time,
            ),
            None => after == before && outcome == Err::<ConnId, RelayError>(RelayError::IdTaken),
        }
    }
}

/// The first free draw is one of the draws and is not registered; there is
/// one as soon as one draw is not registered.
pub proof fn lemma_first_free_is_free(dir: Directory, draws: Seq<ConnId>)
    ensures
        match first_free(dir, draws) {
            Some(id) => !dir.dom().contains(id) && draws.contains(id),
            None => forall|i: int| 0 <= i < draws.len() ==> dir.dom().contains(#[trigger] draws[i]),
        },
    decreases draws.len(),
{
    if draws.len() > 0 && dir.dom().contains(draws[0]) {
        lemma_first_free_is_free(dir, draws.drop_first());
        match first_free(dir, draws) {
            Some(id) => {
                let i = choose|i: int|
                    0 <= i < draws.drop_first().len() && draws.drop_first()[i] == id;
                assert(draws[i + 1] == id);
            },
            None => {
                assert forall|i: int| 0 <= i < draws.len() implies dir.dom().contains(
                    #[trigger] draws[i],
                ) by {
                    if i > 0 {
                        assert(draws.drop_first()[i - 1] == draws[i]);
                    }
                }
            },
        }
    } else if draws.len() > 0 {
        assert(draws[0] == draws[0]);
    }
}

/// Whether a frame of `size` bytes is over the size ceiling. The ceiling is
/// the same for text and for binary frames.
pub fn exceeds_limit(size: usize) -> (over: bool)
    ensures
        over == (size > MAX_MESSAGE_SIZE),
{
    size > MAX_MESSAGE_SIZE
}

/// One connection and its place in the lifecycle.
pub struct Session {
    id: String,
    state: SessionState,
}

impl Session {
    /// The id of the connection.
    pub closed spec fn id_spec(&self) -> ConnId {
        self.id@
    }

    /// Where the session stands.
    pub closed spec fn state_spec(&self) -> SessionState {
        self.state
    }

    /// A session for the connection `id` that has not been opened yet.
    pub fn new(id: String) -> (session: Session)
        ensures
            session.id_spec() == id@,
            session.state_spec() == SessionState::Connecting,
    {
        Session { id, state: SessionState::Connecting }
    }

    /// The id of the connection.
    pub fn id(&self) -> (id: &str)
        ensures
            id@ == self.id_spec(),
    {
        self.id.as_str()
    }

    /// Where the session stands.
    pub fn state(&self) -> (state: SessionState)
        ensures
            state == self.state_spec(),
    {
        self.state
    }

    /// Opens a connecting session at `now` (monotonic milliseconds), the
    /// wall clock showing `server_time`; the connection will send through
    /// `outbound`.
    ///
    /// A full registry refuses with `CapacityExceeded`, and a registry that
    /// holds the session's id already refuses with `IdTaken`: the registry
    /// stays as it was, and the session is closed. Otherwise a `welcome`
    /// envelope that carries the id and the server's time is offered to the
    /// queue, and a record with that queue enters the registry under the
    /// session's id, which makes the registry one larger. A session that is
    /// not connecting is left alone.
    pub fn open(
        &mut self,
        registry: &mut Registry,
        outbound: OutboundQueue,
        now: u64,
        server_time: u64,
    ) -> (result: Result<(), RelayError>)
        ensures
            final(self).id_spec() == old(self).id_spec(),
            final(registry).ceiling() == old(registry).ceiling(),
            old(self).state_spec() != SessionState::Connecting ==> {
                &&& result == Ok::<(), RelayError>(())
                &&& final(self).state_spec() == old(self).state_spec()
                &&& final(registry)@ == old(registry)@
            },
            old(self).state_spec() == SessionState::Connecting ==> result == admission(
                old(registry)@,
                old(registry).ceiling(),
                old(self).id_spec(),
            ),
            old(self).state_spec() == SessionState::Connecting && result is Err ==> {
                &&& final(self).state_spec() == SessionState::Closed
                &&& final(registry)@ == old(registry)@
            },
            old(self).state_spec() == SessionState::Connecting && result is Ok ==> {
                &&& final(self).state_spec() == SessionState::Open
                &&& final(registry)@.len() == old(registry)@.len() + 1
                &&& welcomed(
                    old(registry)@,
                    final(registry)@,
                    old(self).id_spec(),
                    outbound@,
                    now,
                    server_time,
                )
            },
    {
        match self.state {
            SessionState::Connecting => {
                if registry.len() >= registry.capacity() {
                    self.state = SessionState::Closed;
                    return Err(RelayError::CapacityExceeded);
                }
                if registry.contains(self.id.as_str()) {
                    self.state = SessionState::Closed;
                    return Err(RelayError::IdTaken);
                }
                let mut record = ConnectionRecord::new(outbound, now);
                let welcome = Frame::Text(Envelope::welcome(self.id.as_str(), server_time));
                let accepted = record.outbound.enqueue(welcome).is_ok();
                assert(record@ == welcomed_record(self.id@, outbound@, now, server_time, accepted));
                match registry.register(self.id.clone(), record) {
                    Ok(()) => {
                        self.state = SessionState::Open;
                        Ok(())
                    },
                    Err(refusal) => {
                        self.state = SessionState::Closed;
                        Err(refusal)
                    },
                }
            },
            _ => Ok(()),
        }
    }

    /// Accepts a new connection at `now` (monotonic milliseconds), the wall
    /// clock showing `server_time`, under the first of the ids `draws` that
    /// no open connection has. The receiving half of the connection's queue
    /// is for its writer.
    ///
    /// A full registry refuses with `CapacityExceeded`, whatever the draws;
    /// a registry that holds every draw refuses with `IdTaken`; a refusal
    /// leaves the registry as it was. Otherwise the session is open under
    /// the first free draw, and the registry holds its record besides those
    /// it held.
    pub fn connect_with(
        registry: &mut Registry,
        draws: &Vec<String>,
        now: u64,
        server_time: u64,
    ) -> (result: Result<(Session, UnboundedReceiver<Frame>), RelayError>)
        ensures
            final(registry).ceiling() == old(registry).ceiling(),
            joined(
                old(registry)@,
                final(registry)@,
                old(registry).ceiling(),
                ids_of(draws@),
                now,
                server_time,
                outcome(result),
            ),
            result matches Ok(opened) ==> opened.0.state_spec() == SessionState::Open,
            result is Ok ==> final(registry)@.len() == old(registry)@.len() + 1,
    {
        if registry.len() >= registry.capacity() {
            return Err(RelayError::CapacityExceeded);
        }
        let id = match registry.first_free(draws) {
            Some(id) => id,
            None => {
                return Err(RelayError::IdTaken);
            },
        };
        proof {
            lemma_first_free_is_free(registry@, ids_of(draws@));
        }
        let mut session = Session::new(id);
        let (outbound, receiver) = OutboundQueue::channel();
        match session.open(registry, outbound, now, server_time) {
            Ok(()) => Ok((session, receiver)),
            Err(refusal) => Err(refusal),
        }
    }

    /// Accepts a new connection at `now` (monotonic milliseconds): checks
    /// the registry against its ceiling, and only then draws `ID_DRAWS` ids,
    /// reads the wall clock and opens a session under the first id that no
    /// open connection has. The receiving half of the connection's queue is
    /// for its writer.
    ///
    /// A full registry refuses with `CapacityExceeded`, and a registry that
    /// holds every id that was drawn refuses with `IdTaken`; a refusal
    /// leaves the registry as it was. Otherwise the session is open under
    /// an id that was not registered, and the registry holds its record
    /// besides those it held. An empty registry that is not full refuses
    /// nobody.
    pub fn connect(registry: &mut Registry, now: u64) -> (result: Result<
        (Session, UnboundedReceiver<Frame>),
        RelayError,
    >)
        ensures
            final(registry).ceiling() == old(registry).ceiling(),
            exists|draws: Seq<ConnId>, server_time: u64|
                draws.len() == ID_DRAWS && #[trigger] joined(
                    old(registry)@,
                    final(registry)@,
                    old(registry).ceiling(),
                    draws,
                    now,
                    server_time,
                    outcome(result),
                ),
            result matches Ok(opened) ==> opened.0.state_spec() == SessionState::Open && !old(
                registry,
            )@.dom().contains(opened.0.id_spec()),
            result is Ok ==> final(registry)@.len() == old(registry)@.len() + 1,
            result is Err ==> final(registry)@ == old(registry)@,
            old(registry)@.len() >= old(registry).ceiling() <==> result == Err::<
                (Session, UnboundedReceiver<Frame>),
                RelayError,
            >(RelayError::CapacityExceeded),
            old(registry)@.len() == 0 && old(registry).ceiling() > 0 ==> result is Ok,
    {
        if registry.len() >= registry.capacity() {
            let ghost draws = Seq::new(ID_DRAWS as nat, |i: int| Seq::<char>::empty());
            assert(joined(
                registry@,
                registry@,
                registry.ceiling(),
                draws,
                now,
                0,
                Err(RelayError::CapacityExceeded),
            ));
            return Err(RelayError::CapacityExceeded);
        }
        let mut draws: Vec<String> = Vec::new();
        while draws.len() < ID_DRAWS
            invariant
                draws.len() <= ID_DRAWS,
            decreases ID_DRAWS - draws.len(),
        {
            draws.push(fresh_id());
        }
        let server_time = unix_time();
        let result = Session::connect_with(registry, &draws, now, server_time);
        proof {
            let drawn = ids_of(draws@);
            lemma_first_free_is_free(old(registry)@, drawn);
            assert(drawn.len() == ID_DRAWS);
            assert(joined(
                old(registry)@,
                registry@,
                old(registry).ceiling(),
                drawn,
                now,
                server_time,
                outcome(result),
            ));
            if old(registry)@.len() == 0 {
                assert(!old(registry)@.dom().contains(drawn[0])) by {
                    if old(registry)@.dom().contains(drawn[0]) {
                        vstd::set::axiom_set_contains_len(old(registry)@.dom(), drawn[0]);
                    }
                }
            }
        }
        result
    }

    /// Handles one inbound frame at `now` (monotonic milliseconds), the wall
    /// clock showing `timestamp`.
    ///
    /// For an open session: a close frame or a transport error ends the
    /// session and removes its record; a liveness acknowledgment is
    /// recorded; a text frame over the size ceiling is dropped unread, and
    /// one that holds no envelope is dropped, and the connection stays
    /// open either way; an envelope is routed; binary data within the
    /// ceiling is broadcast as it is, and dropped above it. A session that
    /// is not open ignores the frame.
    pub fn handle_frame_at(
        &mut self,
        registry: &mut Registry,
        frame: Inbound,
        now: u64,
        timestamp: u64,
    ) -> (disposition: Disposition)
        ensures
            final(self).id_spec() == old(self).id_spec(),
            final(registry).ceiling() == old(registry).ceiling(),
            old(self).state_spec() == SessionState::Open ==> {
                &&& handled(
                    old(registry)@,
                    final(registry)@,
                    old(self).id_spec(),
                    frame@,
                    now,
                    timestamp,
                    disposition,
                )
                &&& final(self).state_spec() == if ends_session(frame@) {
                    SessionState::Closed
                } else {
                    SessionState::Open
                }
            },
            old(self).state_spec() != SessionState::Open ==> {
                &&& final(registry)@ == old(registry)@
                &&& final(self).state_spec() == old(self).state_spec()
                &&& disposition == Disposition::Ignored
            },
    {
        match self.state {
            SessionState::Open => {},
            _ => {
                return Disposition::Ignored;
            },
        }
        match frame {
            Inbound::Close => {
                self.state = SessionState::Closed;
                registry.unregister(self.id.as_str());
                Disposition::Closed
            },
            Inbound::TransportError => {
                self.state = SessionState::Closed;
                registry.unregister(self.id.as_str());
                Disposition::Failed(RelayError::TransportError)
            },
            Inbound::Pong => {
                registry.acknowledge(self.id.as_str(), now);
                Disposition::LivenessRecorded
            },
            Inbound::Text(text) => {
                if exceeds_limit(text.as_str().len()) {
                    Disposition::Dropped(RelayError::OversizeFrame)
                } else {
                    match decode_envelope(text.as_str()) {
                        Ok(msg) => Disposition::Routed(
                            handle_p2p_message(registry, self.id.as_str(), msg, timestamp),
                        ),
                        Err(reason) => Disposition::Dropped(reason),
                    }
                }
            },
            Inbound::Binary(bytes) => {
                if exceeds_limit(bytes.len()) {
                    Disposition::Dropped(RelayError::OversizeFrame)
                } else {
                    let sent_count = broadcast_binary(registry, self.id.as_str(), bytes.as_slice());
                    Disposition::RelayedBinary { sent_count }
                }
            },
            Inbound::Other => Disposition::Ignored,
        }
    }

    /// Handles one inbound frame at `now`, reading the wall clock for the
    /// time that a reply is stamped with.
    pub fn handle_frame(&mut self, registry: &mut Registry, frame: Inbound, now: u64) -> (disposition:
        Disposition)
        ensures
            final(self).id_spec() == old(self).id_spec(),
            final(registry).ceiling() == old(registry).ceiling(),
            old(self).state_spec() == SessionState::Open ==> {
                &&& exists|timestamp: u64|
                    handled(
                        old(registry)@,
                        final(registry)@,
                        old(self).id_spec(),
                        frame@,
                        now,
                        timestamp,
                        disposition,
                    )
                &&& final(self).state_spec() == if ends_session(frame@) {
                    SessionState::Closed
                } else {
                    SessionState::Open
                }
            },
            old(self).state_spec() != SessionState::Open ==> {
                &&& final(registry)@ == old(registry)@
                &&& final(self).state_spec() == old(self).state_spec()
                &&& disposition == Disposition::Ignored
            },
    {
        let timestamp = unix_time();
        self.handle_frame_at(registry, frame, now, timestamp)
    }

    /// Ends the session. The record of an open session leaves the registry
    /// and is handed back, if the reaper has not taken it already; a session
    /// that is not open removes nothing, so that no record is removed twice.
    pub fn close(&mut self, registry: &mut Registry) -> (removed: Option<ConnectionRecord>)
        ensures
            final(self).id_spec() == old(self).id_spec(),
            final(self).state_spec() == SessionState::Closed,
            final(registry).ceiling() == old(registry).ceiling(),
            final(registry)@ == if old(self).state_spec() == SessionState::Open {
                old(registry)@.remove(old(self).id_spec())
            } else {
                old(registry)@
            },
            match removed {
                Some(record) => {
                    &&& old(self).state_spec() == SessionState::Open
                    &&& old(registry)@.dom().contains(old(self).id_spec())
                    &&& record@ == old(registry)@[old(self).id_spec()]
                },
                None => old(self).state_spec() != SessionState::Open || !old(
                    registry,
                )@.dom().contains(old(self).id_spec()),
            },
    {
        let was = self.state;
        self.state = SessionState::Closed;
        match was {
            SessionState::Open => registry.unregister(self.id.as_str()),
            _ => None,
        }
    }
}

} // verus!
