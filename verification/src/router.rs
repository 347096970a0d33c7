//! The message router: reads the type of an envelope and hands it to the
//! handler for that type, or to the broadcaster.

use vstd::prelude::*;
use crate::broadcaster::broadcast_message;
use crate::envelope::{Envelope, Frame};
use crate::model::{
    broadcast_to, claimed_identity, deliver, identify, pong_envelope, ConnId, Directory,
    EnvelopeView, FrameView,
};
use crate::payload::{json_as_u64, json_members};
use crate::registry::Registry;
use crate::wire::find_member;

verus! {

/// What the router did with an envelope.
#[derive(Debug, Clone, Copy, PartialEq, Eq)]
pub enum Routing {
    /// A `ping`: a `pong` was offered to the sender's own queue, which took
    /// it or not.
    Replied { queued: bool },
    /// A `user_info`: the sender is now bound to `identity`, or nothing
    /// changed because the payload names no user or the sender is gone.
    Identified { identity: Option<u32> },
    /// Any other type: the envelope was offered to all the others, and
    /// `sent_count` of them took it.
    Broadcast { sent_count: usize },
}

/// Whether routing the envelope `msg` of connection `sender` can turn the
/// registry `before` into `after` and report `routing`.
///
/// A `ping` is answered to the sender alone, a `user_info` binds the
/// sender's identity and reaches no queue, and anything else goes to all the
/// others as it is.
pub open spec fn routed(
    before: Directory,
    after: Directory,
    sender: ConnId,
    msg: EnvelopeView,
    timestamp: u64,
    routing: Routing,
) -> bool {
    if msg.msg_type == "ping"@ {
        &&& routing matches Routing::Replied { queued }
        &&& queued ==> before.dom().contains(sender)
        &&& after == deliver(before, sender, FrameView::Text(pong_envelope(timestamp)), queued)
    } else if msg.msg_type == "user_info"@ {
        &&& after == identify(before, sender, msg)
        &&& routing == Routing::Identified {
            identity: if before.dom().contains(sender) {
                claimed_identity(msg)
            } else {
                None
            },
        }
    } else {
        &&& routing matches Routing::Broadcast { sent_count }
        &&& broadcast_to(before, after, sender, FrameView::Text(msg), sent_count as nat)
    }
}

/// The user that a `user_info` envelope names, if its payload names one.
pub fn read_identity(msg: &Envelope) -> (identity: Option<u32>)
    ensures
        identity == claimed_identity(msg@),
{
    let payload = match &msg.data {
        Some(payload) => payload,
        None => {
            return None;
        },
    };
    let members = match json_members(payload.as_str()) {
        Some(members) => members,
        None => {
            return None;
        },
    };
    match find_member(&members, "user_id") {
        Some(text) => match json_as_u64(text.as_str()) {
            Some(user_id) => Some((user_id % 0x1_0000_0000) as u32),
            None => None,
        },
        None => None,
    }
}

/// Routes the envelope `msg` that connection `sender_id` sent. `timestamp`
/// is the wall clock's time, written into a reply.
///
/// A `ping` is answered with one `pong`, offered to the sender's own queue
/// and to nobody else's. A `user_info` binds the sender to the user that its
/// payload names, in place of any earlier binding, and is neither answered
/// nor passed on. Every other envelope is broadcast unchanged to all
/// connections but the sender.
pub fn handle_p2p_message(
    registry: &mut Registry,
    sender_id: &str,
    msg: Envelope,
    timestamp: u64,
) -> (routing: Routing)
    ensures
        final(registry).ceiling() == old(registry).ceiling(),
        routed(old(registry)@, final(registry)@, sender_id@, msg@, timestamp, routing),
{
    let ping = "ping".to_owned();
    let user_info = "user_info".to_owned();
    if msg.msg_type == ping {
        let queued = registry.deliver(sender_id, Frame::Text(Envelope::pong(timestamp)));
        Routing::Replied { queued }
    } else if msg.msg_type == user_info {
        match read_identity(&msg) {
            Some(identity) => {
                let known = registry.bind_identity(sender_id, identity);
                Routing::Identified { identity: if known { Some(identity) } else { None } }
            },
            None => Routing::Identified { identity: None },
        }
    } else {
        let sent_count = broadcast_message(registry, sender_id, &msg);
        Routing::Broadcast { sent_count }
    }
}

} // verus!
