//! The broadcaster: fans one message out to the queues of the other
//! connections.
//!
//! The message is offered to the queue of every other connection, once.
//! Delivery is best effort for each recipient: a queue that takes nothing is
//! passed over and the others are still offered the message. Nothing is
//! retried.

use vstd::prelude::*;
use vstd::slice::slice_to_vec;
use crate::envelope::{Envelope, Frame};
use crate::model::{
    at_most_once, broadcast_to, exactly_once, lemma_spread_reaches, others, spread, spread_to,
    spreads, ConnId, FrameView,
};
use crate::registry::{listed, Registry};

verus! {

/// The connection named by `skip`, as a value.
pub(crate) open spec fn named(skip: &Option<String>) -> Option<ConnId> {
    match skip {
        Some(id) => Some(id@),
        None => None,
    }
}

/// Offers a copy of `frame` to every connection but the one named by `skip`.
/// Returns how many queues took it.
pub(crate) fn spread_frame(registry: &mut Registry, skip: &Option<String>, frame: &Frame) -> (count:
    usize)
    ensures
        final(registry).ceiling() == old(registry).ceiling(),
        spread_to(old(registry)@, final(registry)@, named(skip), frame@, count as nat),
        at_most_once(old(registry)@, final(registry)@, named(skip), frame@),
        count <= others(old(registry)@, named(skip)).len(),
        count == others(old(registry)@, named(skip)).len() ==> exactly_once(
            old(registry)@,
            final(registry)@,
            named(skip),
            frame@,
        ),
{
    let ghost before = registry@;
    let ghost skipped: Option<ConnId> = named(skip);
    let ghost mut took: Set<ConnId> = Set::empty();
    let ids = registry.ids();
    let mut count: usize = 0;
    let mut i: usize = 0;
    while i < ids.len()
        invariant
            i <= ids.len(),
            count <= i,
            before.dom().finite(),
            registry.ceiling() == old(registry).ceiling(),
            skipped == named(skip),
            forall|a: int, b: int| 0 <= a < b < ids@.len() ==> ids@[a]@ != ids@[b]@,
            forall|a: int| 0 <= a < ids@.len() ==> before.dom().contains(#[trigger] ids@[a]@),
            registry@.dom() =~= before.dom(),
            took.finite(),
            took.len() == count,
            took.subset_of(others(before, skipped)),
            forall|id: ConnId| took.contains(id) ==> listed(ids@, i as int, id),
            forall|a: int|
                0 <= a < i ==> registry@[#[trigger] ids@[a]@] == spread(
                    before,
                    skipped,
                    frame@,
                    took,
                )[ids@[a]@],
            forall|a: int| i <= a < ids@.len() ==> registry@[#[trigger] ids@[a]@] == before[ids@[a]@],
        decreases ids.len() - i,
    {
        let ghost during = registry@;
        let ghost earlier = took;
        let spared = match skip {
            Some(id) => ids[i] == *id,
            None => false,
        };
        proof {
            if earlier.contains(ids@[i as int]@) {
                let a = choose|a: int| 0 <= a < i && #[trigger] ids@[a]@ == ids@[i as int]@;
                assert(ids@[a]@ != ids@[i as int]@);
            }
        }
        if !spared {
            let delivered = registry.deliver(ids[i].as_str(), frame.duplicate());
            if delivered {
                count = count + 1;
                proof {
                    took = earlier.insert(ids@[i as int]@);
                }
            }
        }
        proof {
            assert forall|id: ConnId| took.contains(id) implies listed(ids@, i + 1, id) by {
                if earlier.contains(id) {
                    let a = choose|a: int| 0 <= a < i && #[trigger] ids@[a]@ == id;
                    assert(0 <= a < i + 1 && ids@[a]@ == id);
                } else {
                    assert(0 <= i < i + 1 && ids@[i as int]@ == id);
                }
            }
            assert forall|a: int| 0 <= a < i + 1 implies registry@[#[trigger] ids@[a]@] == spread(
                before,
                skipped,
                frame@,
                took,
            )[ids@[a]@] by {
                if a < i {
                    assert(ids@[a]@ != ids@[i as int]@);
                    assert(during[ids@[a]@] == spread(before, skipped, frame@, earlier)[ids@[a]@]);
                }
            }
            assert forall|a: int| i + 1 <= a < ids@.len() implies registry@[#[trigger] ids@[a]@]
                == before[ids@[a]@] by {
                assert(ids@[i as int]@ != ids@[a]@);
                assert(during[ids@[a]@] == before[ids@[a]@]);
            }
        }
        i = i + 1;
    }
    proof {
        let after = registry@;
        let goal = spread(before, skipped, frame@, took);
        assert forall|id: ConnId| after.dom().contains(id) implies after[id] == goal[id] by {
            let j = choose|j: int| 0 <= j < ids@.len() && #[trigger] ids@[j]@ == id;
            assert(after[ids@[j]@] == goal[ids@[j]@]);
        }
        assert(after =~= goal);
        assert(spreads(before, after, skipped, frame@, count as nat, took));
        lemma_spread_reaches(before, after, skipped, frame@, count as nat);
    }
    count
}

/// Broadcasts the envelope `msg` for connection `sender_id`: a copy is
/// offered to the queue of every other connection, and nothing to the
/// sender's. Returns the number of connections whose queue took it.
///
/// Every other connection is offered the envelope exactly once and gets it
/// at most once, as it is, behind what its queue held; the sender, told from
/// the others by its connection id alone, is offered nothing; and no record
/// changes otherwise. Where the queue of every other connection took it,
/// each got it exactly once.
pub fn broadcast_message(registry: &mut Registry, sender_id: &str, msg: &Envelope) -> (sent_count:
    usize)
    ensures
        final(registry).ceiling() == old(registry).ceiling(),
        broadcast_to(
            old(registry)@,
            final(registry)@,
            sender_id@,
            FrameView::Text(msg@),
            sent_count as nat,
        ),
        at_most_once(
            old(registry)@,
            final(registry)@,
            Some(sender_id@),
            FrameView::Text(msg@),
        ),
        sent_count <= others(old(registry)@, Some(sender_id@)).len(),
        sent_count == others(old(registry)@, Some(sender_id@)).len() ==> exactly_once(
            old(registry)@,
            final(registry)@,
            Some(sender_id@),
            FrameView::Text(msg@),
        ),
{
    let frame = Frame::Text(msg.duplicate());
    spread_frame(registry, &Some(sender_id.to_owned()), &frame)
}

/// Broadcasts the bytes `data` for connection `sender_id`, as they are: a
/// copy is offered to the queue of every other connection, and nothing to
/// the sender's. Returns the number of connections whose queue took it.
///
/// Every other connection is offered the bytes exactly once and gets them
/// at most once, byte for byte, behind what its queue held; the sender is
/// offered nothing; and no record changes otherwise. Where the queue of
/// every other connection took them, each got them exactly once.
pub fn broadcast_binary(registry: &mut Registry, sender_id: &str, data: &[u8]) -> (sent_count:
    usize)
    ensures
        final(registry).ceiling() == old(registry).ceiling(),
        broadcast_to(
            old(registry)@,
            final(registry)@,
            sender_id@,
            FrameView::Binary(data@),
            sent_count as nat,
        ),
        at_most_once(
            old(registry)@,
            final(registry)@,
            Some(sender_id@),
            FrameView::Binary(data@),
        ),
        sent_count <= others(old(registry)@, Some(sender_id@)).len(),
        sent_count == others(old(registry)@, Some(sender_id@)).len() ==> exactly_once(
            old(registry)@,
            final(registry)@,
            Some(sender_id@),
            FrameView::Binary(data@),
        ),
{
    let frame = Frame::Binary(slice_to_vec(data));
    spread_frame(registry, &Some(sender_id.to_owned()), &frame)
}

} // verus!
