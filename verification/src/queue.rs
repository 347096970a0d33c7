//! The outbound queue of one connection: a `tokio` channel without bound.
//!
//! Router, broadcaster and heartbeat offer frames to the sending half, which
//! the connection's record holds. The receiving half belongs to the
//! connection's writer, which takes the frames out in the order in which
//! they went in and ends when the sending half is gone. A queue whose
//! receiving half is gone takes nothing more. The model keeps both what a
//! queue was offered and what it took.

use vstd::prelude::*;
use tokio::sync::mpsc::{UnboundedReceiver, UnboundedSender};
use crate::envelope::Frame;
use crate::error::RelayError;
use crate::model::{enqueue, new_queue, no_frames, FrameView, QueueView};

verus! {

#[verifier::external_type_specification]
#[verifier::external_body]
#[verifier::reject_recursive_types(T)]
pub struct ExUnboundedSender<T>(UnboundedSender<T>);

#[verifier::external_type_specification]
#[verifier::external_body]
#[verifier::reject_recursive_types(T)]
pub struct ExUnboundedReceiver<T>(UnboundedReceiver<T>);

/// The frames that were handed to `send` on this sending half, oldest
/// first, whether the channel took them or not.
pub uninterp spec fn offered(sender: UnboundedSender<Frame>) -> Seq<FrameView>;

/// The frames that the channel has taken through this sending half, oldest
/// first.
pub uninterp spec fn taken(sender: UnboundedSender<Frame>) -> Seq<FrameView>;

/// `tokio::sync::mpsc::unbounded_channel`: the two halves of a new channel,
/// which was offered nothing and has taken nothing yet.
#[verifier::external_body]
fn unbounded() -> (halves: (UnboundedSender<Frame>, UnboundedReceiver<Frame>))
    ensures
        offered(halves.0) == no_frames(),
        taken(halves.0) == no_frames(),
{
    tokio::sync::mpsc::unbounded_channel()
}

/// `UnboundedSender::send`: the frame is handed to the channel, which takes
/// it behind the others, unless its receiving half is closed or gone; then
/// it takes nothing and the call says so.
#[verifier::external_body]
fn send(sender: &mut UnboundedSender<Frame>, frame: Frame) -> (accepted: bool)
    ensures
        offered(*final(sender)) == offered(*old(sender)).push(frame@),
        taken(*final(sender)) == if accepted {
            taken(*old(sender)).push(frame@)
        } else {
            taken(*old(sender))
        },
{
    sender.send(frame).is_ok()
}

/// The sending half of a connection's outbound queue.
#[derive(Debug)]
pub struct OutboundQueue {
    sender: UnboundedSender<Frame>,
}

impl View for OutboundQueue {
    type V = QueueView;

    closed spec fn view(&self) -> QueueView {
        QueueView { offered: offered(self.sender), taken: taken(self.sender) }
    }
}

impl OutboundQueue {
    /// A new queue, to which nothing was offered yet, and the receiving
    /// half for its writer.
    pub fn channel() -> (halves: (OutboundQueue, UnboundedReceiver<Frame>))
        ensures
            halves.0@ == new_queue(),
    {
        let (sender, receiver) = unbounded();
        (OutboundQueue { sender }, receiver)
    }

    /// Offers `frame` to the queue, which appends it unless the writer is
    /// gone: then the queue takes nothing and the delivery has failed.
    pub fn enqueue(&mut self, frame: Frame) -> (result: Result<(), RelayError>)
        ensures
            final(self)@ == enqueue(old(self)@, frame@, result is Ok),
            result is Err ==> result == Err::<(), RelayError>(RelayError::DeliveryFailure),
    {
        if send(&mut self.sender, frame) {
            Ok(())
        } else {
            Err(RelayError::DeliveryFailure)
        }
    }
}

} // verus!
