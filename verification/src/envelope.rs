//! The wire envelope and the items of an outbound queue.

use vstd::prelude::*;
use crate::model::{
    bare_envelope, ping_envelope, pong_envelope, welcome_envelope, EnvelopeView, FrameView,
};
use crate::wire::welcome_payload;

verus! {

/// The structured text message that peers and relay exchange.
///
/// `data` holds the payload as JSON text; the relay reads it only when it
/// binds an identity. `sender_id` is passed on as the client wrote it.
#[derive(Debug, Clone, PartialEq, Eq)]
pub struct Envelope {
    pub msg_type: String,
    pub data: Option<String>,
    pub timestamp: u64,
    pub sender_id: Option<u32>,
}

impl View for Envelope {
    type V = EnvelopeView;

    open spec fn view(&self) -> EnvelopeView {
        EnvelopeView {
            msg_type: self.msg_type@,
            data: match self.data {
                Some(text) => Some(text@),
                None => None,
            },
            timestamp: self.timestamp,
            sender_id: self.sender_id,
        }
    }
}

impl Envelope {
    /// An envelope of type `msg_type` without payload or sender.
    fn bare(msg_type: &str, timestamp: u64) -> (envelope: Envelope)
        ensures
            envelope@ == bare_envelope(msg_type@, timestamp),
    {
        Envelope { msg_type: msg_type.to_owned(), data: None, timestamp, sender_id: None }
    }

    /// The heartbeat's probe.
    pub fn ping(timestamp: u64) -> (envelope: Envelope)
        ensures
            envelope@ == ping_envelope(timestamp),
    {
        Envelope::bare("ping", timestamp)
    }

    /// The answer to a client's `ping`.
    pub fn pong(timestamp: u64) -> (envelope: Envelope)
        ensures
            envelope@ == pong_envelope(timestamp),
    {
        Envelope::bare("pong", timestamp)
    }

    /// The envelope that tells the new connection `id` its id and the
    /// server's time.
    pub fn welcome(id: &str, server_time: u64) -> (envelope: Envelope)
        ensures
            envelope@ == welcome_envelope(id@, server_time),
    {
        Envelope {
            msg_type: "welcome".to_owned(),
            data: Some(welcome_payload(id, server_time)),
            timestamp: server_time,
            sender_id: None,
        }
    }

    /// A copy with the same value.
    pub fn duplicate(&self) -> (copy: Envelope)
        ensures
            copy@ == self@,
    {
        let data = match &self.data {
            Some(text) => Some(text.clone()),
            None => None,
        };
        Envelope {
            msg_type: self.msg_type.clone(),
            data,
            timestamp: self.timestamp,
            sender_id: self.sender_id,
        }
    }
}

/// One item of an outbound queue: a text envelope or raw bytes.
#[derive(Debug, Clone, PartialEq, Eq)]
pub enum Frame {
    Text(Envelope),
    Binary(Vec<u8>),
}

impl View for Frame {
    type V = FrameView;

    open spec fn view(&self) -> FrameView {
        match self {
            Frame::Text(envelope) => FrameView::Text(envelope@),
            Frame::Binary(bytes) => FrameView::Binary(bytes@),
        }
    }
}

impl Frame {
    /// A copy with the same value.
    pub fn duplicate(&self) -> (copy: Frame)
        ensures
            copy@ == self@,
    {
        match self {
            Frame::Text(envelope) => Frame::Text(envelope.duplicate()),
            Frame::Binary(bytes) => Frame::Binary(bytes.clone()),
        }
    }
}

} // verus!
