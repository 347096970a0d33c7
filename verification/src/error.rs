//! The relay's failures. Each is local to one frame or one connection.

use vstd::prelude::*;

verus! {

/// What can go wrong in the relay.
#[derive(Debug, Clone, Copy, PartialEq, Eq, Structural)]
pub enum RelayError {
    /// A text frame did not hold an envelope; the frame is dropped.
    ParseError,
    /// A frame was larger than the size ceiling; the frame is dropped.
    OversizeFrame,
    /// The registry is full; the upgrade is refused.
    CapacityExceeded,
    /// The id of a new connection is registered already; the upgrade is
    /// refused, and the connection that has the id keeps its record.
    IdTaken,
    /// Reading from or writing to the transport failed; the connection ends.
    TransportError,
    /// The queue of a recipient takes nothing more, its writer being gone;
    /// the recipient is passed over.
    DeliveryFailure,
}

} // verus!
