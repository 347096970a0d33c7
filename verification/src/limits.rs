//! The relay's fixed limits.

use vstd::prelude::*;

verus! {

/// Largest text or binary frame, in bytes, that the relay accepts.
pub const MAX_MESSAGE_SIZE: usize = 65536;

/// Capacity ceiling of the registry used by a relay with default settings.
pub const MAX_CLIENTS: usize = 10000;

/// Seconds between two heartbeats.
pub const HEARTBEAT_INTERVAL_SECS: u64 = 30;

/// Seconds between two scans of the liveness reaper.
pub const CLEANUP_INTERVAL_SECS: u64 = 60;

/// Milliseconds without a liveness acknowledgment after which a connection is
/// evicted.
pub const CLIENT_TIMEOUT_MS: u64 = 90000;

/// How often the relay draws an id for a new connection before it gives up
/// because every draw was taken.
pub const ID_DRAWS: usize = 8;

} // verus!
