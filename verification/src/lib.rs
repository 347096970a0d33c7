//! A signalling relay: many transient peers exchange negotiation payloads and
//! application broadcasts through one hub, and nothing is persisted.
//!
//! The relay is the connection lifecycle and the fan-out engine. A
//! [`registry::Registry`] maps connection ids to records; each record holds
//! the connection's [`queue::OutboundQueue`]. A [`session::Session`] takes
//! what a connection's reader gets from the transport, the
//! [`router`] dispatches envelopes, the [`broadcaster`] fans messages out,
//! the [`heartbeat`] probes every connection and the [`reaper`] evicts the
//! silent ones. [`admission`] and [`rejection`] guard the door. Every
//! operation is one step of the mathematical model in [`model`], and
//! [`laws`] states what holds of that model in every state.
//!
//! What peers relay as binary frames are posts: [`engine::WasmEngine`] keeps
//! a peer's posts in a [`post_index::PostIndex`] and turns them to bytes and
//! back.
//!
//! Calls into other crates are confined to [`directory`], [`queue`],
//! [`payload`], [`clock`], [`codec`] and [`hashing`]; what is taken for
//! granted of them is written there.

pub mod limits;
pub mod error;
pub mod model;
pub mod envelope;
pub mod wire;
pub mod queue;
pub mod record;
pub mod directory;
pub mod registry;
pub mod admission;
pub mod rejection;
pub mod broadcaster;
pub mod router;
pub mod session;
pub mod heartbeat;
pub mod reaper;
pub mod laws;
pub mod payload;
pub mod clock;
pub mod post;
pub mod post_index;
pub mod codec;
pub mod hashing;
pub mod engine;
