//! A verified model of a peer-to-peer messaging session for a tick-driven
//! host application.
//!
//! The library owns everything that runs on the synchronous, single-threaded
//! domain: the session lifecycle state machine, the per-kind event queues
//! that carry effects across tick boundaries, and the outbound/inbound
//! message-correlation pipeline.  Network I/O itself (establishing the local
//! identity, sending a message, the long-lived receive loop) happens on a
//! background domain outside this crate; its outcomes re-enter the
//! synchronous domain only as plain values handed to the handler functions
//! defined here, and the work it must perform leaves the synchronous domain
//! only as [`session::SendCommand`] values and the start-listener signal.

pub mod address;
pub mod bus;
pub mod events;
pub mod session;
pub mod status;
pub mod world;
