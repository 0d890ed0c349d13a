//! The event kinds exchanged between the session core and its host.
//!
//! Events are plain values.  The host issues [`EventSendMessage`] requests;
//! the core answers over ticks with [`EventAwaitingPeer`],
//! [`EventMessageSent`], [`EventConnectedPeer`], [`EventReceiveMessage`],
//! [`EventVeilidInitialized`] and [`EventError`].

use vstd::prelude::*;

use crate::address::PeerAddress;

verus! {

/// The local network identity was established; the session handle is now
/// stored and the inbound listener may start.
#[derive(Clone, Copy, PartialEq, Eq, Structural, Debug)]
pub struct EventVeilidInitialized;

/// A host request: send `message` to the peer reachable at `dht_key`.
/// `uuid` correlates the eventual outcome with this request.
pub struct EventSendMessage<T> {
    /// The payload to deliver.
    pub message: T,
    /// The destination peer address.
    pub dht_key: PeerAddress,
    /// The correlation identifier of this request.
    pub uuid: u128,
}

impl<T> EventSendMessage<T> {
    /// Build a send request with a freshly drawn correlation identifier.
    pub fn new(message: T, dht_key: PeerAddress) -> (e: EventSendMessage<T>)
        ensures
            e.message == message,
            e.dht_key == dht_key,
    {
        EventSendMessage { message, dht_key, uuid: fresh_uuid() }
    }
}

/// An outbound send completed successfully; `uuid` is the identifier of the
/// request it answers.
#[derive(Clone, Copy, PartialEq, Eq, Structural, Debug)]
pub struct EventMessageSent {
    /// The correlation identifier of the completed request.
    pub uuid: u128,
    /// The destination the message went to.
    pub dht_key: PeerAddress,
}

/// An inbound payload arrived from the peer at `dht_key`.
pub struct EventReceiveMessage<T> {
    /// The payload received.
    pub message: T,
    /// The sender's peer address.
    pub dht_key: PeerAddress,
}

/// A send request was taken on and its outcome is not yet known.
#[derive(Clone, Copy, PartialEq, Eq, Structural, Debug)]
pub struct EventAwaitingPeer;

/// A counterpart peer proved itself alive; `dht_key` is its address.
#[derive(Clone, Copy, PartialEq, Eq, Structural, Debug)]
pub struct EventConnectedPeer {
    /// The counterpart's peer address.
    pub dht_key: PeerAddress,
}

/// Initialization or a send failed; the field describes the cause.
#[derive(Clone, Debug)]
pub struct EventError(pub String);

/// Relies on `uuid::Uuid::new_v4`, which draws a fresh random
/// version-4 identifier: the value depends on the process's source of
/// randomness, so nothing is promised of it.
#[verifier::external_body]
fn fresh_uuid() -> (id: u128) {
    uuid::Uuid::new_v4().as_u128()
}

} // verus!
