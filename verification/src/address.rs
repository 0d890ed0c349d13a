//! Plain-value stand-ins for the overlay network's opaque identifiers.
//!
//! The synchronous domain never looks inside a peer address; it only copies,
//! stores and compares one.  A typed cryptographic key is therefore modelled
//! as its kind tag and its four 64-bit words, which lets contracts speak of
//! addresses by ordinary structural equality.

use vstd::prelude::*;

verus! {

/// An overlay-network peer address: the record key under which a peer is
/// reachable.
#[derive(Clone, Copy, PartialEq, Eq, Structural, Debug)]
pub struct PeerAddress {
    /// The kind tag of the key (the four-character-code of its crypto system).
    pub kind: u32,
    /// The first word of the 256-bit key value.
    pub w0: u64,
    /// The second word of the 256-bit key value.
    pub w1: u64,
    /// The third word of the 256-bit key value.
    pub w2: u64,
    /// The fourth word of the 256-bit key value.
    pub w3: u64,
}

impl PeerAddress {
    /// Build an address from its kind tag and key words.
    pub fn new(kind: u32, w0: u64, w1: u64, w2: u64, w3: u64) -> (a: PeerAddress)
        ensures
            a == (PeerAddress { kind, w0, w1, w2, w3 }),
    {
        PeerAddress { kind, w0, w1, w2, w3 }
    }
}

} // verus!
