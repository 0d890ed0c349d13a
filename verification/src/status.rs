//! The session lifecycle state machine.
//!
//! A process holds exactly one status at a time.  Transitions are driven by
//! the triggers of [`SessionEvent`]; every (status, trigger) pair that the
//! transition table does not list leaves the status unchanged, and `Error`
//! is terminal: no trigger but another error leads anywhere from it, and
//! that leads back to `Error`.

use vstd::prelude::*;

verus! {

/// The single process-wide connection status.
#[derive(Clone, Copy, PartialEq, Eq, Structural, Debug)]
pub enum VeilidPluginStatus {
    /// The local network identity is still being established.
    Initializing,
    /// The local identity exists; no peer is connected yet.
    Initialized,
    /// A send was issued and the session is waiting for proof that the
    /// counterpart is alive.
    AwaitingPeer,
    /// A counterpart peer is connected.
    ConnectedPeer,
    /// Initialization or a later operation failed; terminal.
    Error,
}

/// The trigger kinds that can drive a lifecycle transition.
#[derive(Clone, Copy, PartialEq, Eq, Structural, Debug)]
pub enum SessionEvent {
    /// The local network identity was established.
    InitSucceeded,
    /// Establishing the local network identity failed.
    InitFailed,
    /// The host issued a send request while a session handle existed.
    SendIssued,
    /// An inbound payload carrying the handshake sentinel arrived.
    HandshakeReceived,
    /// An outbound send completed successfully.
    SendCompleted,
    /// An error was reported.
    ErrorOccurred,
}

/// Does the transition table hold a row for this (status, trigger) pair?
pub open spec fn listed_transition(s: VeilidPluginStatus, e: SessionEvent) -> bool {
    ||| (s is Initializing && e is InitSucceeded)
    ||| (s is Initializing && e is InitFailed)
    ||| (s is Initialized && e is SendIssued)
    ||| (s is AwaitingPeer && e is HandshakeReceived)
    ||| (s is AwaitingPeer && e is SendCompleted)
    ||| e is ErrorOccurred
}

/// The status after processing one trigger: the table row where one is
/// listed, the old status everywhere else.
pub open spec fn spec_step(s: VeilidPluginStatus, e: SessionEvent) -> VeilidPluginStatus {
    match (s, e) {
        (_, SessionEvent::ErrorOccurred) => VeilidPluginStatus::Error,
        (VeilidPluginStatus::Initializing, SessionEvent::InitSucceeded) => VeilidPluginStatus::Initialized,
        (VeilidPluginStatus::Initializing, SessionEvent::InitFailed) => VeilidPluginStatus::Error,
        (VeilidPluginStatus::Initialized, SessionEvent::SendIssued) => VeilidPluginStatus::AwaitingPeer,
        (VeilidPluginStatus::AwaitingPeer, SessionEvent::HandshakeReceived) => VeilidPluginStatus::ConnectedPeer,
        (VeilidPluginStatus::AwaitingPeer, SessionEvent::SendCompleted) => VeilidPluginStatus::ConnectedPeer,
        (_, _) => s,
    }
}

/// Process one lifecycle trigger.
pub fn step(s: VeilidPluginStatus, e: SessionEvent) -> (r: VeilidPluginStatus)
    ensures
        r == spec_step(s, e),
{
    match (s, e) {
        (_, SessionEvent::ErrorOccurred) => VeilidPluginStatus::Error,
        (VeilidPluginStatus::Initializing, SessionEvent::InitSucceeded) => VeilidPluginStatus::Initialized,
        (VeilidPluginStatus::Initializing, SessionEvent::InitFailed) => VeilidPluginStatus::Error,
        (VeilidPluginStatus::Initialized, SessionEvent::SendIssued) => VeilidPluginStatus::AwaitingPeer,
        (VeilidPluginStatus::AwaitingPeer, SessionEvent::HandshakeReceived) => VeilidPluginStatus::ConnectedPeer,
        (VeilidPluginStatus::AwaitingPeer, SessionEvent::SendCompleted) => VeilidPluginStatus::ConnectedPeer,
        (_, _) => s,
    }
}

/// Every (status, trigger) pair outside the transition table leaves the
/// status unchanged.
pub proof fn lemma_unlisted_pair_preserves_status(s: VeilidPluginStatus, e: SessionEvent)
    requires
        !listed_transition(s, e),
    ensures
        spec_step(s, e) == s,
{
}

/// `Error` is terminal: no trigger leads out of it.
pub proof fn lemma_error_is_terminal(e: SessionEvent)
    ensures
        spec_step(VeilidPluginStatus::Error, e) == VeilidPluginStatus::Error,
{
}

} // verus!
