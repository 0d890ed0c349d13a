//! Tests of the lifecycle state machine: every listed transition, and the
//! stutter on every unlisted (status, trigger) pair.

use bevy_veilid::status::{step, SessionEvent, VeilidPluginStatus};

const ALL_STATUSES: [VeilidPluginStatus; 5] = [
    VeilidPluginStatus::Initializing,
    VeilidPluginStatus::Initialized,
    VeilidPluginStatus::AwaitingPeer,
    VeilidPluginStatus::ConnectedPeer,
    VeilidPluginStatus::Error,
];

const ALL_EVENTS: [SessionEvent; 6] = [
    SessionEvent::InitSucceeded,
    SessionEvent::InitFailed,
    SessionEvent::SendIssued,
    SessionEvent::HandshakeReceived,
    SessionEvent::SendCompleted,
    SessionEvent::ErrorOccurred,
];

fn listed(s: VeilidPluginStatus, e: SessionEvent) -> bool {
    matches!(
        (s, e),
        (VeilidPluginStatus::Initializing, SessionEvent::InitSucceeded)
            | (VeilidPluginStatus::Initializing, SessionEvent::InitFailed)
            | (VeilidPluginStatus::Initialized, SessionEvent::SendIssued)
            | (VeilidPluginStatus::AwaitingPeer, SessionEvent::HandshakeReceived)
            | (VeilidPluginStatus::AwaitingPeer, SessionEvent::SendCompleted)
            | (_, SessionEvent::ErrorOccurred)
    )
}

#[test]
fn step_follows_the_table() {
    assert_eq!(
        step(VeilidPluginStatus::Initializing, SessionEvent::InitSucceeded),
        VeilidPluginStatus::Initialized
    );
    assert_eq!(
        step(VeilidPluginStatus::Initializing, SessionEvent::InitFailed),
        VeilidPluginStatus::Error
    );
    assert_eq!(
        step(VeilidPluginStatus::Initialized, SessionEvent::SendIssued),
        VeilidPluginStatus::AwaitingPeer
    );
    assert_eq!(
        step(VeilidPluginStatus::AwaitingPeer, SessionEvent::HandshakeReceived),
        VeilidPluginStatus::ConnectedPeer
    );
    assert_eq!(
        step(VeilidPluginStatus::AwaitingPeer, SessionEvent::SendCompleted),
        VeilidPluginStatus::ConnectedPeer
    );
    for s in ALL_STATUSES {
        assert_eq!(step(s, SessionEvent::ErrorOccurred), VeilidPluginStatus::Error);
    }
}

#[test]
fn unlisted_pairs_leave_status_unchanged() {
    for s in ALL_STATUSES {
        for e in ALL_EVENTS {
            if !listed(s, e) {
                assert_eq!(step(s, e), s);
            }
        }
    }
}

#[test]
fn error_is_terminal() {
    for e in ALL_EVENTS {
        assert_eq!(step(VeilidPluginStatus::Error, e), VeilidPluginStatus::Error);
    }
}
