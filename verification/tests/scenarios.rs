//! End-to-end runs of the session over several ticks.

use bevy_veilid::address::PeerAddress;
use bevy_veilid::session::SessionHandle;
use bevy_veilid::status::VeilidPluginStatus;
use bevy_veilid::world::VeilidWorld;

fn addr(tag: u64) -> PeerAddress {
    PeerAddress { kind: 0x564c4430, w0: tag, w1: 0, w2: 0, w3: 0 }
}

#[test]
fn successful_session_reaches_connected_peer() {
    let mut w: VeilidWorld<String> = VeilidWorld::new();
    assert_eq!(w.status(), VeilidPluginStatus::Initializing);

    // Initialization succeeds on the background domain.
    w.on_init_result(Ok(SessionHandle { our_dht_key: addr(100) }));
    let start_listener = w.tick();
    assert!(start_listener);
    assert_eq!(w.status(), VeilidPluginStatus::Initialized);

    // The host sends a handshake payload to peer 1.
    let peer1 = addr(1);
    let id = w.send_message("handshake".to_string(), peer1);
    w.tick();
    let cmds = w.drain_outbox();
    assert_eq!(cmds.len(), 1);
    assert_eq!(cmds[0].uuid, id);
    assert_eq!(cmds[0].destination, peer1);
    w.tick();
    assert_eq!(w.status(), VeilidPluginStatus::AwaitingPeer);

    // The send later succeeds; the completion is liveness proof.
    w.on_send_result(id, peer1, Ok(()));
    w.tick();
    let confirmations = w.ev_message_sent.read();
    assert_eq!(confirmations.len(), 1);
    assert_eq!(confirmations[0].uuid, id);
    assert_eq!(confirmations[0].dht_key, peer1);
    w.tick();
    assert_eq!(w.status(), VeilidPluginStatus::ConnectedPeer);
    assert_eq!(w.counterpart(), Some(peer1));
}

#[test]
fn failed_initialization_reaches_error() {
    let mut w: VeilidWorld<String> = VeilidWorld::new();
    w.on_init_result(Err("network unreachable".to_string()));
    let start_listener = w.tick();
    assert!(!start_listener);
    assert_eq!(w.status(), VeilidPluginStatus::Error);
    let errors = w.ev_error.read();
    assert_eq!(errors.len(), 1);
    assert!(errors[0].0.contains("network unreachable"));
}

#[test]
fn the_handle_stays_absent_after_failed_initialization() {
    let mut w: VeilidWorld<String> = VeilidWorld::new();
    w.on_init_result(Err("network unreachable".to_string()));
    w.tick();
    // A later send request still finds no handle and is dropped.
    w.send_message("lost".to_string(), addr(3));
    w.tick();
    assert_eq!(w.drain_outbox().len(), 0);
    assert_eq!(w.status(), VeilidPluginStatus::Error);
}
