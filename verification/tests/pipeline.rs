//! Tests of the outbound/inbound message-correlation pipeline.

use bevy_veilid::address::PeerAddress;
use bevy_veilid::events::EventSendMessage;
use bevy_veilid::session::{SessionHandle, HANDSHAKE_SENTINEL};
use bevy_veilid::status::VeilidPluginStatus;
use bevy_veilid::world::VeilidWorld;

fn addr(tag: u64) -> PeerAddress {
    PeerAddress { kind: 0x564c4430, w0: tag, w1: tag + 1, w2: tag + 2, w3: tag + 3 }
}

/// A world whose initialization already succeeded and whose listener runs.
fn initialized_world() -> VeilidWorld<String> {
    let mut w: VeilidWorld<String> = VeilidWorld::new();
    w.on_init_result(Ok(SessionHandle { our_dht_key: addr(100) }));
    let start_listener = w.tick();
    assert!(start_listener);
    assert_eq!(w.status(), VeilidPluginStatus::Initialized);
    w
}

#[test]
fn send_without_handle_is_dropped_silently() {
    let mut w: VeilidWorld<String> = VeilidWorld::new();
    w.send_message("lost".to_string(), addr(7));
    w.tick();
    assert_eq!(w.drain_outbox().len(), 0);
    w.tick();
    assert_eq!(w.ev_awaiting_peer.read().len(), 0);
    assert_eq!(w.ev_message_sent.read().len(), 0);
    assert_eq!(w.ev_error.read().len(), 0);
    assert_eq!(w.status(), VeilidPluginStatus::Initializing);
}

#[test]
fn each_request_yields_exactly_one_attempt_and_one_outcome() {
    let mut w = initialized_world();
    let id_a = w.send_message("a".to_string(), addr(1));
    let id_b = w.send_message("b".to_string(), addr(2));
    let id_c = w.send_message("c".to_string(), addr(3));
    w.tick();

    let cmds = w.drain_outbox();
    assert_eq!(cmds.len(), 3);
    assert_eq!(cmds[0].uuid, id_a);
    assert_eq!(cmds[1].uuid, id_b);
    assert_eq!(cmds[2].uuid, id_c);
    assert_eq!(cmds[0].destination, addr(1));
    assert_eq!(cmds[1].destination, addr(2));
    assert_eq!(cmds[2].destination, addr(3));
    assert_eq!(cmds[0].message, "a");
    assert_eq!(cmds[0].origin, addr(100));

    for cmd in &cmds {
        w.on_send_result(cmd.uuid, cmd.destination, Ok(()));
    }
    w.tick();
    let confirmations = w.ev_message_sent.read();
    assert_eq!(confirmations.len(), 3);
    assert_eq!(confirmations[0].uuid, id_a);
    assert_eq!(confirmations[1].uuid, id_b);
    assert_eq!(confirmations[2].uuid, id_c);
    assert_eq!(w.ev_error.read().len(), 0);
}

#[test]
fn a_failed_attempt_yields_one_error_and_no_confirmation() {
    let mut w = initialized_world();
    let id = w.send_message("x".to_string(), addr(4));
    w.tick();
    let cmds = w.drain_outbox();
    assert_eq!(cmds.len(), 1);
    assert_eq!(cmds[0].uuid, id);
    w.on_send_result(cmds[0].uuid, cmds[0].destination, Err("route lost".to_string()));
    w.tick();
    assert_eq!(w.ev_message_sent.read().len(), 0);
    let errors = w.ev_error.read();
    assert_eq!(errors.len(), 1);
    assert!(errors[0].0.contains("route lost"));
    w.tick();
    assert_eq!(w.status(), VeilidPluginStatus::Error);
}

#[test]
fn correlation_identifiers_are_pairwise_distinct() {
    let destination = addr(9);
    let mut ids: Vec<u128> = Vec::new();
    for i in 0..150u32 {
        let request = EventSendMessage::new(format!("payload {}", i), destination);
        ids.push(request.uuid);
    }
    let mut sorted = ids.clone();
    sorted.sort();
    for pair in sorted.windows(2) {
        assert_ne!(pair[0], pair[1]);
    }
    assert_eq!(ids.len(), 150);
}

#[test]
fn request_constructor_keeps_payload_and_destination() {
    let request = EventSendMessage::new(41u64, addr(5));
    assert_eq!(request.message, 41u64);
    assert_eq!(request.dht_key, addr(5));
}

#[test]
fn optimistic_awaiting_event_precedes_the_outcome() {
    let mut w = initialized_world();
    w.send_message("ping".to_string(), addr(1));
    w.tick();
    assert_eq!(w.drain_outbox().len(), 1);
    w.tick();
    assert_eq!(w.ev_awaiting_peer.read().len(), 1);
    assert_eq!(w.status(), VeilidPluginStatus::AwaitingPeer);
}

#[test]
fn handshake_while_awaiting_connects_and_records_sender() {
    let mut w = initialized_world();
    w.send_message("hello".to_string(), addr(1));
    w.tick();
    w.tick();
    assert_eq!(w.status(), VeilidPluginStatus::AwaitingPeer);

    let peer = addr(55);
    w.on_app_message("hello back".to_string(), peer, HANDSHAKE_SENTINEL);
    w.tick();
    assert_eq!(w.status(), VeilidPluginStatus::ConnectedPeer);
    assert_eq!(w.counterpart(), Some(peer));
    let received = w.ev_receive_message.read();
    assert_eq!(received.len(), 1);
    assert_eq!(received[0].message, "hello back");
    assert_eq!(received[0].dht_key, peer);
}

#[test]
fn non_sentinel_payload_never_alters_the_counterpart() {
    let mut w = initialized_world();
    w.send_message("hello".to_string(), addr(1));
    w.tick();
    w.tick();
    let peer = addr(55);
    w.on_app_message("hello back".to_string(), peer, HANDSHAKE_SENTINEL);
    w.tick();
    assert_eq!(w.counterpart(), Some(peer));

    w.on_app_message("chatter".to_string(), addr(77), HANDSHAKE_SENTINEL + 1);
    w.tick();
    assert_eq!(w.counterpart(), Some(peer));
    assert_eq!(w.ev_receive_message.read().len(), 1);

    // Even a sentinel payload leaves the counterpart alone once connected:
    // only a session awaiting a peer records one.
    w.on_app_message("late handshake".to_string(), addr(88), HANDSHAKE_SENTINEL);
    w.tick();
    assert_eq!(w.counterpart(), Some(peer));
    assert_eq!(w.status(), VeilidPluginStatus::ConnectedPeer);
}

#[test]
fn the_listener_is_started_exactly_once() {
    let mut w = initialized_world();
    w.on_init_result(Ok(SessionHandle { our_dht_key: addr(100) }));
    let start_again = w.tick();
    assert!(!start_again);
}

#[test]
fn a_send_while_connected_does_not_regress_the_status() {
    let mut w = initialized_world();
    w.send_message("hello".to_string(), addr(1));
    w.tick();
    assert_eq!(w.drain_outbox().len(), 1);
    w.tick();
    w.on_app_message("hi".to_string(), addr(55), HANDSHAKE_SENTINEL);
    w.tick();
    assert_eq!(w.status(), VeilidPluginStatus::ConnectedPeer);

    w.send_message("more".to_string(), addr(55));
    w.tick();
    assert_eq!(w.drain_outbox().len(), 1);
    w.tick();
    assert_eq!(w.status(), VeilidPluginStatus::ConnectedPeer);
}
