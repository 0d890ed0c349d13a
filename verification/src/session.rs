//! The peer session and the synchronous-domain event handlers.
//!
//! Every function here runs on the single thread that owns the session
//! state, once per tick.  Background work never touches that state
//! directly: what a background task learned re-enters through
//! [`on_init_result`], [`on_send_result`] and [`on_app_message`], and what
//! it must do next leaves as [`SendCommand`] values and the start-listener
//! signal of [`event_on_veilid_initialized`].

use vstd::prelude::*;

use crate::address::PeerAddress;
use crate::bus::EventQueue;
use crate::events::{
    EventAwaitingPeer, EventConnectedPeer, EventError, EventMessageSent, EventReceiveMessage,
    EventSendMessage, EventVeilidInitialized,
};
use crate::status::{spec_step, step, SessionEvent, VeilidPluginStatus};

verus! {

/// The reserved payload marker that signals the start of a logical session
/// between two peers.  The host designates one field of its payload type as
/// the marker and hands that field's value to [`on_app_message`].
pub const HANDSHAKE_SENTINEL: u64 = 1;

/// The established local identity on the overlay network, as the
/// synchronous domain sees it: the record key under which this process is
/// reachable.  The capability object that actually sends and receives
/// lives with the background domain.
#[derive(Clone, Copy, PartialEq, Eq, Structural, Debug)]
pub struct SessionHandle {
    /// The local peer's own address.
    pub our_dht_key: PeerAddress,
}

/// The process-wide peer session: the optional local session handle and
/// the optional counterpart peer.  Absent until initialization succeeds,
/// respectively until a counterpart proves itself alive.
#[derive(Clone, Copy, Debug)]
pub struct VeilidApp {
    /// The local session handle; `None` until initialization succeeds.
    pub app: Option<SessionHandle>,
    /// The counterpart peer's address, once one is connected.
    pub other_peer_dht: Option<PeerAddress>,
}

/// One background send attempt that the synchronous domain asks for:
/// deliver `message` from `origin` to `destination`, and report the
/// outcome under `uuid`.
pub struct SendCommand<T> {
    /// The payload to deliver.
    pub message: T,
    /// The local peer's address, travelling with the payload as the
    /// envelope's sender field.
    pub origin: PeerAddress,
    /// The destination peer address.
    pub destination: PeerAddress,
    /// The correlation identifier of the request this attempt answers.
    pub uuid: u128,
}

/// The send attempts that a batch of requests turns into, in request
/// order: one attempt per request, same payload, same destination, same
/// correlation identifier, with `origin` as the envelope sender.
pub open spec fn send_commands_of<T>(
    reqs: Seq<EventSendMessage<T>>,
    origin: PeerAddress,
) -> Seq<SendCommand<T>> {
    reqs.map_values(
        |e: EventSendMessage<T>|
            (SendCommand { message: e.message, origin, destination: e.dht_key, uuid: e.uuid }),
    )
}

/// The optimistic status events that a batch of requests emits: one per
/// request.
pub open spec fn awaiting_events_of<T>(reqs: Seq<EventSendMessage<T>>) -> Seq<EventAwaitingPeer> {
    reqs.map_values(|e: EventSendMessage<T>| EventAwaitingPeer)
}

/// The connected-peer events that a batch of completed sends forwards:
/// one per completion, carrying the completion's destination address.
pub open spec fn connected_events_of(evs: Seq<EventMessageSent>) -> Seq<EventConnectedPeer> {
    evs.map_values(|m: EventMessageSent| (EventConnectedPeer { dht_key: m.dht_key }))
}

/// The status after a tick's connected-peer events: the waiting session
/// connects, every other status stutters.
pub open spec fn spec_connected_status(s: VeilidPluginStatus, n: nat) -> VeilidPluginStatus {
    if s is AwaitingPeer && n > 0 {
        VeilidPluginStatus::ConnectedPeer
    } else {
        s
    }
}

/// The counterpart after a tick's connected-peer events: the first event
/// of the tick names it, and only a waiting session records one.
pub open spec fn spec_connected_counterpart(
    s: VeilidPluginStatus,
    prev: Option<PeerAddress>,
    evs: Seq<EventConnectedPeer>,
) -> Option<PeerAddress> {
    if s is AwaitingPeer && evs.len() > 0 {
        Some(evs[0].dht_key)
    } else {
        prev
    }
}

/// The status after a tick's awaiting-peer events: a send issued while
/// initialized starts the wait, every other status stutters.
pub open spec fn spec_awaiting_status(s: VeilidPluginStatus, n: nat) -> VeilidPluginStatus {
    if s is Initialized && n > 0 {
        VeilidPluginStatus::AwaitingPeer
    } else {
        s
    }
}

/// The status after a tick's error events: any error is fatal.
pub open spec fn spec_error_status(s: VeilidPluginStatus, n: nat) -> VeilidPluginStatus {
    if n > 0 {
        VeilidPluginStatus::Error
    } else {
        s
    }
}

/// The status after a tick's initialized events: initialization completes,
/// every other status stutters.
pub open spec fn spec_initialized_status(s: VeilidPluginStatus, n: nat) -> VeilidPluginStatus {
    if s is Initializing && n > 0 {
        VeilidPluginStatus::Initialized
    } else {
        s
    }
}

/// Record a connected counterpart: on the first connected-peer event of a
/// tick, a waiting session moves to `ConnectedPeer` and stores the event's
/// address as the counterpart.  A session in any other status ignores the
/// events, so a late completion cannot overwrite an established
/// counterpart.
pub fn on_ev_connected_peer(
    reader: &EventQueue<EventConnectedPeer>,
    veilid_plugin_status: &mut VeilidPluginStatus,
    veilid_app: &mut VeilidApp,
)
    ensures
        *final(veilid_plugin_status) == spec_connected_status(
            *old(veilid_plugin_status),
            reader@.visible.len(),
        ),
        final(veilid_app).other_peer_dht == spec_connected_counterpart(
            *old(veilid_plugin_status),
            old(veilid_app).other_peer_dht,
            reader@.visible,
        ),
        final(veilid_app).app == old(veilid_app).app,
{
    let evs = reader.read();
    if evs.len() > 0 {
        if *veilid_plugin_status == VeilidPluginStatus::AwaitingPeer {
            *veilid_plugin_status = step(*veilid_plugin_status, SessionEvent::HandshakeReceived);
            veilid_app.other_peer_dht = Some(evs[0].dht_key);
        }
    }
}

/// Both transition-table rows that end in `ConnectedPeer` agree: whether
/// the trigger is an inbound handshake or a completed send, the table
/// moves `AwaitingPeer` to `ConnectedPeer` and stutters elsewhere, which
/// is exactly what processing a tick's connected-peer events does.
pub proof fn lemma_connected_status_matches_table(s: VeilidPluginStatus, n: nat)
    ensures
        n > 0 ==> spec_connected_status(s, n) == spec_step(s, SessionEvent::HandshakeReceived),
        n > 0 ==> spec_connected_status(s, n) == spec_step(s, SessionEvent::SendCompleted),
        n == 0 ==> spec_connected_status(s, n) == s,
{
}

/// Start waiting for a peer: an awaiting-peer event moves an initialized
/// session to `AwaitingPeer`; every other status ignores it.
pub fn on_ev_awaiting_peer(
    reader: &EventQueue<EventAwaitingPeer>,
    veilid_plugin_status: &mut VeilidPluginStatus,
)
    ensures
        *final(veilid_plugin_status) == spec_awaiting_status(
            *old(veilid_plugin_status),
            reader@.visible.len(),
        ),
{
    if reader.read().len() > 0 {
        *veilid_plugin_status = step(*veilid_plugin_status, SessionEvent::SendIssued);
    }
}

/// Record a failure: any error event of the tick moves the session to
/// `Error`, whatever its status was.
pub fn on_ev_error(
    er_veilid_error: &EventQueue<EventError>,
    veilid_plugin_status: &mut VeilidPluginStatus,
)
    ensures
        *final(veilid_plugin_status) == spec_error_status(
            *old(veilid_plugin_status),
            er_veilid_error@.visible.len(),
        ),
{
    if er_veilid_error.read().len() > 0 {
        *veilid_plugin_status = step(*veilid_plugin_status, SessionEvent::ErrorOccurred);
    }
}

/// Treat completed sends as liveness proof: while the session awaits a
/// peer, each completion of the tick is forwarded as a connected-peer
/// event naming the completion's destination.  In any other status the
/// completions pass without effect.
pub fn on_ev_veilid_message_sent(
    er_veilid_message: &EventQueue<EventMessageSent>,
    ew_connected_peer: &mut EventQueue<EventConnectedPeer>,
    veilid_plugin_status: &VeilidPluginStatus,
)
    ensures
        *veilid_plugin_status is AwaitingPeer ==> final(ew_connected_peer)@.pending == old(ew_connected_peer)@.pending + connected_events_of(er_veilid_message@.visible),
        !(*veilid_plugin_status is AwaitingPeer) ==> final(ew_connected_peer)@.pending == old(ew_connected_peer)@.pending,
        final(ew_connected_peer)@.visible == old(ew_connected_peer)@.visible,
{
    if *veilid_plugin_status == VeilidPluginStatus::AwaitingPeer {
        let evs = er_veilid_message.read();
        let ghost evs0 = evs@;
        let n = evs.len();
        let mut i: usize = 0;
        while i < n
            invariant
                n == evs0.len(),
                evs@ == evs0,
                0 <= i <= n,
                ew_connected_peer@.pending == old(ew_connected_peer)@.pending
                    + connected_events_of(evs0.subrange(0, i as int)),
                ew_connected_peer@.visible == old(ew_connected_peer)@.visible,
            decreases n - i,
        {
            let m = evs[i];
            ew_connected_peer.send(EventConnectedPeer { dht_key: m.dht_key });
            proof {
                assert(evs0.subrange(0, i + 1) =~= evs0.subrange(0, i as int).push(evs0[i as int]));
                assert(connected_events_of(evs0.subrange(0, i + 1)) =~= connected_events_of(
                    evs0.subrange(0, i as int),
                ).push(EventConnectedPeer { dht_key: m.dht_key }));
                assert(old(ew_connected_peer)@.pending + connected_events_of(
                    evs0.subrange(0, i + 1),
                ) =~= (old(ew_connected_peer)@.pending + connected_events_of(
                    evs0.subrange(0, i as int),
                )).push(EventConnectedPeer { dht_key: m.dht_key }));
            }
            i = i + 1;
        }
        proof {
            assert(evs0.subrange(0, n as int) =~= evs0);
        }
    }
}

/// Take on the tick's send requests.  The batch is consumed either way.
/// Without a session handle every request is dropped silently: no event,
/// no command.  With a handle, each request yields exactly one send
/// command carrying the request's payload, destination and correlation
/// identifier, and one optimistic awaiting-peer event emitted before the
/// outcome is known.
pub fn on_ev_send_message<T>(
    er_send_message: &mut EventQueue<EventSendMessage<T>>,
    ew_awaiting_peer: &mut EventQueue<EventAwaitingPeer>,
    veilid_app: &VeilidApp,
    outbox: &mut Vec<SendCommand<T>>,
)
    ensures
        final(er_send_message)@.visible == Seq::<EventSendMessage<T>>::empty(),
        final(er_send_message)@.pending == old(er_send_message)@.pending,
        veilid_app.app is None ==> final(outbox)@ == old(outbox)@ && final(ew_awaiting_peer)@.pending == old(ew_awaiting_peer)@.pending,
        veilid_app.app matches Some(h) ==> final(outbox)@ == old(outbox)@ + send_commands_of(
            old(er_send_message)@.visible,
            h.our_dht_key,
        ) && final(ew_awaiting_peer)@.pending == old(ew_awaiting_peer)@.pending
            + awaiting_events_of(old(er_send_message)@.visible),
        final(ew_awaiting_peer)@.visible == old(ew_awaiting_peer)@.visible,
{
    let mut reqs = er_send_message.drain();
    let origin_dht_key = match &veilid_app.app {
        None => {
            return;
        },
        Some(h) => h.our_dht_key,
    };
    let ghost reqs0 = reqs@;
    let ghost mut i: int = 0;
    while reqs.len() > 0
        invariant
            veilid_app.app matches Some(h) && h.our_dht_key == origin_dht_key,
            0 <= i <= reqs0.len(),
            reqs@ == reqs0.subrange(i, reqs0.len() as int),
            outbox@ == old(outbox)@ + send_commands_of(reqs0.subrange(0, i), origin_dht_key),
            ew_awaiting_peer@.pending == old(ew_awaiting_peer)@.pending + awaiting_events_of(
                reqs0.subrange(0, i),
            ),
            ew_awaiting_peer@.visible == old(ew_awaiting_peer)@.visible,
        decreases reqs@.len(),
    {
        let e = reqs.remove(0);
        let ghost ge = e;
        let cmd = SendCommand {
            message: e.message,
            origin: origin_dht_key,
            destination: e.dht_key,
            uuid: e.uuid,
        };
        outbox.push(cmd);
        ew_awaiting_peer.send(EventAwaitingPeer);
        proof {
            assert(ge == reqs0[i]);
            assert(reqs@ =~= reqs0.subrange(i + 1, reqs0.len() as int));
            assert(reqs0.subrange(0, i + 1) =~= reqs0.subrange(0, i).push(ge));
            assert(send_commands_of(reqs0.subrange(0, i + 1), origin_dht_key)
                =~= send_commands_of(reqs0.subrange(0, i), origin_dht_key).push(
                SendCommand {
                    message: ge.message,
                    origin: origin_dht_key,
                    destination: ge.dht_key,
                    uuid: ge.uuid,
                },
            ));
            assert(awaiting_events_of(reqs0.subrange(0, i + 1)) =~= awaiting_events_of(
                reqs0.subrange(0, i),
            ).push(EventAwaitingPeer));
            assert(outbox@ =~= old(outbox)@ + send_commands_of(
                reqs0.subrange(0, i + 1),
                origin_dht_key,
            ));
            assert(ew_awaiting_peer@.pending =~= old(ew_awaiting_peer)@.pending
                + awaiting_events_of(reqs0.subrange(0, i + 1)));
            i = i + 1;
        }
    }
    proof {
        assert(reqs0.subrange(0, reqs0.len() as int) =~= reqs0);
    }
}

/// Issuing a batch of send requests while a session handle exists yields
/// exactly one background attempt per request — no request is duplicated
/// and none is lost — and each attempt carries its request's payload,
/// correlation identifier and destination unchanged.
pub proof fn lemma_one_attempt_per_request<T>(reqs: Seq<EventSendMessage<T>>, origin: PeerAddress)
    ensures
        send_commands_of(reqs, origin).len() == reqs.len(),
        forall|i: int|
            0 <= i < reqs.len() ==> {
                let c = #[trigger] send_commands_of(reqs, origin)[i];
                c.uuid == reqs[i].uuid && c.destination == reqs[i].dht_key && c.message == reqs[i].message
                    && c.origin == origin
            },
{
}

/// Store the outcome of initialization.  Success publishes the session
/// handle, clears any counterpart and emits the initialized event; failure
/// leaves the handle absent and emits an error event carrying the cause.
/// Exactly one event is emitted either way.
pub fn on_init_result(
    result: Result<SessionHandle, String>,
    veilid_app: &mut VeilidApp,
    ew_initialized: &mut EventQueue<EventVeilidInitialized>,
    ew_error: &mut EventQueue<EventError>,
)
    ensures
        result matches Ok(h) ==> final(veilid_app).app == Some(h) && final(veilid_app).other_peer_dht is None && final(ew_initialized)@.pending == old(ew_initialized)@.pending.push(EventVeilidInitialized) && final(ew_error)@.pending == old(ew_error)@.pending,
        result matches Err(cause) ==> final(veilid_app).app == old(veilid_app).app && final(veilid_app).other_peer_dht == old(veilid_app).other_peer_dht && final(ew_initialized)@.pending
            == old(ew_initialized)@.pending && final(ew_error)@.pending == old(ew_error)@.pending.push(EventError(cause)),
        final(ew_initialized)@.visible == old(ew_initialized)@.visible,
        final(ew_error)@.visible == old(ew_error)@.visible,
{
    match result {
        Ok(handle) => {
            veilid_app.app = Some(handle);
            veilid_app.other_peer_dht = None;
            ew_initialized.send(EventVeilidInitialized);
        },
        Err(cause) => {
            ew_error.send(EventError(cause));
        },
    }
}

/// Complete initialization on the synchronous domain: any initialized
/// event of the tick moves an initializing session to `Initialized`, and
/// the first such tick asks for the inbound listener to be started, once
/// for the whole process.  The listener runs on the session handle, which
/// the emitter of the initialized event has stored beforehand.
pub fn event_on_veilid_initialized(
    e_veilid_initialized: &EventQueue<EventVeilidInitialized>,
    veilid_plugin_status: &mut VeilidPluginStatus,
    listener_started: &mut bool,
) -> (start_listener: bool)
    ensures
        *final(veilid_plugin_status) == spec_initialized_status(
            *old(veilid_plugin_status),
            e_veilid_initialized@.visible.len(),
        ),
        *final(listener_started) == (*old(listener_started) || e_veilid_initialized@.visible.len()
            > 0),
        start_listener == (e_veilid_initialized@.visible.len() > 0 && !*old(listener_started)),
{
    let mut start = false;
    if e_veilid_initialized.read().len() > 0 {
        *veilid_plugin_status = step(*veilid_plugin_status, SessionEvent::InitSucceeded);
        if !*listener_started {
            *listener_started = true;
            start = true;
        }
    }
    start
}

/// Deliver one inbound payload to the synchronous domain: every payload
/// becomes a receive event naming its sender, and a payload whose marker
/// field equals the handshake sentinel additionally queues a
/// connected-peer event for the sender.  A non-sentinel payload queues no
/// connected-peer event, so it can never alter the counterpart address.
pub fn on_app_message<T>(
    message: T,
    sender: PeerAddress,
    marker: u64,
    ew_receive_message: &mut EventQueue<EventReceiveMessage<T>>,
    ew_connected_peer: &mut EventQueue<EventConnectedPeer>,
)
    ensures
        final(ew_receive_message)@.pending == old(ew_receive_message)@.pending.push(
            (EventReceiveMessage { message, dht_key: sender }),
        ),
        marker == HANDSHAKE_SENTINEL ==> final(ew_connected_peer)@.pending == old(ew_connected_peer)@.pending.push((EventConnectedPeer { dht_key: sender })),
        marker != HANDSHAKE_SENTINEL ==> final(ew_connected_peer)@.pending == old(ew_connected_peer)@.pending,
        final(ew_receive_message)@.visible == old(ew_receive_message)@.visible,
        final(ew_connected_peer)@.visible == old(ew_connected_peer)@.visible,
{
    ew_receive_message.send(EventReceiveMessage { message, dht_key: sender });
    if marker == HANDSHAKE_SENTINEL {
        ew_connected_peer.send(EventConnectedPeer { dht_key: sender });
    }
}

/// Report the outcome of one background send attempt.  Success emits the
/// sent confirmation carrying the attempt's correlation identifier and
/// destination; failure emits an error event carrying the cause.  Exactly
/// one of the two events is emitted, never both, never neither.
pub fn on_send_result(
    uuid: u128,
    dht_key: PeerAddress,
    result: Result<(), String>,
    ew_message_sent: &mut EventQueue<EventMessageSent>,
    ew_error: &mut EventQueue<EventError>,
)
    ensures
        result is Ok ==> final(ew_message_sent)@.pending == old(ew_message_sent)@.pending.push(
            (EventMessageSent { uuid, dht_key }),
        ) && final(ew_error)@.pending == old(ew_error)@.pending,
        result matches Err(cause) ==> final(ew_error)@.pending == old(ew_error)@.pending.push(
            EventError(cause),
        ) && final(ew_message_sent)@.pending == old(ew_message_sent)@.pending,
        final(ew_message_sent)@.visible == old(ew_message_sent)@.visible,
        final(ew_error)@.visible == old(ew_error)@.visible,
{
    match result {
        Ok(()) => {
            ew_message_sent.send(EventMessageSent { uuid, dht_key });
        },
        Err(cause) => {
            ew_error.send(EventError(cause));
        },
    }
}

} // verus!
