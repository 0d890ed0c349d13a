//! The synchronous domain in one place: the session, its status, the
//! per-kind event queues and the outbox of pending background work.
//!
//! A host drives a [`VeilidWorld`] once per iteration of its main loop:
//! it calls [`VeilidWorld::tick`], performs the send commands drained from
//! the outbox on its background domain, starts the inbound listener when
//! the tick asks for it, and hands each background outcome back through
//! [`VeilidWorld::on_init_result`], [`VeilidWorld::on_send_result`] and
//! [`VeilidWorld::on_app_message`].

use vstd::prelude::*;

use crate::address::PeerAddress;
use crate::bus::EventQueue;
use crate::events::{
    EventAwaitingPeer, EventConnectedPeer, EventError, EventMessageSent, EventReceiveMessage,
    EventSendMessage, EventVeilidInitialized,
};
use crate::session::{
    awaiting_events_of, connected_events_of, event_on_veilid_initialized, on_app_message,
    on_ev_awaiting_peer, on_ev_connected_peer, on_ev_error, on_ev_send_message,
    on_ev_veilid_message_sent, on_init_result, on_send_result, send_commands_of,
    spec_awaiting_status, spec_connected_counterpart, spec_connected_status, spec_error_status,
    spec_initialized_status, SendCommand, SessionHandle, VeilidApp,
};
use crate::status::VeilidPluginStatus;

verus! {

/// Everything the synchronous domain owns, for one payload type `T`.
pub struct VeilidWorld<T> {
    /// The peer session: local handle and counterpart, both optional.
    pub veilid_app: VeilidApp,
    /// The current lifecycle status.
    pub veilid_plugin_status: VeilidPluginStatus,
    /// Whether the inbound listener was already asked for.
    pub listener_started: bool,
    /// Initialization completed.
    pub ev_initialized: EventQueue<EventVeilidInitialized>,
    /// Host send requests, consumed by the outbound pipeline.
    pub ev_send_message: EventQueue<EventSendMessage<T>>,
    /// Optimistic waiting-for-peer notifications.
    pub ev_awaiting_peer: EventQueue<EventAwaitingPeer>,
    /// Confirmations of completed sends.
    pub ev_message_sent: EventQueue<EventMessageSent>,
    /// A counterpart peer proved itself alive.
    pub ev_connected_peer: EventQueue<EventConnectedPeer>,
    /// Failures of initialization or of sends.
    pub ev_error: EventQueue<EventError>,
    /// Inbound payloads.
    pub ev_receive_message: EventQueue<EventReceiveMessage<T>>,
    /// Background send attempts asked for and not yet handed out.
    pub outbox: Vec<SendCommand<T>>,
}

impl<T> VeilidWorld<T> {
    /// The status the next tick ends with, given the events now pending:
    /// the handlers run in tick order on the events the tick boundary
    /// makes readable.
    pub open spec fn spec_tick_status(self) -> VeilidPluginStatus {
        spec_error_status(
            spec_awaiting_status(
                spec_connected_status(
                    spec_initialized_status(
                        self.veilid_plugin_status,
                        self.ev_initialized@.pending.len(),
                    ),
                    self.ev_connected_peer@.pending.len(),
                ),
                self.ev_awaiting_peer@.pending.len(),
            ),
            self.ev_error@.pending.len(),
        )
    }

    /// The counterpart address the next tick ends with.
    pub open spec fn spec_tick_counterpart(self) -> Option<PeerAddress> {
        spec_connected_counterpart(
            spec_initialized_status(self.veilid_plugin_status, self.ev_initialized@.pending.len()),
            self.veilid_app.other_peer_dht,
            self.ev_connected_peer@.pending,
        )
    }

    /// The outbox the next tick ends with: one send command per pending
    /// request if a session handle exists, nothing new otherwise.
    pub open spec fn spec_tick_outbox(self) -> Seq<SendCommand<T>> {
        match self.veilid_app.app {
            Some(h) => self.outbox@ + send_commands_of(
                self.ev_send_message@.pending,
                h.our_dht_key,
            ),
            None => self.outbox@,
        }
    }

    /// The awaiting-peer events the next tick leaves pending: one per
    /// processed request if a session handle exists, none otherwise.
    pub open spec fn spec_tick_awaiting_pending(self) -> Seq<EventAwaitingPeer> {
        if self.veilid_app.app is Some {
            awaiting_events_of(self.ev_send_message@.pending)
        } else {
            Seq::<EventAwaitingPeer>::empty()
        }
    }

    /// The connected-peer events the next tick leaves pending: completed
    /// sends forwarded as liveness proof, but only while the session is
    /// awaiting a peer when they are processed.
    pub open spec fn spec_tick_connected_pending(self) -> Seq<EventConnectedPeer> {
        if spec_initialized_status(
            self.veilid_plugin_status,
            self.ev_initialized@.pending.len(),
        ) is AwaitingPeer {
            connected_events_of(self.ev_message_sent@.pending)
        } else {
            Seq::<EventConnectedPeer>::empty()
        }
    }

    /// Whether the next tick asks for the inbound listener to start.
    pub open spec fn spec_tick_starts_listener(self) -> bool {
        self.ev_initialized@.pending.len() > 0 && !self.listener_started
    }

    /// A fresh synchronous domain: initializing, no handle, no
    /// counterpart, no listener, every queue empty, nothing to do.
    pub fn new() -> (w: VeilidWorld<T>)
        ensures
            w.veilid_app.app is None,
            w.veilid_app.other_peer_dht is None,
            w.veilid_plugin_status == VeilidPluginStatus::Initializing,
            !w.listener_started,
            w.ev_initialized@.pending =~= Seq::<EventVeilidInitialized>::empty(),
            w.ev_initialized@.visible =~= Seq::<EventVeilidInitialized>::empty(),
            w.ev_send_message@.pending =~= Seq::<EventSendMessage<T>>::empty(),
            w.ev_send_message@.visible =~= Seq::<EventSendMessage<T>>::empty(),
            w.ev_awaiting_peer@.pending =~= Seq::<EventAwaitingPeer>::empty(),
            w.ev_awaiting_peer@.visible =~= Seq::<EventAwaitingPeer>::empty(),
            w.ev_message_sent@.pending =~= Seq::<EventMessageSent>::empty(),
            w.ev_message_sent@.visible =~= Seq::<EventMessageSent>::empty(),
            w.ev_connected_peer@.pending =~= Seq::<EventConnectedPeer>::empty(),
            w.ev_connected_peer@.visible =~= Seq::<EventConnectedPeer>::empty(),
            w.ev_error@.pending =~= Seq::<EventError>::empty(),
            w.ev_error@.visible =~= Seq::<EventError>::empty(),
            w.ev_receive_message@.pending =~= Seq::<EventReceiveMessage<T>>::empty(),
            w.ev_receive_message@.visible =~= Seq::<EventReceiveMessage<T>>::empty(),
            w.outbox@ =~= Seq::<SendCommand<T>>::empty(),
    {
        VeilidWorld {
            veilid_app: VeilidApp { app: None, other_peer_dht: None },
            veilid_plugin_status: VeilidPluginStatus::Initializing,
            listener_started: false,
            ev_initialized: EventQueue::new(),
            ev_send_message: EventQueue::new(),
            ev_awaiting_peer: EventQueue::new(),
            ev_message_sent: EventQueue::new(),
            ev_connected_peer: EventQueue::new(),
            ev_error: EventQueue::new(),
            ev_receive_message: EventQueue::new(),
            outbox: Vec::new(),
        }
    }

    /// Run one tick: cross the tick boundary on every queue, then let each
    /// handler process the events that became readable, in a fixed order.
    /// Returns whether the host must now start the inbound listener.
    pub fn tick(&mut self) -> (start_listener: bool)
        ensures
            start_listener == old(self).spec_tick_starts_listener(),
            final(self).veilid_plugin_status == old(self).spec_tick_status(),
            final(self).veilid_app.other_peer_dht == old(self).spec_tick_counterpart(),
            final(self).veilid_app.app == old(self).veilid_app.app,
            final(self).listener_started == (old(self).listener_started || old(self).ev_initialized@.pending.len() > 0),
            final(self).outbox@ == old(self).spec_tick_outbox(),
            final(self).ev_initialized@.visible == old(self).ev_initialized@.pending,
            final(self).ev_initialized@.pending =~= Seq::<EventVeilidInitialized>::empty(),
            final(self).ev_send_message@.visible =~= Seq::<EventSendMessage<T>>::empty(),
            final(self).ev_send_message@.pending =~= Seq::<EventSendMessage<T>>::empty(),
            final(self).ev_awaiting_peer@.visible == old(self).ev_awaiting_peer@.pending,
            final(self).ev_awaiting_peer@.pending == old(self).spec_tick_awaiting_pending(),
            final(self).ev_message_sent@.visible == old(self).ev_message_sent@.pending,
            final(self).ev_message_sent@.pending =~= Seq::<EventMessageSent>::empty(),
            final(self).ev_connected_peer@.visible == old(self).ev_connected_peer@.pending,
            final(self).ev_connected_peer@.pending == old(self).spec_tick_connected_pending(),
            final(self).ev_error@.visible == old(self).ev_error@.pending,
            final(self).ev_error@.pending =~= Seq::<EventError>::empty(),
            final(self).ev_receive_message@.visible == old(self).ev_receive_message@.pending,
            final(self).ev_receive_message@.pending =~= Seq::<EventReceiveMessage<T>>::empty(),
    {
        self.ev_initialized.update();
        self.ev_send_message.update();
        self.ev_awaiting_peer.update();
        self.ev_message_sent.update();
        self.ev_connected_peer.update();
        self.ev_error.update();
        self.ev_receive_message.update();
        let start = event_on_veilid_initialized(
            &self.ev_initialized,
            &mut self.veilid_plugin_status,
            &mut self.listener_started,
        );
        on_ev_send_message(
            &mut self.ev_send_message,
            &mut self.ev_awaiting_peer,
            &self.veilid_app,
            &mut self.outbox,
        );
        on_ev_veilid_message_sent(
            &self.ev_message_sent,
            &mut self.ev_connected_peer,
            &self.veilid_plugin_status,
        );
        on_ev_connected_peer(
            &self.ev_connected_peer,
            &mut self.veilid_plugin_status,
            &mut self.veilid_app,
        );
        on_ev_awaiting_peer(&self.ev_awaiting_peer, &mut self.veilid_plugin_status);
        on_ev_error(&self.ev_error, &mut self.veilid_plugin_status);
        start
    }

    /// Issue a send request: the request is queued for the next tick and
    /// its freshly drawn correlation identifier is returned at once.  The
    /// outcome arrives later, as a sent confirmation or an error event
    /// carrying this identifier.
    pub fn send_message(&mut self, message: T, dht_key: PeerAddress) -> (uuid: u128)
        ensures
            final(self).ev_send_message@.pending == old(self).ev_send_message@.pending.push(
                (EventSendMessage { message, dht_key, uuid }),
            ),
            final(self).ev_send_message@.visible == old(self).ev_send_message@.visible,
            final(self).veilid_app == old(self).veilid_app,
            final(self).veilid_plugin_status == old(self).veilid_plugin_status,
            final(self).listener_started == old(self).listener_started,
            final(self).ev_initialized == old(self).ev_initialized,
            final(self).ev_awaiting_peer == old(self).ev_awaiting_peer,
            final(self).ev_message_sent == old(self).ev_message_sent,
            final(self).ev_connected_peer == old(self).ev_connected_peer,
            final(self).ev_error == old(self).ev_error,
            final(self).ev_receive_message == old(self).ev_receive_message,
            final(self).outbox == old(self).outbox,
    {
        let e = EventSendMessage::new(message, dht_key);
        let uuid = e.uuid;
        self.ev_send_message.send(e);
        uuid
    }

    /// Hand back the outcome of the one-shot initialization task.
    pub fn on_init_result(&mut self, result: Result<SessionHandle, String>)
        ensures
            result matches Ok(h) ==> final(self).veilid_app.app == Some(h) && final(self).veilid_app.other_peer_dht is None && final(self).ev_initialized@.pending == old(self).ev_initialized@.pending.push(EventVeilidInitialized) && final(self).ev_error@.pending
                == old(self).ev_error@.pending,
            result matches Err(cause) ==> final(self).veilid_app == old(self).veilid_app && final(self).ev_initialized@.pending == old(self).ev_initialized@.pending && final(self).ev_error@.pending == old(self).ev_error@.pending.push(EventError(cause)),
            final(self).ev_initialized@.visible == old(self).ev_initialized@.visible,
            final(self).ev_error@.visible == old(self).ev_error@.visible,
            final(self).veilid_plugin_status == old(self).veilid_plugin_status,
            final(self).listener_started == old(self).listener_started,
            final(self).ev_send_message == old(self).ev_send_message,
            final(self).ev_awaiting_peer == old(self).ev_awaiting_peer,
            final(self).ev_message_sent == old(self).ev_message_sent,
            final(self).ev_connected_peer == old(self).ev_connected_peer,
            final(self).ev_receive_message == old(self).ev_receive_message,
            final(self).outbox == old(self).outbox,
    {
        on_init_result(result, &mut self.veilid_app, &mut self.ev_initialized, &mut self.ev_error);
    }

    /// Hand back the outcome of one background send attempt.
    pub fn on_send_result(&mut self, uuid: u128, dht_key: PeerAddress, result: Result<(), String>)
        ensures
            result is Ok ==> final(self).ev_message_sent@.pending == old(self).ev_message_sent@.pending.push((EventMessageSent { uuid, dht_key })) && final(self).ev_error@.pending == old(self).ev_error@.pending,
            result matches Err(cause) ==> final(self).ev_error@.pending == old(self).ev_error@.pending.push(EventError(cause)) && final(self).ev_message_sent@.pending
                == old(self).ev_message_sent@.pending,
            final(self).ev_message_sent@.visible == old(self).ev_message_sent@.visible,
            final(self).ev_error@.visible == old(self).ev_error@.visible,
            final(self).veilid_app == old(self).veilid_app,
            final(self).veilid_plugin_status == old(self).veilid_plugin_status,
            final(self).listener_started == old(self).listener_started,
            final(self).ev_initialized == old(self).ev_initialized,
            final(self).ev_send_message == old(self).ev_send_message,
            final(self).ev_awaiting_peer == old(self).ev_awaiting_peer,
            final(self).ev_connected_peer == old(self).ev_connected_peer,
            final(self).ev_receive_message == old(self).ev_receive_message,
            final(self).outbox == old(self).outbox,
    {
        on_send_result(uuid, dht_key, result, &mut self.ev_message_sent, &mut self.ev_error);
    }

    /// Hand in one inbound payload received by the listener, together with
    /// the value of the payload's designated marker field.
    pub fn on_app_message(&mut self, message: T, sender: PeerAddress, marker: u64)
        ensures
            final(self).ev_receive_message@.pending == old(self).ev_receive_message@.pending.push((EventReceiveMessage { message, dht_key: sender })),
            marker == crate::session::HANDSHAKE_SENTINEL ==> final(self).ev_connected_peer@.pending == old(self).ev_connected_peer@.pending.push(
                (EventConnectedPeer { dht_key: sender }),
            ),
            marker != crate::session::HANDSHAKE_SENTINEL ==> final(self).ev_connected_peer@.pending == old(self).ev_connected_peer@.pending,
            final(self).ev_receive_message@.visible == old(self).ev_receive_message@.visible,
            final(self).ev_connected_peer@.visible == old(self).ev_connected_peer@.visible,
            final(self).veilid_app == old(self).veilid_app,
            final(self).veilid_plugin_status == old(self).veilid_plugin_status,
            final(self).listener_started == old(self).listener_started,
            final(self).ev_initialized == old(self).ev_initialized,
            final(self).ev_send_message == old(self).ev_send_message,
            final(self).ev_awaiting_peer == old(self).ev_awaiting_peer,
            final(self).ev_message_sent == old(self).ev_message_sent,
            final(self).ev_error == old(self).ev_error,
            final(self).outbox == old(self).outbox,
    {
        on_app_message(
            message,
            sender,
            marker,
            &mut self.ev_receive_message,
            &mut self.ev_connected_peer,
        );
    }

    /// Take the send commands the last tick asked for; the background
    /// domain performs each exactly once.
    pub fn drain_outbox(&mut self) -> (cmds: Vec<SendCommand<T>>)
        ensures
            cmds@ == old(self).outbox@,
            final(self).outbox@ =~= Seq::<SendCommand<T>>::empty(),
            final(self).veilid_app == old(self).veilid_app,
            final(self).veilid_plugin_status == old(self).veilid_plugin_status,
            final(self).listener_started == old(self).listener_started,
            final(self).ev_initialized == old(self).ev_initialized,
            final(self).ev_send_message == old(self).ev_send_message,
            final(self).ev_awaiting_peer == old(self).ev_awaiting_peer,
            final(self).ev_message_sent == old(self).ev_message_sent,
            final(self).ev_connected_peer == old(self).ev_connected_peer,
            final(self).ev_error == old(self).ev_error,
            final(self).ev_receive_message == old(self).ev_receive_message,
    {
        let mut out: Vec<SendCommand<T>> = Vec::new();
        core::mem::swap(&mut out, &mut self.outbox);
        out
    }

    /// The current status, readable by the host once per tick.
    pub fn status(&self) -> (s: VeilidPluginStatus)
        ensures
            s == self.veilid_plugin_status,
    {
        self.veilid_plugin_status
    }

    /// The counterpart peer's address, if one is connected.
    pub fn counterpart(&self) -> (p: Option<PeerAddress>)
        ensures
            p == self.veilid_app.other_peer_dht,
    {
        self.veilid_app.other_peer_dht
    }
}

/// Receiving a payload whose marker equals the handshake sentinel from
/// address `p` while the session awaits a peer connects the session: the
/// tick that processes the queued connected-peer event records `p` as the
/// counterpart, and, unless an error event lands in the same tick, ends
/// with status `ConnectedPeer`.
pub proof fn lemma_handshake_sets_counterpart<T>(w: VeilidWorld<T>, p: PeerAddress)
    requires
        w.veilid_plugin_status is AwaitingPeer,
        w.ev_initialized@.pending.len() == 0,
        w.ev_connected_peer@.pending.len() > 0,
        w.ev_connected_peer@.pending[0].dht_key == p,
    ensures
        w.spec_tick_counterpart() == Some(p),
        w.ev_error@.pending.len() == 0 ==> w.spec_tick_status()
            == VeilidPluginStatus::ConnectedPeer,
{
}

/// A tick without connected-peer events never alters the counterpart; in
/// particular, inbound payloads whose marker is not the handshake sentinel
/// queue no such event and so leave the counterpart untouched.
pub proof fn lemma_no_connected_event_keeps_counterpart<T>(w: VeilidWorld<T>)
    requires
        w.ev_connected_peer@.pending.len() == 0,
    ensures
        w.spec_tick_counterpart() == w.veilid_app.other_peer_dht,
{
}

/// While no session handle exists, a tick drops every pending send request
/// silently: the outbox gains no command and no event of any kind is
/// queued for the following tick.
pub proof fn lemma_send_without_handle_dropped<T>(w: VeilidWorld<T>)
    requires
        w.veilid_app.app is None,
    ensures
        w.spec_tick_outbox() == w.outbox@,
        w.spec_tick_awaiting_pending() =~= Seq::<EventAwaitingPeer>::empty(),
{
}

} // verus!
