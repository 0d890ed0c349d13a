//! Typed per-kind event queues.
//!
//! Each event kind gets its own FIFO queue.  An event sent while a tick is
//! running is held back and becomes readable at the start of the next tick,
//! when the queue is updated.  Reading is a broadcast: any number of
//! consumers may look at the readable events of a tick, and none of them
//! removes anything.  The one exception is [`EventQueue::drain`], for the
//! single consumer that owns a kind of event outright and takes the events
//! with it.

use vstd::prelude::*;

verus! {

/// The mathematical model of an [`EventQueue`]: the events still waiting
/// for the next tick boundary and the events readable this tick, both
/// oldest first.
pub ghost struct QueueModel<T> {
    /// Events sent since the last tick boundary, not yet readable.
    pub pending: Seq<T>,
    /// Events readable during the current tick.
    pub visible: Seq<T>,
}

/// A FIFO queue for one kind of event, double-buffered at tick boundaries.
pub struct EventQueue<T> {
    pending: Vec<T>,
    visible: Vec<T>,
}

impl<T> View for EventQueue<T> {
    type V = QueueModel<T>;

    closed spec fn view(&self) -> QueueModel<T> {
        QueueModel { pending: self.pending@, visible: self.visible@ }
    }
}

impl<T> EventQueue<T> {
    /// An empty queue: nothing pending, nothing readable.
    pub fn new() -> (q: EventQueue<T>)
        ensures
            q@.pending == Seq::<T>::empty(),
            q@.visible == Seq::<T>::empty(),
    {
        EventQueue { pending: Vec::new(), visible: Vec::new() }
    }

    /// Enqueue one event.  It stays pending until the next update.
    pub fn send(&mut self, e: T)
        ensures
            final(self)@.pending == old(self)@.pending.push(e),
            final(self)@.visible == old(self)@.visible,
    {
        self.pending.push(e);
    }

    /// Cross a tick boundary: what was pending becomes readable, and what
    /// was readable last tick is gone.
    pub fn update(&mut self)
        ensures
            final(self)@.visible == old(self)@.pending,
            final(self)@.pending == Seq::<T>::empty(),
    {
        self.visible.clear();
        core::mem::swap(&mut self.visible, &mut self.pending);
    }

    /// The events readable this tick, oldest first.  Reading removes
    /// nothing, so every consumer of the tick sees the same events.
    pub fn read(&self) -> (r: &Vec<T>)
        ensures
            r@ == self@.visible,
    {
        &self.visible
    }

    /// Take this tick's readable events away, oldest first.  For the one
    /// consumer that owns this kind of event outright.
    pub fn drain(&mut self) -> (r: Vec<T>)
        ensures
            r@ == old(self)@.visible,
            final(self)@.visible == Seq::<T>::empty(),
            final(self)@.pending == old(self)@.pending,
    {
        let mut out: Vec<T> = Vec::new();
        core::mem::swap(&mut out, &mut self.visible);
        out
    }
}

} // verus!
