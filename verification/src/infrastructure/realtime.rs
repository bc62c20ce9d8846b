//! The hub through which events reach the brawlers connected to the event stream.
use std::sync::Arc;
use tokio::sync::broadcast;
use vstd::prelude::*;
use crate::domain::effects::{Effect, EffectLog};
use crate::domain::value_objects::realtime::RealtimeEvent;

verus! {

#[verifier::external_type_specification]
#[verifier::external_body]
#[verifier::reject_recursive_types(T)]
pub struct ExBroadcastSender<T>(broadcast::Sender<T>);

/// Opens a `tokio::sync::broadcast` channel that keeps up to `capacity`
/// events for slow receivers, and gives its sending half. `broadcast::channel`
/// panics for a capacity of 0 or above `usize::MAX / 2`, hence the bound.
#[verifier::external_body]
fn open_event_channel(capacity: usize) -> (tx: broadcast::Sender<RealtimeEvent>)
    requires
        0 < capacity <= usize::MAX / 2,
{
    let (tx, _rx) = broadcast::channel(capacity);
    tx
}

/// Hands `event` to every receiver subscribed to `tx` (`broadcast::Sender::send`).
/// Whether anyone received it is not reported: with no receiver the event is dropped.
#[verifier::external_body]
fn send_event(tx: &broadcast::Sender<RealtimeEvent>, event: RealtimeEvent) {
    let _ = tx.send(event);
}

/// An event that the hub has handed to its channel. Only the hub makes one,
/// when it sends, so an announcement can be recorded only by sending it.
pub struct SentEvent {
    event: Ghost<RealtimeEvent>,
}

impl SentEvent {
    /// The event sent.
    pub closed spec fn event(&self) -> RealtimeEvent {
        self.event@
    }
}

/// Fans events out to the connected brawlers.
pub struct RealtimeHub {
    pub tx: broadcast::Sender<RealtimeEvent>,
}

impl RealtimeHub {
    /// A hub that keeps the last 100 events for slow receivers.
    pub fn new() -> Self {
        RealtimeHub { tx: open_event_channel(100) }
    }

    /// Sends `event` to the brawlers connected at this moment, and records
    /// it in `log`.
    pub fn broadcast(&self, event: RealtimeEvent, log: &mut EffectLog)
        ensures
            final(log)@ == old(log)@.push(Effect::Announced(event)),
    {
        let ghost e = event;
        send_event(&self.tx, event);
        let sent = SentEvent { event: Ghost(e) };
        log.record_sent(sent);
    }
}

/// The hub as the use cases share it.
pub type SharedRealtimeHub = Arc<RealtimeHub>;

} // verus!
