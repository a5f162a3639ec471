//! In-process publish/subscribe of consensus notifications.
//!
//! Built over a bounded broadcast channel: `publish` never blocks or fails,
//! whatever the subscribers do; each subscriber receives the events
//! published after its `subscribe` call, with the oldest events dropped if
//! it lags behind the buffer.

use vstd::prelude::*;

verus! {

#[verifier::external_type_specification]
#[verifier::external_body]
#[verifier::reject_recursive_types(T)]
pub struct ExBroadcastSender<T>(tokio::sync::broadcast::Sender<T>);

#[verifier::external_type_specification]
#[verifier::external_body]
#[verifier::reject_recursive_types(T)]
pub struct ExBroadcastReceiver<T>(tokio::sync::broadcast::Receiver<T>);

/// A fan-out event source with any number of independent subscribers.
#[verifier::reject_recursive_types(T)]
pub struct EventSystem<T: Clone + Send + 'static> {
    sender: tokio::sync::broadcast::Sender<T>,
}

impl<T: Clone + Send + 'static> EventSystem<T> {
    /// Creates an event system with room for 100 buffered events per
    /// subscriber.
    ///
    /// Relies on `tokio::sync::broadcast::channel`, which returns the
    /// sending half of a fresh broadcast channel; it never panics for
    /// this fixed, small, non-zero capacity.
    #[verifier::external_body]
    pub fn new() -> EventSystem<T> {
        let (sender, _) = tokio::sync::broadcast::channel(100);
        EventSystem { sender }
    }

    /// Opens an independent stream of the events published from now on;
    /// it does not replay history.
    ///
    /// Relies on `tokio::sync::broadcast::Sender::subscribe`.
    #[verifier::external_body]
    pub fn subscribe(&self) -> tokio::sync::broadcast::Receiver<T> {
        self.sender.subscribe()
    }

    /// Delivers a clone of `event` to every current subscriber.  Never
    /// blocks; when no subscriber exists the event is dropped.
    ///
    /// Relies on `tokio::sync::broadcast::Sender::send`, which fails only
    /// when there is no receiver.
    #[verifier::external_body]
    pub fn publish(&self, event: T) {
        let _ = self.sender.send(event);
    }
}

} // verus!
