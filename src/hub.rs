//! Broadcast hub: one lossy multicast channel per group.
//!
//! Each subscriber has its own cursor into a bounded backlog. A send never
//! waits: a subscriber that falls more than the backlog behind skips forward
//! to the oldest message still held, and the others are not affected.

use vstd::prelude::*;
use crate::dispatch::Group;
use tokio::sync::broadcast::{Receiver, Sender};

verus! {

#[verifier::external_type_specification]
#[verifier::external_body]
#[verifier::reject_recursive_types(T)]
pub struct ExSender<T>(Sender<T>);

#[verifier::external_type_specification]
#[verifier::external_body]
#[verifier::reject_recursive_types(T)]
pub struct ExReceiver<T>(Receiver<T>);

/// The backlog asked for each group; the channel may round it up.
pub const HUB_CAPACITY: usize = 100;

/// Relies on tokio's `broadcast::Sender::new`: a channel with no subscribers
/// that holds at least `capacity` pending messages. It panics on a capacity of
/// zero or above `usize::MAX / 2`.
#[verifier::external_body]
fn open_channel(capacity: usize) -> (r: Sender<String>)
    requires
        0 < capacity <= usize::MAX / 2,
{
    Sender::new(capacity)
}

/// Relies on tokio's `broadcast::Sender::send`: it does not wait; on success it
/// returns the number of subscribers the message was queued for, which is at
/// least one, and it fails only when there is no subscriber.
#[verifier::external_body]
fn send_on(tx: &Sender<String>, message: String) -> (r: Option<usize>)
    ensures
        r matches Some(n) ==> n >= 1,
{
    tx.send(message).ok()
}

/// Relies on tokio's `broadcast::Sender::subscribe`: a receiver that sees the
/// messages sent after this call.
#[verifier::external_body]
fn subscribe_on(tx: &Sender<String>) -> (r: Receiver<String>) {
    tx.subscribe()
}

/// The result of a send.
#[derive(Clone, Copy, Debug, PartialEq, Eq, Structural)]
pub enum Delivery {
    /// Queued for this many subscribers.
    Delivered(usize),
    /// Nobody was subscribed; the message is gone and that is no error.
    NoSubscribers,
}

/// The two groups' channels, created once at start.
pub struct Hub {
    flight: Sender<String>,
    location: Sender<String>,
    capacity: usize,
}

impl Hub {
    /// A hub whose groups each hold at least `capacity` pending messages.
    pub fn new(capacity: usize) -> (h: Hub)
        requires
            0 < capacity <= usize::MAX / 2,
        ensures
            h.capacity() == capacity,
    {
        Hub { flight: open_channel(capacity), location: open_channel(capacity), capacity }
    }

    /// A hub asked for the usual backlog of [`HUB_CAPACITY`] messages.
    pub fn with_default_capacity() -> (h: Hub)
        ensures
            h.capacity() == HUB_CAPACITY,
    {
        Hub::new(HUB_CAPACITY)
    }

    pub closed spec fn capacity(&self) -> usize {
        self.capacity
    }

    /// The backlog that was asked for each group; the channel keeps at least
    /// this many messages for a slow subscriber.
    pub fn backlog(&self) -> (r: usize)
        ensures
            r == self.capacity(),
    {
        self.capacity
    }

    fn channel(&self, group: Group) -> (r: &Sender<String>)
        ensures
            group == Group::Flight ==> *r == self.flight,
            group == Group::Location ==> *r == self.location,
    {
        match group {
            Group::Flight => &self.flight,
            Group::Location => &self.location,
        }
    }

    /// Registers a viewer with `group`; it receives what is sent from now on.
    pub fn subscribe(&self, group: Group) -> Receiver<String> {
        subscribe_on(self.channel(group))
    }

    /// Sends `message` to every current subscriber of `group` without waiting.
    /// With no subscriber the message is dropped and the send still succeeds.
    pub fn send(&self, group: Group, message: String) -> (r: Delivery)
        ensures
            r matches Delivery::Delivered(n) ==> n >= 1,
    {
        match send_on(self.channel(group), message) {
            Some(n) => Delivery::Delivered(n),
            None => Delivery::NoSubscribers,
        }
    }
}

} // verus!
