//! Bus connection lifecycle: connect, subscribe with bounded retry, poll, and
//! reconnect after a cool-down, forever.
//!
//! The caller performs each action (create the client, subscribe, sleep, poll,
//! hand a publish to the dispatcher) and reports the outcome as an event.

use vstd::prelude::*;
use crate::topic::MessageClass;

verus! {

/// Attempts made for one subscription before going on without it.
pub const SUBSCRIBE_ATTEMPTS: u8 = 3;

/// Pause after a failed subscription attempt, in milliseconds.
pub const SUBSCRIBE_RETRY_MS: u64 = 2000;

/// Pause before reconnecting after the connection was lost, in milliseconds.
pub const RECONNECT_COOLDOWN_MS: u64 = 5000;

/// Keep-alive interval asked of the bus, in seconds.
pub const KEEP_ALIVE_SECS: u64 = 5;

/// Requests the bus client may queue before its caller waits.
pub const CLIENT_QUEUE_CAPACITY: usize = 10;

/// The subscriptions made on every connection, in order.
pub open spec fn spec_filter_class(index: nat) -> MessageClass {
    if index == 0 {
        MessageClass::Location
    } else {
        MessageClass::State
    }
}

/// The wildcard topic filter that subscribes to one message class for every
/// entity.
pub fn topic_filter(class: MessageClass) -> (r: &'static str)
    ensures
        class == MessageClass::Location ==> r@ == "drone/+/location"@,
        class == MessageClass::State ==> r@ == "drone/+/state"@,
{
    match class {
        MessageClass::Location => "drone/+/location",
        MessageClass::State => "drone/+/state",
    }
}

/// The connection state.
#[derive(Clone, Copy, Debug, PartialEq, Eq, Structural)]
pub enum Link {
    /// Waiting for a new client and its event loop.
    Connecting,
    /// Subscribing to the `filter`-th class; `attempt` counts from 1.
    Subscribing { filter: u8, attempt: u8 },
    /// Pausing after a failed subscription attempt.
    Retrying { filter: u8, attempt: u8 },
    /// Polling the event loop.
    Connected,
    /// Handing a publish to the dispatcher.
    Dispatching,
    /// Pausing after the connection was lost; the client is dropped.
    CoolingDown,
}

/// An outcome reported by the caller.
#[derive(Clone, Copy, Debug, PartialEq, Eq, Structural)]
pub enum LinkEvent {
    ClientCreated,
    ClientFailed,
    SubscribeOk,
    SubscribeFailed,
    /// The pause asked for has elapsed.
    Elapsed,
    /// A poll yielded an inbound publish.
    Publish,
    /// A poll yielded any other inbound packet or an outgoing event.
    OtherEvent,
    /// A poll failed: transport failure, protocol violation or rejected login.
    PollFailed,
    /// The dispatcher is done with the publish.
    Dispatched,
}

/// What the caller does next.
#[derive(Clone, Copy, Debug, PartialEq, Eq, Structural)]
pub enum LinkAction {
    /// Build a client and event loop from the configuration.
    CreateClient,
    /// Subscribe, at least once, to this class's filter.
    Subscribe(MessageClass),
    /// Sleep this many milliseconds.
    Wait(u64),
    /// Poll the event loop once.
    Poll,
    /// Hand the polled publish to the dispatcher.
    Dispatch,
}

/// The action that a state waits on.
pub open spec fn spec_pending_action(s: Link) -> LinkAction {
    match s {
        Link::Connecting => LinkAction::CreateClient,
        Link::Subscribing { filter, attempt: _ } => LinkAction::Subscribe(
            spec_filter_class(filter as nat),
        ),
        Link::Retrying { filter: _, attempt: _ } => LinkAction::Wait(SUBSCRIBE_RETRY_MS),
        Link::Connected => LinkAction::Poll,
        Link::Dispatching => LinkAction::Dispatch,
        Link::CoolingDown => LinkAction::Wait(RECONNECT_COOLDOWN_MS),
    }
}

/// The state after the subscription to `filter` is settled, either way.
pub open spec fn spec_after_filter(filter: u8) -> Link {
    if filter == 0 {
        Link::Subscribing { filter: 1, attempt: 1 }
    } else {
        Link::Connected
    }
}

/// The next state after an event; an event that the state does not wait for
/// leaves it as it is.
pub open spec fn spec_link_next(s: Link, e: LinkEvent) -> Link {
    match (s, e) {
        (Link::Connecting, LinkEvent::ClientCreated) => Link::Subscribing { filter: 0, attempt: 1 },
        (Link::Connecting, LinkEvent::ClientFailed) => Link::CoolingDown,
        (Link::Subscribing { filter, attempt: _ }, LinkEvent::SubscribeOk) => spec_after_filter(
            filter,
        ),
        (Link::Subscribing { filter, attempt }, LinkEvent::SubscribeFailed) => Link::Retrying {
            filter,
            attempt,
        },
        (Link::Retrying { filter, attempt }, LinkEvent::Elapsed) => {
            if attempt < SUBSCRIBE_ATTEMPTS {
                Link::Subscribing { filter, attempt: (attempt + 1) as u8 }
            } else {
                spec_after_filter(filter)
            }
        },
        (Link::Connected, LinkEvent::Publish) => Link::Dispatching,
        (Link::Connected, LinkEvent::OtherEvent) => Link::Connected,
        (Link::Connected, LinkEvent::PollFailed) => Link::CoolingDown,
        (Link::Dispatching, LinkEvent::Dispatched) => Link::Connected,
        (Link::CoolingDown, LinkEvent::Elapsed) => Link::Connecting,
        _ => s,
    }
}

/// Whether a state can occur: subscription indices and attempts stay in range.
pub open spec fn link_valid(s: Link) -> bool {
    match s {
        Link::Subscribing { filter, attempt } => filter <= 1 && 1 <= attempt <= SUBSCRIBE_ATTEMPTS,
        Link::Retrying { filter, attempt } => filter <= 1 && 1 <= attempt <= SUBSCRIBE_ATTEMPTS,
        _ => true,
    }
}

fn after_filter(filter: u8) -> (r: Link)
    ensures
        r == spec_after_filter(filter),
{
    if filter == 0 {
        Link::Subscribing { filter: 1, attempt: 1 }
    } else {
        Link::Connected
    }
}

impl Link {
    /// The state of a manager that has not connected yet, and its first action.
    pub fn start() -> (r: (Link, LinkAction))
        ensures
            r.0 == Link::Connecting,
            r.1 == LinkAction::CreateClient,
            link_valid(r.0),
    {
        (Link::Connecting, LinkAction::CreateClient)
    }

    /// The next state after `e`, and the action it waits on.
    pub fn step(self, e: LinkEvent) -> (r: (Link, LinkAction))
        requires
            link_valid(self),
        ensures
            r.0 == spec_link_next(self, e),
            r.1 == spec_pending_action(r.0),
            link_valid(r.0),
    {
        let next = match (self, e) {
            (Link::Connecting, LinkEvent::ClientCreated) => Link::Subscribing { filter: 0, attempt: 1 },
            (Link::Connecting, LinkEvent::ClientFailed) => Link::CoolingDown,
            (Link::Subscribing { filter, attempt: _ }, LinkEvent::SubscribeOk) => after_filter(filter),
            (Link::Subscribing { filter, attempt }, LinkEvent::SubscribeFailed) => Link::Retrying {
                filter,
                attempt,
            },
            (Link::Retrying { filter, attempt }, LinkEvent::Elapsed) => {
                if attempt < SUBSCRIBE_ATTEMPTS {
                    Link::Subscribing { filter, attempt: attempt + 1 }
                } else {
                    after_filter(filter)
                }
            },
            (Link::Connected, LinkEvent::Publish) => Link::Dispatching,
            (Link::Connected, LinkEvent::OtherEvent) => Link::Connected,
            (Link::Connected, LinkEvent::PollFailed) => Link::CoolingDown,
            (Link::Dispatching, LinkEvent::Dispatched) => Link::Connected,
            (Link::CoolingDown, LinkEvent::Elapsed) => Link::Connecting,
            _ => self,
        };
        (next, next.pending_action())
    }

    /// The action this state waits on.
    pub fn pending_action(self) -> (r: LinkAction)
        ensures
            r == spec_pending_action(self),
    {
        match self {
            Link::Connecting => LinkAction::CreateClient,
            Link::Subscribing { filter, attempt: _ } => LinkAction::Subscribe(
                if filter == 0 {
                    MessageClass::Location
                } else {
                    MessageClass::State
                },
            ),
            Link::Retrying { filter: _, attempt: _ } => LinkAction::Wait(SUBSCRIBE_RETRY_MS),
            Link::Connected => LinkAction::Poll,
            Link::Dispatching => LinkAction::Dispatch,
            Link::CoolingDown => LinkAction::Wait(RECONNECT_COOLDOWN_MS),
        }
    }
}

/// The state reached by feeding `events` one by one from `s`.
pub open spec fn spec_link_run(s: Link, events: Seq<LinkEvent>) -> Link
    decreases events.len(),
{
    if events.len() == 0 {
        s
    } else {
        spec_link_run(spec_link_next(s, events[0]), events.drop_first())
    }
}

/// The outcomes of one subscription phase begun at attempt `attempt`: `failures`
/// failed attempts (each followed by its pause), then a success if an attempt
/// is left.
pub open spec fn subscribe_outcomes(attempt: u8, failures: nat) -> Seq<LinkEvent>
    decreases failures,
{
    if failures == 0 {
        seq![LinkEvent::SubscribeOk]
    } else if attempt >= SUBSCRIBE_ATTEMPTS {
        seq![LinkEvent::SubscribeFailed, LinkEvent::Elapsed]
    } else {
        seq![LinkEvent::SubscribeFailed, LinkEvent::Elapsed] + subscribe_outcomes(
            (attempt + 1) as u8,
            (failures - 1) as nat,
        )
    }
}

proof fn lemma_link_run_append(s: Link, a: Seq<LinkEvent>, b: Seq<LinkEvent>)
    ensures
        spec_link_run(s, a + b) == spec_link_run(spec_link_run(s, a), b),
    decreases a.len(),
{
    if a.len() > 0 {
        assert((a + b).drop_first() =~= a.drop_first() + b);
        lemma_link_run_append(spec_link_next(s, a[0]), a.drop_first(), b);
    } else {
        assert(a + b =~= b);
    }
}

proof fn lemma_subscribe_phase_settles(filter: u8, attempt: u8, failures: nat)
    requires
        filter <= 1,
        1 <= attempt <= SUBSCRIBE_ATTEMPTS,
    ensures
        spec_link_run(Link::Subscribing { filter, attempt }, subscribe_outcomes(attempt, failures))
            == spec_after_filter(filter),
    decreases failures,
{
    let s = Link::Subscribing { filter, attempt };
    let pair = seq![LinkEvent::SubscribeFailed, LinkEvent::Elapsed];
    reveal_with_fuel(spec_link_run, 3);
    if failures > 0 && attempt < SUBSCRIBE_ATTEMPTS {
        let rest = subscribe_outcomes((attempt + 1) as u8, (failures - 1) as nat);
        lemma_link_run_append(s, pair, rest);
        lemma_subscribe_phase_settles(filter, (attempt + 1) as u8, (failures - 1) as nat);
    }
}

/// After the connection fails while polling, the manager pauses, reconnects,
/// settles both subscriptions however many attempts fail, polls again, and
/// hands the next publish to the dispatcher.
pub proof fn lemma_resumes_after_transport_failure(failures_first: nat, failures_second: nat)
    ensures
        ({
            let recover = seq![LinkEvent::PollFailed, LinkEvent::Elapsed, LinkEvent::ClientCreated];
            let events = recover + subscribe_outcomes(1, failures_first) + subscribe_outcomes(
                1,
                failures_second,
            ) + seq![LinkEvent::Publish];
            &&& spec_link_next(Link::Connected, LinkEvent::PollFailed) == Link::CoolingDown
            &&& spec_pending_action(Link::CoolingDown) == LinkAction::Wait(RECONNECT_COOLDOWN_MS)
            &&& spec_link_run(Link::Connected, recover) == Link::Subscribing { filter: 0, attempt: 1 }
            &&& spec_link_run(Link::Connected, events) == Link::Dispatching
            &&& spec_pending_action(spec_link_run(Link::Connected, events)) == LinkAction::Dispatch
        }),
{
    let recover = seq![LinkEvent::PollFailed, LinkEvent::Elapsed, LinkEvent::ClientCreated];
    let first_phase = subscribe_outcomes(1, failures_first);
    let second_phase = subscribe_outcomes(1, failures_second);
    let last = seq![LinkEvent::Publish];
    reveal_with_fuel(spec_link_run, 4);
    let s0 = Link::Subscribing { filter: 0, attempt: 1 };
    assert(spec_link_run(Link::Connected, recover) == s0);
    lemma_subscribe_phase_settles(0, 1, failures_first);
    lemma_subscribe_phase_settles(1, 1, failures_second);
    lemma_link_run_append(Link::Connected, recover, first_phase);
    lemma_link_run_append(Link::Connected, recover + first_phase, second_phase);
    lemma_link_run_append(Link::Connected, recover + first_phase + second_phase, last);
}

} // verus!
