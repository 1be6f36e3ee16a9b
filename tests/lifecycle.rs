use telemetry_bridge::connection::{
    topic_filter, Link, LinkAction, LinkEvent, RECONNECT_COOLDOWN_MS, SUBSCRIBE_ATTEMPTS,
    SUBSCRIBE_RETRY_MS,
};
use telemetry_bridge::topic::MessageClass;

fn drive(mut link: Link, events: &[LinkEvent]) -> (Link, Vec<LinkAction>) {
    let mut actions = Vec::new();
    for e in events {
        let (l, a) = link.step(*e);
        link = l;
        actions.push(a);
    }
    (link, actions)
}

#[test]
fn first_connection_subscribes_both_classes_then_polls() {
    let (link, action) = Link::start();
    assert_eq!(action, LinkAction::CreateClient);
    let (link, actions) = drive(
        link,
        &[LinkEvent::ClientCreated, LinkEvent::SubscribeOk, LinkEvent::SubscribeOk],
    );
    assert_eq!(
        actions,
        vec![
            LinkAction::Subscribe(MessageClass::Location),
            LinkAction::Subscribe(MessageClass::State),
            LinkAction::Poll,
        ]
    );
    assert_eq!(link, Link::Connected);
}

#[test]
fn publish_is_dispatched_then_polling_resumes() {
    let (link, actions) = drive(
        Link::Connected,
        &[LinkEvent::Publish, LinkEvent::Dispatched, LinkEvent::OtherEvent],
    );
    assert_eq!(actions, vec![LinkAction::Dispatch, LinkAction::Poll, LinkAction::Poll]);
    assert_eq!(link, Link::Connected);
}

#[test]
fn reconnects_after_transport_failure_and_dispatches_again() {
    let (link, actions) = drive(
        Link::Connected,
        &[
            LinkEvent::PollFailed,
            LinkEvent::Elapsed,
            LinkEvent::ClientCreated,
            LinkEvent::SubscribeOk,
            LinkEvent::SubscribeOk,
            LinkEvent::Publish,
        ],
    );
    assert_eq!(
        actions,
        vec![
            LinkAction::Wait(5000),
            LinkAction::CreateClient,
            LinkAction::Subscribe(MessageClass::Location),
            LinkAction::Subscribe(MessageClass::State),
            LinkAction::Poll,
            LinkAction::Dispatch,
        ]
    );
    assert_eq!(link, Link::Dispatching);
    assert_eq!(RECONNECT_COOLDOWN_MS, 5000);
}

#[test]
fn failed_client_creation_cools_down_and_retries() {
    let (link, actions) = drive(
        Link::Connecting,
        &[LinkEvent::ClientFailed, LinkEvent::Elapsed, LinkEvent::ClientFailed],
    );
    assert_eq!(
        actions,
        vec![LinkAction::Wait(5000), LinkAction::CreateClient, LinkAction::Wait(5000)]
    );
    assert_eq!(link, Link::CoolingDown);
}

#[test]
fn subscription_retried_then_given_up() {
    let (link, actions) = drive(
        Link::Connecting,
        &[
            LinkEvent::ClientCreated,
            LinkEvent::SubscribeFailed,
            LinkEvent::Elapsed,
            LinkEvent::SubscribeFailed,
            LinkEvent::Elapsed,
            LinkEvent::SubscribeFailed,
            LinkEvent::Elapsed,
        ],
    );
    assert_eq!(
        actions,
        vec![
            LinkAction::Subscribe(MessageClass::Location),
            LinkAction::Wait(2000),
            LinkAction::Subscribe(MessageClass::Location),
            LinkAction::Wait(2000),
            LinkAction::Subscribe(MessageClass::Location),
            LinkAction::Wait(2000),
            LinkAction::Subscribe(MessageClass::State),
        ]
    );
    assert_eq!(link, Link::Subscribing { filter: 1, attempt: 1 });
    assert_eq!(SUBSCRIBE_ATTEMPTS, 3);
    assert_eq!(SUBSCRIBE_RETRY_MS, 2000);
}

#[test]
fn second_subscription_given_up_still_polls() {
    let (link, actions) = drive(
        Link::Subscribing { filter: 1, attempt: 3 },
        &[LinkEvent::SubscribeFailed, LinkEvent::Elapsed],
    );
    assert_eq!(actions, vec![LinkAction::Wait(2000), LinkAction::Poll]);
    assert_eq!(link, Link::Connected);
}

#[test]
fn subscription_succeeds_on_retry() {
    let (link, actions) = drive(
        Link::Subscribing { filter: 0, attempt: 1 },
        &[LinkEvent::SubscribeFailed, LinkEvent::Elapsed, LinkEvent::SubscribeOk],
    );
    assert_eq!(
        actions,
        vec![
            LinkAction::Wait(2000),
            LinkAction::Subscribe(MessageClass::Location),
            LinkAction::Subscribe(MessageClass::State),
        ]
    );
    assert_eq!(link, Link::Subscribing { filter: 1, attempt: 1 });
}

#[test]
fn unexpected_event_keeps_state() {
    let (link, action) = Link::Connected.step(LinkEvent::SubscribeOk);
    assert_eq!(link, Link::Connected);
    assert_eq!(action, LinkAction::Poll);
    let (link, action) = Link::CoolingDown.step(LinkEvent::Publish);
    assert_eq!(link, Link::CoolingDown);
    assert_eq!(action, LinkAction::Wait(5000));
}

#[test]
fn filters_match_every_entity() {
    assert_eq!(topic_filter(MessageClass::Location), "drone/+/location");
    assert_eq!(topic_filter(MessageClass::State), "drone/+/state");
}
