use telemetry_bridge::dispatch::Group;
use telemetry_bridge::hub::{Delivery, Hub, HUB_CAPACITY};
use telemetry_bridge::viewer::{viewer_next, ClientFrame, HubItem, ViewerAction, ViewerEvent};
use tokio::sync::broadcast::error::TryRecvError;

#[test]
fn send_without_subscribers_succeeds() {
    let hub = Hub::with_default_capacity();
    assert_eq!(hub.send(Group::Flight, "x".to_string()), Delivery::NoSubscribers);
    assert_eq!(hub.send(Group::Location, "y".to_string()), Delivery::NoSubscribers);
    assert_eq!(hub.backlog(), HUB_CAPACITY);
    assert_eq!(HUB_CAPACITY, 100);
}

#[test]
fn send_reaches_every_subscriber_of_the_group_only() {
    let hub = Hub::new(8);
    let mut a = hub.subscribe(Group::Location);
    let mut b = hub.subscribe(Group::Location);
    let mut f = hub.subscribe(Group::Flight);
    let msg = "{\"longitude\":121.47,\"latitude\":31.23}".to_string();
    assert_eq!(hub.send(Group::Location, msg.clone()), Delivery::Delivered(2));
    assert_eq!(a.try_recv().unwrap(), msg);
    assert_eq!(b.try_recv().unwrap(), msg);
    assert!(matches!(f.try_recv(), Err(TryRecvError::Empty)));
}

#[test]
fn late_subscriber_misses_earlier_messages() {
    let hub = Hub::new(4);
    let mut early = hub.subscribe(Group::Flight);
    hub.send(Group::Flight, "one".to_string());
    let mut late = hub.subscribe(Group::Flight);
    hub.send(Group::Flight, "two".to_string());
    assert_eq!(early.try_recv().unwrap(), "one");
    assert_eq!(early.try_recv().unwrap(), "two");
    assert_eq!(late.try_recv().unwrap(), "two");
    assert!(matches!(late.try_recv(), Err(TryRecvError::Empty)));
}

#[test]
fn stalled_subscriber_does_not_hold_back_others() {
    let hub = Hub::with_default_capacity();
    let mut reader = hub.subscribe(Group::Location);
    let mut stalled = hub.subscribe(Group::Location);
    for i in 0..250 {
        assert_eq!(hub.send(Group::Location, format!("m{}", i)), Delivery::Delivered(2));
        assert_eq!(reader.try_recv().unwrap(), format!("m{}", i));
    }
    match stalled.try_recv() {
        Err(TryRecvError::Lagged(n)) => {
            assert!(n > 0);
            assert_eq!(viewer_next(ViewerEvent::FromHub(HubItem::Lagged(n))), ViewerAction::Continue);
        }
        other => panic!("expected a lag, got {:?}", other),
    }
    assert_eq!(stalled.try_recv().unwrap(), format!("m{}", 250 - 128));
}

#[test]
fn viewer_pushes_messages_and_skips_lag() {
    assert_eq!(viewer_next(ViewerEvent::FromHub(HubItem::Message)), ViewerAction::Push);
    assert_eq!(viewer_next(ViewerEvent::FromHub(HubItem::Lagged(3))), ViewerAction::Continue);
    assert_eq!(viewer_next(ViewerEvent::FromHub(HubItem::Closed)), ViewerAction::Close);
    assert_eq!(viewer_next(ViewerEvent::PushFailed), ViewerAction::Close);
}

#[test]
fn viewer_frames_keep_or_close_connection() {
    for f in [ClientFrame::Text, ClientFrame::Binary, ClientFrame::Ping, ClientFrame::Pong] {
        assert_eq!(viewer_next(ViewerEvent::FromClient(f)), ViewerAction::Continue);
    }
    for f in [ClientFrame::Close, ClientFrame::Failed, ClientFrame::Ended] {
        assert_eq!(viewer_next(ViewerEvent::FromClient(f)), ViewerAction::Close);
    }
}
