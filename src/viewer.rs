//! What a viewer connection does with each thing that reaches it.
//!
//! A gateway connection runs two linked loops: one forwards hub messages to
//! the viewer, one reads the viewer's frames. When either stops, both stop.

use vstd::prelude::*;

verus! {

/// What a subscriber's receive handle produced.
#[derive(Clone, Copy, Debug, PartialEq, Eq, Structural)]
pub enum HubItem {
    /// A message to forward.
    Message,
    /// The subscriber fell behind; this many messages were skipped.
    Lagged(u64),
    /// The hub is gone; nothing more will come.
    Closed,
}

/// A frame read from the viewer.
#[derive(Clone, Copy, Debug, PartialEq, Eq, Structural)]
pub enum ClientFrame {
    Text,
    Binary,
    Ping,
    Pong,
    /// The viewer asked to close.
    Close,
    /// Reading failed.
    Failed,
    /// The stream ended.
    Ended,
}

/// What happens to a viewer connection.
#[derive(Clone, Copy, Debug, PartialEq, Eq, Structural)]
pub enum ViewerEvent {
    FromHub(HubItem),
    /// Pushing a message to the viewer failed.
    PushFailed,
    FromClient(ClientFrame),
}

/// What the connection does next.
#[derive(Clone, Copy, Debug, PartialEq, Eq, Structural)]
pub enum ViewerAction {
    /// Push the message to the viewer.
    Push,
    /// Keep going with nothing to push.
    Continue,
    /// Tear the connection down, both loops.
    Close,
}

pub open spec fn spec_viewer_next(e: ViewerEvent) -> ViewerAction {
    match e {
        ViewerEvent::FromHub(HubItem::Message) => ViewerAction::Push,
        ViewerEvent::FromHub(HubItem::Lagged(_)) => ViewerAction::Continue,
        ViewerEvent::FromHub(HubItem::Closed) => ViewerAction::Close,
        ViewerEvent::PushFailed => ViewerAction::Close,
        ViewerEvent::FromClient(f) => match f {
            ClientFrame::Close | ClientFrame::Failed | ClientFrame::Ended => ViewerAction::Close,
            _ => ViewerAction::Continue,
        },
    }
}

/// Decides what a viewer connection does after `e`. A viewer that lagged
/// skips forward and stays connected.
pub fn viewer_next(e: ViewerEvent) -> (r: ViewerAction)
    ensures
        r == spec_viewer_next(e),
        e is FromHub && e->FromHub_0 is Lagged ==> r == ViewerAction::Continue,
{
    match e {
        ViewerEvent::FromHub(HubItem::Message) => ViewerAction::Push,
        ViewerEvent::FromHub(HubItem::Lagged(_)) => ViewerAction::Continue,
        ViewerEvent::FromHub(HubItem::Closed) => ViewerAction::Close,
        ViewerEvent::PushFailed => ViewerAction::Close,
        ViewerEvent::FromClient(f) => match f {
            ClientFrame::Close | ClientFrame::Failed | ClientFrame::Ended => ViewerAction::Close,
            _ => ViewerAction::Continue,
        },
    }
}

} // verus!
