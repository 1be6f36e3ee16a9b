//! Per-message dispatch decisions: decode, existence check, append, broadcast.
//!
//! The caller performs each action (decoding, storage calls, the broadcast) and
//! feeds the outcome back as an event; the decisions live here.

use vstd::prelude::*;
use crate::topic::{route_topic, topic_shape, MessageClass, Route, TopicShape};
use vstd::string::StringSliceAdditionalSpecFns;

verus! {

/// A live broadcast group; one per message class.
#[derive(Clone, Copy, Debug, PartialEq, Eq, Structural)]
pub enum Group {
    Flight,
    Location,
}

/// The group that viewers of a message class subscribe to.
pub open spec fn spec_group_of(class: MessageClass) -> Group {
    match class {
        MessageClass::Location => Group::Location,
        MessageClass::State => Group::Flight,
    }
}

pub fn group_of(class: MessageClass) -> (g: Group)
    ensures
        g == spec_group_of(class),
{
    match class {
        MessageClass::Location => Group::Location,
        MessageClass::State => Group::Flight,
    }
}

/// What a track append does to a record: push `pairs` coordinate pairs and add
/// `point_increment` to the point counter. The last-update time is always set.
#[derive(Clone, Copy, Debug, PartialEq, Eq, Structural)]
pub struct TrackUpdate {
    pub pairs: usize,
    pub point_increment: u32,
}

/// The append for a batch of `pairs` coordinate pairs: one point per non-empty
/// batch, whatever its size.
pub open spec fn spec_track_update(pairs: usize) -> TrackUpdate {
    TrackUpdate { pairs, point_increment: if pairs > 0 { 1 } else { 0 } }
}

pub fn track_update(pairs: usize) -> (u: TrackUpdate)
    ensures
        u == spec_track_update(pairs),
{
    TrackUpdate { pairs, point_increment: if pairs > 0 { 1 } else { 0 } }
}

/// The counters of a stored track record.
pub struct TrackTally {
    pub points: nat,
    pub coordinates: nat,
}

/// A track record after an append.
pub open spec fn apply_track(t: TrackTally, u: TrackUpdate) -> TrackTally {
    TrackTally {
        points: (t.points + u.point_increment) as nat,
        coordinates: (t.coordinates + u.pairs) as nat,
    }
}

/// The outcome of decoding a payload.
#[derive(Clone, Copy, Debug, PartialEq, Eq, Structural)]
pub enum Decoded {
    /// An array of this many coordinate pairs.
    Pairs(usize),
    /// A complete five-field state record.
    Record,
    /// Neither shape.
    Invalid,
}

/// The outcome of looking the entity up.
#[derive(Clone, Copy, Debug, PartialEq, Eq, Structural)]
pub enum Lookup {
    Found,
    Missing,
    Failed,
}

/// What the caller reports back after performing an action.
#[derive(Clone, Copy, Debug, PartialEq, Eq, Structural)]
pub enum DispatchEvent {
    Decoded(Decoded),
    Looked(Lookup),
    /// How the storage append ended.
    Applied(Appended),
}

/// The outcome of a storage append.
#[derive(Clone, Copy, Debug, PartialEq, Eq, Structural)]
pub enum Appended {
    /// The append ran and matched this many records; none matched when the
    /// entity was removed after the existence check.
    Matched(u64),
    /// The append reported an error.
    Failed,
}

/// Whether an append changed the entity's record.
pub open spec fn took_effect(a: Appended) -> bool {
    match a {
        Appended::Matched(n) => n > 0,
        Appended::Failed => false,
    }
}

/// Why a message was dropped.
#[derive(Clone, Copy, Debug, PartialEq, Eq, Structural)]
pub enum Discard {
    MalformedTopic,
    UnknownClass,
    UndecodablePayload,
    EntityMissing,
    LookupFailed,
    ApplyFailed,
    /// An event arrived that the current stage does not wait for.
    OutOfTurn,
}

/// The update that waits for the existence check.
#[derive(Clone, Copy, Debug, PartialEq, Eq, Structural)]
pub enum Pending {
    Track(TrackUpdate),
    State,
}

/// Where a message is in its dispatch.
#[derive(Clone, Copy, Debug, PartialEq, Eq, Structural)]
pub enum Stage {
    Decoding(MessageClass),
    Checking(Pending),
    Applying(MessageClass),
    Done,
}

/// What the caller does next.
#[derive(Clone, Copy, Debug, PartialEq, Eq, Structural)]
pub enum DispatchAction {
    /// Decode the payload as the shape of this class.
    Decode(MessageClass),
    /// Look up the routed entity.
    CheckExists,
    /// Append the track batch to the routed entity.
    AppendTrack(TrackUpdate),
    /// Append the state record to the routed entity.
    AppendState,
    /// Send the notice for the message to this group.
    Broadcast(Group),
    /// Drop the message.
    Discard(Discard),
}

/// The first decision for a topic.
pub open spec fn spec_begin(shape: TopicShape) -> (Stage, DispatchAction) {
    match shape {
        TopicShape::Malformed => (Stage::Done, DispatchAction::Discard(Discard::MalformedTopic)),
        TopicShape::Unknown => (Stage::Done, DispatchAction::Discard(Discard::UnknownClass)),
        TopicShape::Location(_) => (
            Stage::Decoding(MessageClass::Location),
            DispatchAction::Decode(MessageClass::Location),
        ),
        TopicShape::State(_) => (
            Stage::Decoding(MessageClass::State),
            DispatchAction::Decode(MessageClass::State),
        ),
    }
}

/// The decision after each reported outcome.
pub open spec fn spec_next(stage: Stage, event: DispatchEvent) -> (Stage, DispatchAction) {
    match (stage, event) {
        (Stage::Decoding(MessageClass::Location), DispatchEvent::Decoded(Decoded::Pairs(n))) => {
            if n > 0 {
                (Stage::Checking(Pending::Track(spec_track_update(n))), DispatchAction::CheckExists)
            } else {
                (Stage::Done, DispatchAction::Discard(Discard::UndecodablePayload))
            }
        },
        (Stage::Decoding(MessageClass::State), DispatchEvent::Decoded(Decoded::Record)) => {
            (Stage::Checking(Pending::State), DispatchAction::CheckExists)
        },
        (Stage::Decoding(_), DispatchEvent::Decoded(_)) => {
            (Stage::Done, DispatchAction::Discard(Discard::UndecodablePayload))
        },
        (Stage::Checking(p), DispatchEvent::Looked(l)) => match l {
            Lookup::Found => match p {
                Pending::Track(u) => (
                    Stage::Applying(MessageClass::Location),
                    DispatchAction::AppendTrack(u),
                ),
                Pending::State => (Stage::Applying(MessageClass::State), DispatchAction::AppendState),
            },
            Lookup::Missing => (Stage::Done, DispatchAction::Discard(Discard::EntityMissing)),
            Lookup::Failed => (Stage::Done, DispatchAction::Discard(Discard::LookupFailed)),
        },
        (Stage::Applying(c), DispatchEvent::Applied(a)) => {
            if took_effect(a) {
                (Stage::Done, DispatchAction::Broadcast(spec_group_of(c)))
            } else {
                (Stage::Done, DispatchAction::Discard(Discard::ApplyFailed))
            }
        },
        _ => (Stage::Done, DispatchAction::Discard(Discard::OutOfTurn)),
    }
}

/// Starts the dispatch of a message on `topic`: returns the route, the stage
/// and the first action.
pub fn begin(topic: &str) -> (r: (Route, Stage, DispatchAction))
    ensures
        r.0@ == topic_shape(topic.spec_bytes()),
        (r.1, r.2) == spec_begin(topic_shape(topic.spec_bytes())),
{
    let route = route_topic(topic);
    let (stage, action) = match &route {
        Route::Malformed => (Stage::Done, DispatchAction::Discard(Discard::MalformedTopic)),
        Route::Unknown => (Stage::Done, DispatchAction::Discard(Discard::UnknownClass)),
        Route::Location(_) => (
            Stage::Decoding(MessageClass::Location),
            DispatchAction::Decode(MessageClass::Location),
        ),
        Route::State(_) => (
            Stage::Decoding(MessageClass::State),
            DispatchAction::Decode(MessageClass::State),
        ),
    };
    (route, stage, action)
}

/// The next stage and action after `event`.
pub fn next(stage: Stage, event: DispatchEvent) -> (r: (Stage, DispatchAction))
    ensures
        r == spec_next(stage, event),
{
    match (stage, event) {
        (Stage::Decoding(MessageClass::Location), DispatchEvent::Decoded(Decoded::Pairs(n))) => {
            if n > 0 {
                (Stage::Checking(Pending::Track(track_update(n))), DispatchAction::CheckExists)
            } else {
                (Stage::Done, DispatchAction::Discard(Discard::UndecodablePayload))
            }
        },
        (Stage::Decoding(MessageClass::State), DispatchEvent::Decoded(Decoded::Record)) => {
            (Stage::Checking(Pending::State), DispatchAction::CheckExists)
        },
        (Stage::Decoding(_), DispatchEvent::Decoded(_)) => {
            (Stage::Done, DispatchAction::Discard(Discard::UndecodablePayload))
        },
        (Stage::Checking(p), DispatchEvent::Looked(l)) => match l {
            Lookup::Found => match p {
                Pending::Track(u) => (
                    Stage::Applying(MessageClass::Location),
                    DispatchAction::AppendTrack(u),
                ),
                Pending::State => (Stage::Applying(MessageClass::State), DispatchAction::AppendState),
            },
            Lookup::Missing => (Stage::Done, DispatchAction::Discard(Discard::EntityMissing)),
            Lookup::Failed => (Stage::Done, DispatchAction::Discard(Discard::LookupFailed)),
        },
        (Stage::Applying(c), DispatchEvent::Applied(a)) => {
            if match a {
                Appended::Matched(n) => n > 0,
                Appended::Failed => false,
            } {
                (Stage::Done, DispatchAction::Broadcast(group_of(c)))
            } else {
                (Stage::Done, DispatchAction::Discard(Discard::ApplyFailed))
            }
        },
        _ => (Stage::Done, DispatchAction::Discard(Discard::OutOfTurn)),
    }
}

/// The actions produced by feeding `events` one by one from `stage`.
pub open spec fn spec_run(stage: Stage, events: Seq<DispatchEvent>) -> Seq<DispatchAction>
    decreases events.len(),
{
    if events.len() == 0 {
        Seq::empty()
    } else {
        let (s, a) = spec_next(stage, events[0]);
        seq![a] + spec_run(s, events.drop_first())
    }
}

/// Whether an action changes storage or reaches viewers.
pub open spec fn has_effect(a: DispatchAction) -> bool {
    match a {
        DispatchAction::AppendTrack(_) | DispatchAction::AppendState | DispatchAction::Broadcast(_) => true,
        _ => false,
    }
}

/// Whether a decode outcome is the shape that a message class expects.
pub open spec fn fits(class: MessageClass, d: Decoded) -> bool {
    match (class, d) {
        (MessageClass::Location, Decoded::Pairs(n)) => n > 0,
        (MessageClass::State, Decoded::Record) => true,
        _ => false,
    }
}

/// Once a message is done, whatever is reported afterwards decodes nothing,
/// changes no record and reaches no viewer.
pub proof fn lemma_done_is_final(events: Seq<DispatchEvent>)
    ensures
        spec_run(Stage::Done, events).len() == events.len(),
        forall|i: int|
            0 <= i < events.len() ==> spec_run(Stage::Done, events)[i] == DispatchAction::Discard(
                Discard::OutOfTurn,
            ),
    decreases events.len(),
{
    if events.len() > 0 {
        lemma_done_is_final(events.drop_first());
        let rest = spec_run(Stage::Done, events.drop_first());
        assert(spec_run(Stage::Done, events) == seq![DispatchAction::Discard(Discard::OutOfTurn)]
            + rest);
        assert forall|i: int| 0 <= i < events.len() implies spec_run(Stage::Done, events)[i]
            == DispatchAction::Discard(Discard::OutOfTurn) by {
            if i > 0 {
                assert(spec_run(Stage::Done, events)[i] == rest[i - 1]);
            }
        }
    }
}

/// A payload that does not decode as its class's shape is dropped: neither then
/// nor later is a record changed or a notice broadcast.
pub proof fn lemma_undecodable_payload_dropped(
    class: MessageClass,
    d: Decoded,
    later: Seq<DispatchEvent>,
)
    requires
        !fits(class, d),
    ensures
        spec_next(Stage::Decoding(class), DispatchEvent::Decoded(d)) == (
            Stage::Done,
            DispatchAction::Discard(Discard::UndecodablePayload),
        ),
        forall|i: int| 0 <= i < later.len() ==> !has_effect(#[trigger] spec_run(Stage::Done, later)[i]),
{
    lemma_done_is_final(later);
}

/// An entity that does not exist is never appended to nor announced, whatever
/// the decoded update was.
pub proof fn lemma_missing_entity_dropped(pending: Pending, later: Seq<DispatchEvent>)
    ensures
        spec_next(Stage::Checking(pending), DispatchEvent::Looked(Lookup::Missing)) == (
            Stage::Done,
            DispatchAction::Discard(Discard::EntityMissing),
        ),
        forall|i: int| 0 <= i < later.len() ==> !has_effect(#[trigger] spec_run(Stage::Done, later)[i]),
{
    lemma_done_is_final(later);
}

/// A topic without a class segment is dropped before any decode is attempted.
pub proof fn lemma_malformed_topic_not_decoded(topic: Seq<u8>, later: Seq<DispatchEvent>)
    requires
        topic_shape(topic) == TopicShape::Malformed,
    ensures
        spec_begin(topic_shape(topic)) == (Stage::Done, DispatchAction::Discard(Discard::MalformedTopic)),
        forall|i: int|
            0 <= i < later.len() ==> !(#[trigger] spec_run(Stage::Done, later)[i] is Decode),
{
    lemma_done_is_final(later);
}

/// A location message with a batch of `n >= 1` pairs for an existing entity
/// appends all `n` pairs, adds exactly one point, and, once the append has
/// matched the record, announces the batch to the location group.
pub proof fn lemma_track_batch_counts(topic: Seq<u8>, n: usize, before: TrackTally, matched: u64)
    requires
        topic_shape(topic) is Location,
        n >= 1,
        matched >= 1,
    ensures
        ({
            let (s0, a0) = spec_begin(topic_shape(topic));
            let (s1, a1) = spec_next(s0, DispatchEvent::Decoded(Decoded::Pairs(n)));
            let (s2, a2) = spec_next(s1, DispatchEvent::Looked(Lookup::Found));
            let (s3, a3) = spec_next(s2, DispatchEvent::Applied(Appended::Matched(matched)));
            &&& a0 == DispatchAction::Decode(MessageClass::Location)
            &&& a1 == DispatchAction::CheckExists
            &&& a2 matches DispatchAction::AppendTrack(u) && apply_track(before, u) == (TrackTally {
                points: before.points + 1,
                coordinates: (before.coordinates + n) as nat,
            })
            &&& a3 == DispatchAction::Broadcast(Group::Location)
            &&& s3 == Stage::Done
        }),
{
}

/// A decodable state message for an existing entity is appended once and, once
/// the append has matched the record, announced to the flight group.
pub proof fn lemma_state_record_applied(topic: Seq<u8>, matched: u64)
    requires
        topic_shape(topic) is State,
        matched >= 1,
    ensures
        ({
            let (s0, a0) = spec_begin(topic_shape(topic));
            let (s1, a1) = spec_next(s0, DispatchEvent::Decoded(Decoded::Record));
            let (s2, a2) = spec_next(s1, DispatchEvent::Looked(Lookup::Found));
            let (s3, a3) = spec_next(s2, DispatchEvent::Applied(Appended::Matched(matched)));
            &&& a0 == DispatchAction::Decode(MessageClass::State)
            &&& a1 == DispatchAction::CheckExists
            &&& a2 == DispatchAction::AppendState
            &&& a3 == DispatchAction::Broadcast(Group::Flight)
            &&& s3 == Stage::Done
        }),
{
}

/// An append that failed or matched no record (the entity vanished after the
/// check) is never announced, and nothing follows it.
pub proof fn lemma_unmatched_append_not_broadcast(
    class: MessageClass,
    a: Appended,
    later: Seq<DispatchEvent>,
)
    requires
        !took_effect(a),
    ensures
        spec_next(Stage::Applying(class), DispatchEvent::Applied(a)) == (
            Stage::Done,
            DispatchAction::Discard(Discard::ApplyFailed),
        ),
        forall|i: int| 0 <= i < later.len() ==> !has_effect(#[trigger] spec_run(Stage::Done, later)[i]),
{
    lemma_done_is_final(later);
}

} // verus!
