//! Topic routing: `<namespace>/<entity-id>/<message-class>`.

use vstd::prelude::*;
use vstd::string::StringSliceAdditionalSpecFns;
use vstd::utf8::*;

verus! {

broadcast use vstd::utf8::group_utf8_lib;

/// The closed set of telemetry message classes.
#[derive(Clone, Copy, Debug, PartialEq, Eq, Structural)]
pub enum MessageClass {
    Location,
    State,
}

/// Where a topic sends its message.
#[derive(Clone, Debug, PartialEq, Eq)]
pub enum Route {
    /// Fewer than three segments: discarded before any decode.
    Malformed,
    /// Three segments, but the class is neither `location` nor `state`.
    Unknown,
    /// A track update for the named entity.
    Location(String),
    /// A state update for the named entity.
    State(String),
}

/// A route over the topic's bytes.
pub enum TopicShape {
    Malformed,
    Unknown,
    Location(Seq<u8>),
    State(Seq<u8>),
}

impl View for Route {
    type V = TopicShape;

    open spec fn view(&self) -> TopicShape {
        match self {
            Route::Malformed => TopicShape::Malformed,
            Route::Unknown => TopicShape::Unknown,
            Route::Location(e) => TopicShape::Location(encode_utf8(e@)),
            Route::State(e) => TopicShape::State(encode_utf8(e@)),
        }
    }
}

impl Route {
    /// The message class this route carries, if any.
    pub open spec fn spec_class(self) -> Option<MessageClass> {
        match self {
            Route::Location(_) => Some(MessageClass::Location),
            Route::State(_) => Some(MessageClass::State),
            _ => None,
        }
    }
}

pub open spec fn separator() -> u8 {
    47u8
}

/// The bytes of `location`.
pub open spec fn location_word() -> Seq<u8> {
    seq![108u8, 111u8, 99u8, 97u8, 116u8, 105u8, 111u8, 110u8]
}

/// The bytes of `state`.
pub open spec fn state_word() -> Seq<u8> {
    seq![115u8, 116u8, 97u8, 116u8, 101u8]
}

/// Index of the first `/` in `b` at or after `from`; `b.len()` when there is none.
pub open spec fn next_separator(b: Seq<u8>, from: int) -> int
    decreases b.len() - from,
{
    if from < 0 || from >= b.len() {
        b.len() as int
    } else if b[from] == separator() {
        from
    } else {
        next_separator(b, from + 1)
    }
}

/// The route of a topic given as bytes: split at the first two separators; the
/// middle part names the entity, everything after the second names the class.
pub open spec fn topic_shape(b: Seq<u8>) -> TopicShape {
    let i = next_separator(b, 0);
    let j = next_separator(b, i + 1);
    if i >= b.len() || j >= b.len() {
        TopicShape::Malformed
    } else {
        let entity = b.subrange(i + 1, j);
        let class = b.subrange(j + 1, b.len() as int);
        if class == location_word() {
            TopicShape::Location(entity)
        } else if class == state_word() {
            TopicShape::State(entity)
        } else {
            TopicShape::Unknown
        }
    }
}

proof fn lemma_next_separator_bounds(b: Seq<u8>, from: int)
    requires
        0 <= from <= b.len(),
    ensures
        from <= next_separator(b, from) <= b.len(),
        next_separator(b, from) < b.len() ==> b[next_separator(b, from)] == separator(),
    decreases b.len() - from,
{
    if from < b.len() && b[from] != separator() {
        lemma_next_separator_bounds(b, from + 1);
    }
}

fn find_separator(b: &[u8], from: usize) -> (r: usize)
    requires
        from <= b@.len(),
    ensures
        r == next_separator(b@, from as int),
{
    let mut k: usize = from;
    while k < b.len()
        invariant
            from <= k <= b@.len(),
            next_separator(b@, from as int) == next_separator(b@, k as int),
        decreases b@.len() - k,
    {
        if b[k] == 47u8 {
            return k;
        }
        k = k + 1;
    }
    k
}

/// Whether `b[start..]` is exactly `word`.
fn tail_is(b: &[u8], start: usize, word: &[u8]) -> (r: bool)
    requires
        start <= b@.len(),
    ensures
        r == (b@.subrange(start as int, b@.len() as int) == word@),
{
    if b.len() - start != word.len() {
        return false;
    }
    let n = b.len();
    let mut k: usize = 0;
    while k < word.len()
        invariant
            n == b@.len(),
            start + word@.len() == b@.len(),
            start <= b@.len(),
            0 <= k <= word@.len(),
            forall|m: int| 0 <= m < k ==> b@[start + m] == word@[m],
        decreases word@.len() - k,
    {
        if b[start + k] != word[k] {
            assert(b@.subrange(start as int, b@.len() as int)[k as int] != word@[k as int]);
            return false;
        }
        k = k + 1;
    }
    assert(b@.subrange(start as int, b@.len() as int) =~= word@);
    true
}

/// Splits a topic into its entity id and message class.
///
/// A topic needs at least two separators; the class is everything after the
/// second one, so a topic with more than three segments never names a known
/// class.
pub fn route_topic(topic: &str) -> (r: Route)
    ensures
        r@ == topic_shape(topic.spec_bytes()),
{
    let b = topic.as_bytes();
    let i = find_separator(b, 0);
    if i == b.len() {
        return Route::Malformed;
    }
    proof {
        lemma_next_separator_bounds(b@, 0);
    }
    let j = find_separator(b, i + 1);
    if j == b.len() {
        return Route::Malformed;
    }
    proof {
        lemma_next_separator_bounds(b@, i + 1);
    }
    let location = vec![108u8, 111u8, 99u8, 97u8, 116u8, 105u8, 111u8, 110u8];
    let state = vec![115u8, 116u8, 97u8, 116u8, 101u8];
    assert(location@ =~= location_word());
    assert(state@ =~= state_word());
    let is_location = tail_is(b, j + 1, location.as_slice());
    let is_state = tail_is(b, j + 1, state.as_slice());
    if !is_location && !is_state {
        return Route::Unknown;
    }
    let entity = entity_between(topic, i, j);
    if is_location {
        Route::Location(entity)
    } else {
        Route::State(entity)
    }
}

/// The text strictly between two separator positions.
fn entity_between(topic: &str, i: usize, j: usize) -> (r: String)
    requires
        i < j < topic.spec_bytes().len(),
        topic.spec_bytes()[i as int] == separator(),
        topic.spec_bytes()[j as int] == separator(),
    ensures
        encode_utf8(r@) == topic.spec_bytes().subrange(i + 1, j as int),
{
    let ghost b = topic.spec_bytes();
    proof {
        is_char_boundary_iff_not_is_continuation_byte(b, i as int);
    }
    let (_, rest) = topic.split_at(i);
    let ghost rb = rest.spec_bytes();
    assert(rb[0] == separator());
    proof {
        reveal_with_fuel(is_char_boundary, 2);
        assert(length_of_first_scalar(rb) == 1);
    }
    let (_, tail) = rest.split_at(1);
    let ghost tb = tail.spec_bytes();
    assert(tb =~= b.subrange(i + 1, b.len() as int));
    assert(tb[j - i - 1] == separator());
    proof {
        is_char_boundary_iff_not_is_continuation_byte(tb, j - i - 1);
    }
    let (entity, _) = tail.split_at(j - i - 1);
    assert(entity.spec_bytes() =~= b.subrange(i + 1, j as int));
    entity.to_owned()
}

} // verus!
