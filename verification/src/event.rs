use crate::error::Message;
use crate::ident::clock_nanos;
use crate::json;
use crate::json::{get, get_bool, get_text, Field, Json};
use crate::text;
use crate::text::{chars_of, join, same, signed_decimal_text};
use vstd::hash_set::StringHashSet;
use vstd::prelude::*;

verus! {

/// A point in time: seconds since the Unix epoch, and nanoseconds within the second.
#[derive(PartialEq, Eq, Structural, Clone, Copy, Debug)]
pub struct Timestamp {
    pub seconds: i64,
    pub nanos: u32,
}

/// A runtime event. A durable one carries its physical sequence number.
pub struct Event {
    pub id: String,
    pub actor: String,
    pub event_type: String,
    pub topic: String,
    pub timestamp: Timestamp,
    pub sequence: Option<u64>,
    pub payload: Vec<Field>,
}

/// The members of an event's payload that belong to the typed session channel, before they are read.
pub struct ChannelMembers<'a> {
    /// What holds an accepted input.
    pub input: Option<&'a Json>,
    /// What holds a committed message.
    pub output: Option<&'a Json>,
}

impl Event {
    pub fn channel_members<'a>(&'a self) -> (r: ChannelMembers<'a>)
        ensures
            shows(r.input, *self, "session_io"@),
            shows(r.output, *self, "io_message"@),
    {
        ChannelMembers {
            input: get(&self.payload, "session_io"),
            output: get(&self.payload, "io_message"),
        }
    }
}

/// How `chrono` writes a time in JSON, `None` where it is outside its range.
pub uninterp spec fn timestamp_json(seconds: i64, nanos: u32) -> Option<Seq<char>>;

/// How `chrono` writes a time with a numeric offset, `None` where it is outside its range.
pub uninterp spec fn timestamp_rfc3339(seconds: i64, nanos: u32) -> Option<Seq<char>>;

/// `chrono::DateTime::from_timestamp`, then `to_rfc3339_opts` with the precision and the suffix
/// that its JSON form has. The text is a function of the time alone.
#[verifier::external_body]
pub(crate) fn json_time(t: Timestamp) -> (r: Option<String>)
    ensures
        crate::headers::opt_string(r) == timestamp_json(t.seconds, t.nanos),
{
    match chrono::DateTime::from_timestamp(t.seconds, t.nanos) {
        Some(time) => Some(time.to_rfc3339_opts(chrono::SecondsFormat::AutoSi, true)),
        None => None,
    }
}

/// `chrono::DateTime::from_timestamp`, then `to_rfc3339`. The text is a function of the time
/// alone.
#[verifier::external_body]
pub(crate) fn rfc3339_time(t: Timestamp) -> (r: Option<String>)
    ensures
        crate::headers::opt_string(r) == timestamp_rfc3339(t.seconds, t.nanos),
{
    match chrono::DateTime::from_timestamp(t.seconds, t.nanos) {
        Some(time) => Some(time.to_rfc3339()),
        None => None,
    }
}

/// Topics of pure observability: their events are no user activity.
pub open spec fn is_observability_topic(topic: Seq<char>) -> bool {
    ||| topic == "runtime/model_stream"@
    ||| topic == "runtime/model_reasoning_summary"@
    ||| topic == "runtime/model_usage"@
    ||| topic == "runtime/model_attempt_state"@
    ||| topic == "runtime/model_attempt_snapshot"@
    ||| topic == "runtime/model_request_snapshot"@
    ||| topic == "chat/context_inspect"@
}

/// Whether mirroring an event counts as activity of its session. Replaying provider deltas and
/// model snapshots must not make an inactive session look active.
pub fn dashboard_event_requires_session_touch(event: &Event) -> (r: bool)
    ensures
        r == !is_observability_topic(event.topic@),
{
    let topic = event.topic.as_str();
    !(same(topic, "runtime/model_stream") || same(topic, "runtime/model_reasoning_summary") || same(
        topic,
        "runtime/model_usage",
    ) || same(topic, "runtime/model_attempt_state") || same(topic, "runtime/model_attempt_snapshot")
        || same(topic, "runtime/model_request_snapshot") || same(topic, "chat/context_inspect"))
}

/// Whether `a` comes before or at `b` in the order of their characters.
pub open spec fn text_le(a: Seq<char>, b: Seq<char>) -> bool
    decreases a.len(),
{
    if a.len() == 0 {
        true
    } else if b.len() == 0 {
        false
    } else if a[0] != b[0] {
        a[0] < b[0]
    } else {
        text_le(a.drop_first(), b.drop_first())
    }
}

/// The order of optional texts: an absent one comes first.
pub open spec fn key_le(a: Option<Seq<char>>, b: Option<Seq<char>>) -> bool {
    match (a, b) {
        (None, _) => true,
        (Some(_), None) => false,
        (Some(x), Some(y)) => text_le(x, y),
    }
}

proof fn lemma_text_le_total(a: Seq<char>, b: Seq<char>)
    ensures
        text_le(a, b) || text_le(b, a),
    decreases a.len(),
{
    if a.len() > 0 && b.len() > 0 && a[0] == b[0] {
        lemma_text_le_total(a.drop_first(), b.drop_first());
    }
}

proof fn lemma_text_le_transitive(a: Seq<char>, b: Seq<char>, c: Seq<char>)
    requires
        text_le(a, b),
        text_le(b, c),
    ensures
        text_le(a, c),
    decreases a.len(),
{
    if a.len() > 0 && b.len() > 0 && c.len() > 0 && a[0] == b[0] && b[0] == c[0] {
        lemma_text_le_transitive(a.drop_first(), b.drop_first(), c.drop_first());
    }
}

fn chars_le(a: &Vec<char>, b: &Vec<char>) -> (r: bool)
    ensures
        r == text_le(a@, b@),
{
    let mut i: usize = 0;
    proof {
        assert(a@.subrange(0, a@.len() as int) =~= a@);
        assert(b@.subrange(0, b@.len() as int) =~= b@);
    }
    while i < a.len() && i < b.len() && a[i] == b[i]
        invariant
            0 <= i <= a.len(),
            i <= b.len(),
            text_le(a@, b@) == text_le(
                a@.subrange(i as int, a@.len() as int),
                b@.subrange(i as int, b@.len() as int),
            ),
        decreases a.len() - i,
    {
        proof {
            assert(a@.subrange(i as int, a@.len() as int).drop_first() =~= a@.subrange(
                i + 1,
                a@.len() as int,
            ));
            assert(b@.subrange(i as int, b@.len() as int).drop_first() =~= b@.subrange(
                i + 1,
                b@.len() as int,
            ));
        }
        i = i + 1;
    }
    if i >= a.len() {
        true
    } else if i >= b.len() {
        false
    } else {
        a[i] < b[i]
    }
}

/// Whether `a` comes before or at `b` in the order of their characters.
pub fn texts_in_order(a: &str, b: &str) -> (r: bool)
    ensures
        r == text_le(a@, b@),
{
    chars_le(&chars_of(a), &chars_of(b))
}

/// The order of texts is total and transitive.
pub proof fn lemma_text_order(a: Seq<char>, b: Seq<char>, c: Seq<char>)
    ensures
        text_le(a, b) || text_le(b, a),
        text_le(a, b) && text_le(b, c) ==> text_le(a, c),
{
    lemma_text_le_total(a, b);
    if text_le(a, b) && text_le(b, c) {
        lemma_text_le_transitive(a, b, c);
    }
}

/// The sort key of an event's time.
pub open spec fn time_key(event: Event) -> Option<Seq<char>> {
    timestamp_json(event.timestamp.seconds, event.timestamp.nanos)
}

/// Whether event `i` is the last one of its model attempt.
pub open spec fn is_latest_of_attempt(events: Seq<Event>, i: int) -> bool {
    &&& 0 <= i < events.len()
    &&& attempt_of(events[i]) is Some
    &&& forall|j: int|
        i < j < events.len() ==> attempt_of(#[trigger] events[j]) != attempt_of(events[i])
}

pub open spec fn attempt_of(event: Event) -> Option<Seq<char>> {
    json::text_member(event.payload@, "attempt_id"@)
}

/// Whether an attempt state is still open and belongs to a live activation.
pub open spec fn is_live_state(event: Event, active: Set<Seq<char>>) -> bool {
    &&& json::bool_member(event.payload@, "terminal"@) != Some(true)
    &&& json::text_member(event.payload@, "activation_id"@) matches Some(id) && active.contains(id)
}

/// Whether event `i` tells the current state of a live model attempt.
pub open spec fn is_live_attempt(events: Seq<Event>, active: Set<Seq<char>>, i: int) -> bool {
    is_latest_of_attempt(events, i) && is_live_state(events[i], active)
}

/// Whether `order` lists the events that tell the current states of the live attempts, each once,
/// in the order of their times.
pub open spec fn is_attempt_order(
    events: Seq<Event>,
    active: Set<Seq<char>>,
    order: Seq<int>,
) -> bool {
    &&& order.no_duplicates()
    &&& forall|i: int| #[trigger] order.contains(i) <==> is_live_attempt(events, active, i)
    &&& forall|a: int, b: int|
        0 <= a <= b < order.len() ==> key_le(
            time_key(events[#[trigger] order[a]]),
            time_key(events[#[trigger] order[b]]),
        )
}

/// The current state of a model attempt, as the dashboard shows it.
pub struct ModelAttempt<'a> {
    pub attempt_id: Option<&'a Json>,
    pub activation_id: Option<&'a Json>,
    pub thread_id: Option<&'a Json>,
    pub root_turn_id: Option<&'a Json>,
    pub thread_kind: Option<&'a Json>,
    pub objective_id: Option<&'a Json>,
    pub state: Option<&'a Json>,
    pub continuation_pending: Option<&'a Json>,
    pub detail: Option<&'a Json>,
    pub timestamp: Timestamp,
}

/// Whether a borrowed member is the one that the payload holds under a name.
pub open spec fn shows(shown: Option<&Json>, event: Event, name: Seq<char>) -> bool {
    match json::member(event.payload@, name) {
        Some(value) => shown matches Some(found) && *found == value,
        None => shown is None,
    }
}

impl<'a> ModelAttempt<'a> {
    pub open spec fn is_projection_of(&self, event: Event) -> bool {
        &&& shows(self.attempt_id, event, "attempt_id"@)
        &&& shows(self.activation_id, event, "activation_id"@)
        &&& shows(self.thread_id, event, "thread_id"@)
        &&& shows(self.root_turn_id, event, "root_turn_id"@)
        &&& shows(self.thread_kind, event, "thread_kind"@)
        &&& shows(self.objective_id, event, "objective_id"@)
        &&& shows(self.state, event, "state"@)
        &&& shows(self.continuation_pending, event, "continuation_pending"@)
        &&& shows(self.detail, event, "detail"@)
        &&& self.timestamp == event.timestamp
    }
}

pub fn project_attempt<'a>(event: &'a Event) -> (r: ModelAttempt<'a>)
    ensures
        r.is_projection_of(*event),
{
    ModelAttempt {
        attempt_id: get(&event.payload, "attempt_id"),
        activation_id: get(&event.payload, "activation_id"),
        thread_id: get(&event.payload, "thread_id"),
        root_turn_id: get(&event.payload, "root_turn_id"),
        thread_kind: get(&event.payload, "thread_kind"),
        objective_id: get(&event.payload, "objective_id"),
        state: get(&event.payload, "state"),
        continuation_pending: get(&event.payload, "continuation_pending"),
        detail: get(&event.payload, "detail"),
        timestamp: event.timestamp,
    }
}

fn live_attempt(events: &Vec<Event>, active: &StringHashSet, i: usize) -> (r: bool)
    requires
        i < events.len(),
    ensures
        r == is_live_attempt(events@, active@, i as int),
{
    let attempt = match get_text(&events[i].payload, "attempt_id") {
        Some(text) => text,
        None => {
            return false;
        },
    };
    match get_bool(&events[i].payload, "terminal") {
        Some(true) => {
            return false;
        },
        _ => {},
    }
    match get_text(&events[i].payload, "activation_id") {
        Some(id) => {
            if !active.contains(id.as_str()) {
                return false;
            }
        },
        None => {
            return false;
        },
    }
    let mut j: usize = i + 1;
    while j < events.len()
        invariant
            i < j <= events.len(),
            attempt_of(events[i as int]) == Some(attempt@),
            forall|k: int|
                i < k < j ==> attempt_of(#[trigger] events@[k]) != attempt_of(events@[i as int]),
        decreases events.len() - j,
    {
        match get_text(&events[j].payload, "attempt_id") {
            Some(other) => {
                if same(other.as_str(), attempt.as_str()) {
                    proof {
                        assert(attempt_of(events@[j as int]) == attempt_of(events@[i as int]));
                    }
                    return false;
                }
            },
            None => {},
        }
        j = j + 1;
    }
    true
}

fn time_chars(event: &Event) -> (r: Option<Vec<char>>)
    ensures
        match time_key(*event) {
            Some(key) => r matches Some(v) && v@ == key,
            None => r is None,
        },
{
    match json_time(event.timestamp) {
        Some(text) => Some(chars_of(text.as_str())),
        None => None,
    }
}

fn time_le(a: &Option<Vec<char>>, b: &Option<Vec<char>>) -> (r: bool)
    ensures
        r == key_le(
            match a {
                Some(v) => Some(v@),
                None => None,
            },
            match b {
                Some(v) => Some(v@),
                None => None,
            },
        ),
{
    match (a, b) {
        (None, _) => true,
        (Some(_), None) => false,
        (Some(x), Some(y)) => chars_le(x, y),
    }
}

pub open spec fn as_ints(order: Seq<usize>) -> Seq<int> {
    order.map_values(|i: usize| i as int)
}

proof fn lemma_key_le_total(a: Option<Seq<char>>, b: Option<Seq<char>>)
    ensures
        key_le(a, b) || key_le(b, a),
{
    if a is Some && b is Some {
        lemma_text_le_total(a->0, b->0);
    }
}

proof fn lemma_key_le_transitive(
    a: Option<Seq<char>>,
    b: Option<Seq<char>>,
    c: Option<Seq<char>>,
)
    requires
        key_le(a, b),
        key_le(b, c),
    ensures
        key_le(a, c),
{
    if a is Some && b is Some && c is Some {
        lemma_text_le_transitive(a->0, b->0, c->0);
    }
}

/// Puts event `i` behind all events of `order` that are not later.
fn insert_by_time(events: &Vec<Event>, order: &mut Vec<usize>, i: usize)
    requires
        i < events.len(),
        forall|a: int| 0 <= a < old(order).len() ==> old(order)[a] < events.len(),
        !old(order)@.contains(i),
        old(order)@.no_duplicates(),
        forall|a: int, b: int|
            0 <= a <= b < old(order).len() ==> key_le(
                time_key(events@[#[trigger] old(order)@[a] as int]),
                time_key(events@[#[trigger] old(order)@[b] as int]),
            ),
    ensures
        forall|a: int| 0 <= a < final(order).len() ==> final(order)[a] < events.len(),
        final(order)@.no_duplicates(),
        forall|x: usize| #[trigger] final(order)@.contains(x) <==> old(order)@.contains(x) || x == i,
        forall|a: int, b: int|
            0 <= a <= b < final(order).len() ==> key_le(
                time_key(events@[#[trigger] final(order)@[a] as int]),
                time_key(events@[#[trigger] final(order)@[b] as int]),
            ),
{
    let ghost before = order@;
    let key = time_chars(&events[i]);
    let mut at: usize = order.len();
    loop
        invariant
            order@ == before,
            0 <= at <= order.len(),
            i < events.len(),
            match time_key(events@[i as int]) {
                Some(text) => key matches Some(v) && v@ == text,
                None => key is None,
            },
            forall|a: int| 0 <= a < order.len() ==> order[a] < events.len(),
            forall|a: int|
                at <= a < order.len() ==> key_le(
                    time_key(events@[i as int]),
                    time_key(events@[#[trigger] order@[a] as int]),
                ),
        ensures
            at > 0 ==> key_le(
                time_key(events@[order@[at - 1] as int]),
                time_key(events@[i as int]),
            ),
        decreases at,
    {
        if at == 0 {
            break;
        }
        let other = time_chars(&events[order[at - 1]]);
        if time_le(&other, &key) {
            break;
        }
        proof {
            lemma_key_le_total(
                time_key(events@[order@[at - 1] as int]),
                time_key(events@[i as int]),
            );
        }
        at = at - 1;
    }
    order.insert(at, i);
    proof {
        let after = order@;
        let k = time_key(events@[i as int]);
        assert(after[at as int] == i);
        assert forall|x: usize| #[trigger] after.contains(x) <==> before.contains(x) || x == i by {
            if before.contains(x) {
                let j = choose|j: int| 0 <= j < before.len() && before[j] == x;
                if j < at {
                    assert(after[j] == x);
                } else {
                    assert(after[j + 1] == x);
                }
            }
            if after.contains(x) && x != i {
                let j = choose|j: int| 0 <= j < after.len() && after[j] == x;
                if j < at {
                    assert(before[j] == x);
                } else {
                    assert(before[j - 1] == x);
                }
            }
            if x == i {
                assert(after[at as int] == x);
            }
        }
        assert forall|a: int, b: int| 0 <= a < after.len() && 0 <= b < after.len() && a != b implies
            after[a] != after[b] by {
            let x = if a < at { a } else { a - 1 };
            let y = if b < at { b } else { b - 1 };
            if a == at {
                assert(before[y] == after[b]);
            } else if b == at {
                assert(before[x] == after[a]);
            } else {
                assert(before[x] == after[a]);
                assert(before[y] == after[b]);
            }
        }
        assert forall|a: int, b: int| 0 <= a <= b < after.len() implies key_le(
            time_key(events@[#[trigger] after[a] as int]),
            time_key(events@[#[trigger] after[b] as int]),
        ) by {
            let ka = time_key(events@[after[a] as int]);
            let kb = time_key(events@[after[b] as int]);
            if a == b {
                lemma_key_le_total(ka, kb);
            } else if a < at && b < at {
                assert(after[a] == before[a] && after[b] == before[b]);
            } else if a > at {
                assert(after[a] == before[a - 1] && after[b] == before[b - 1]);
            } else if a == at {
                assert(after[b] == before[b - 1]);
            } else {
                let low = before[at - 1];
                assert(after[a] == before[a]);
                assert(key_le(time_key(events@[before[a] as int]), time_key(events@[low as int])));
                lemma_key_le_transitive(ka, time_key(events@[low as int]), k);
                if b > at {
                    assert(after[b] == before[b - 1]);
                    lemma_key_le_transitive(ka, k, kb);
                }
            }
        }
    }
}

/// The positions of the events that tell the current states of the live attempts, in the order of
/// their times.
fn attempt_order(events: &Vec<Event>, active: &StringHashSet) -> (r: Vec<usize>)
    ensures
        is_attempt_order(events@, active@, as_ints(r@)),
        forall|a: int| 0 <= a < r.len() ==> r[a] < events.len(),
{
    let mut order: Vec<usize> = Vec::new();
    let mut i: usize = 0;
    while i < events.len()
        invariant
            0 <= i <= events.len(),
            forall|a: int| 0 <= a < order.len() ==> order[a] < events.len(),
            order@.no_duplicates(),
            forall|x: usize| #[trigger]
                order@.contains(x) <==> x < i && is_live_attempt(events@, active@, x as int),
            forall|a: int, b: int|
                0 <= a <= b < order.len() ==> key_le(
                    time_key(events@[#[trigger] order@[a] as int]),
                    time_key(events@[#[trigger] order@[b] as int]),
                ),
        decreases events.len() - i,
    {
        if live_attempt(events, active, i) {
            insert_by_time(events, &mut order, i);
        }
        i = i + 1;
    }
    proof {
        let ints = as_ints(order@);
        assert forall|x: int| #[trigger] ints.contains(x) <==> is_live_attempt(
            events@,
            active@,
            x,
        ) by {
            if ints.contains(x) {
                let j = choose|j: int| 0 <= j < ints.len() && ints[j] == x;
                assert(order@[j] as int == x);
                assert(order@.contains(order@[j]));
            }
            if is_live_attempt(events@, active@, x) {
                assert(order@.contains(x as usize));
                let j = choose|j: int| 0 <= j < order.len() && order@[j] == x as usize;
                assert(ints[j] == x);
            }
        }
        assert(ints.no_duplicates());
        assert forall|a: int, b: int| 0 <= a <= b < ints.len() implies key_le(
            time_key(events@[#[trigger] ints[a]]),
            time_key(events@[#[trigger] ints[b]]),
        ) by {
            assert(ints[a] == order@[a] as int);
            assert(ints[b] == order@[b] as int);
        }
    }
    order
}

/// The current states of the model attempts that are still open and belong to a live activation,
/// in the order of their times. The states of one attempt are folded to the last one.
pub fn fold_active_model_attempts<'a>(events: &'a Vec<Event>, active_activation_ids: &StringHashSet) -> (r:
    Vec<ModelAttempt<'a>>)
    ensures
        exists|order: Seq<int>|
            {
                &&& #[trigger] is_attempt_order(events@, active_activation_ids@, order)
                &&& r.len() == order.len()
                &&& forall|i: int|
                    0 <= i < r.len() ==> (#[trigger] r[i]).is_projection_of(events@[order[i]])
            },
{
    let order = attempt_order(events, active_activation_ids);
    let mut attempts: Vec<ModelAttempt<'a>> = Vec::new();
    let mut i: usize = 0;
    while i < order.len()
        invariant
            0 <= i <= order.len(),
            attempts.len() == i,
            forall|a: int| 0 <= a < order.len() ==> order[a] < events.len(),
            forall|k: int|
                0 <= k < i ==> (#[trigger] attempts[k]).is_projection_of(
                    events@[as_ints(order@)[k]],
                ),
        decreases order.len() - i,
    {
        let projected = project_attempt(&events[order[i]]);
        attempts.push(projected);
        i = i + 1;
    }
    attempts
}

/// The sequence number from which the durable event tail starts, given the newest stored event.
pub fn initial_tail_cursor(events: &Vec<Event>) -> (r: u64)
    ensures
        r == if events@.len() > 0 && events@.last().sequence is Some {
            events@.last().sequence->0
        } else {
            0
        },
{
    if events.len() == 0 {
        0
    } else {
        match events[events.len() - 1].sequence {
            Some(sequence) => sequence,
            None => 0,
        }
    }
}

/// Two events of one attempt are never both shown, and a closed attempt is not shown at all.
pub proof fn law_snapshot_shows_each_live_attempt_once(
    events: Seq<Event>,
    active: Set<Seq<char>>,
    order: Seq<int>,
    a: int,
    b: int,
)
    requires
        is_attempt_order(events, active, order),
        0 <= a < b < order.len(),
    ensures
        attempt_of(events[order[a]]) != attempt_of(events[order[b]]),
        json::bool_member(events[order[a]].payload@, "terminal"@) != Some(true),
        json::text_member(events[order[a]].payload@, "activation_id"@) matches Some(id)
            && active.contains(id),
{
    assert(order.contains(order[a]));
    assert(order.contains(order[b]));
    assert(order[a] != order[b]);
    if order[a] < order[b] {
        assert(attempt_of(events[order[b]]) != attempt_of(events[order[a]]));
    } else {
        assert(attempt_of(events[order[a]]) != attempt_of(events[order[b]]));
    }
}

/// How many states of model attempts a snapshot is folded from.
pub const SNAPSHOT_EVENT_COUNT: usize = 4096;

/// The event with which a socket is told the open model attempts of its session.
pub struct ModelAttemptSnapshot<'a> {
    pub id: String,
    pub actor: &'static str,
    pub event_type: &'static str,
    pub topic: &'static str,
    pub context_id: String,
    pub session_id: String,
    pub attempts: Vec<ModelAttempt<'a>>,
}

/// The identifier of a snapshot that is taken at this time.
pub open spec fn snapshot_id(nanos: int) -> Seq<char> {
    "model_attempt_snapshot_"@ + text::signed_decimal(nanos)
}

/// The context of a session whose attempts are asked for.
pub fn snapshot_context(session_id: String, context_id: Option<String>) -> (r: Result<
    String,
    Message,
>)
    ensures
        r == match context_id {
            Some(found) => Ok::<String, Message>(found),
            None => Err(
                Message::Around { before: "Session '", value: session_id, after: "' does not exist" },
            ),
        },
{
    match context_id {
        Some(found) => Ok(found),
        None => Err(
            Message::Around { before: "Session '", value: session_id, after: "' does not exist" },
        ),
    }
}

impl<'a> ModelAttemptSnapshot<'a> {
    /// Whether this is the snapshot of a session, from the states that were read and the activations
    /// that are live, whenever it was taken.
    pub open spec fn is_snapshot_of(
        &self,
        session_id: String,
        context_id: String,
        events: Seq<Event>,
        active: Set<Seq<char>>,
    ) -> bool {
        &&& self.actor == "Runtime-Web"
        &&& self.event_type == "runtime_ephemeral"
        &&& self.topic == "runtime/model_attempt_snapshot"
        &&& self.context_id == context_id
        &&& self.session_id == session_id
        &&& exists|order: Seq<int>|
            {
                &&& #[trigger] is_attempt_order(events, active, order)
                &&& self.attempts.len() == order.len()
                &&& forall|i: int|
                    0 <= i < self.attempts.len() ==> (
                    #[trigger] self.attempts[i]).is_projection_of(events[order[i]])
            }
    }
}

/// The snapshot of a session that is taken now.
pub fn model_attempt_snapshot_event<'a>(
    session_id: String,
    context_id: String,
    events: &'a Vec<Event>,
    active_activation_ids: &StringHashSet,
) -> (r: ModelAttemptSnapshot<'a>)
    ensures
        exists|nanos: int| r.id@ == #[trigger] snapshot_id(nanos),
        r.is_snapshot_of(session_id, context_id, events@, active_activation_ids@),
{
    model_attempt_snapshot_at(clock_nanos(), session_id, context_id, events, active_activation_ids)
}

/// The snapshot of a session that is taken at a time.
pub fn model_attempt_snapshot_at<'a>(
    nanos: Option<i64>,
    session_id: String,
    context_id: String,
    events: &'a Vec<Event>,
    active_activation_ids: &StringHashSet,
) -> (r: ModelAttemptSnapshot<'a>)
    ensures
        r.id@ == snapshot_id(
            match nanos {
                Some(n) => n as int,
                None => 0,
            },
        ),
        r.is_snapshot_of(session_id, context_id, events@, active_activation_ids@),
{
    let time: i64 = match nanos {
        Some(n) => n,
        None => 0,
    };
    ModelAttemptSnapshot {
        id: join("model_attempt_snapshot_", signed_decimal_text(time).as_str()),
        actor: "Runtime-Web",
        event_type: "runtime_ephemeral",
        topic: "runtime/model_attempt_snapshot",
        context_id,
        session_id,
        attempts: fold_active_model_attempts(events, active_activation_ids),
    }
}

/// Texts are in the order of a dictionary: a text comes before what it is the beginning of, and where
/// two texts part, the one with the smaller character comes first.
pub proof fn law_texts_are_in_dictionary_order(
    common: Seq<char>,
    a: Seq<char>,
    b: Seq<char>,
)
    ensures
        text_le(common, common + a),
        a.len() > 0 ==> !text_le(common + a, common),
        a.len() > 0 && b.len() > 0 && a[0] < b[0] ==> text_le(common + a, common + b) && !text_le(
            common + b,
            common + a,
        ),
    decreases common.len(),
{
    if common.len() == 0 {
        assert(common + a =~= a);
        assert(common + b =~= b);
    } else {
        law_texts_are_in_dictionary_order(common.drop_first(), a, b);
        assert((common + a).drop_first() =~= common.drop_first() + a);
        assert((common + b).drop_first() =~= common.drop_first() + b);
        assert((common + a)[0] == common[0] && (common + b)[0] == common[0]);
    }
}

/// Two texts that are in order both ways are the same.
pub proof fn law_text_order_is_strict(a: Seq<char>, b: Seq<char>)
    ensures
        text_le(a, b) && text_le(b, a) <==> a == b,
    decreases a.len(),
{
    if a.len() > 0 && b.len() > 0 && a[0] == b[0] {
        law_text_order_is_strict(a.drop_first(), b.drop_first());
        assert(a =~= seq![a[0]] + a.drop_first());
        assert(b =~= seq![b[0]] + b.drop_first());
    } else if a.len() == 0 && b.len() == 0 {
        assert(a =~= b);
    }
}

/// What has no time comes before what has one, and times are in the order of their texts.
pub proof fn law_events_without_time_come_first(a: Seq<char>, b: Seq<char>)
    ensures
        key_le(None, Some(a)),
        key_le(None, None),
        !key_le(Some(a), None),
        key_le(Some(a), Some(b)) <==> text_le(a, b),
{
}

/// A model attempt is open where the last that is known of it names an activation that is running,
/// and does not say that the attempt is over.
pub proof fn law_open_attempts_are_those_whose_last_state_is_open(
    events: Seq<Event>,
    active: Set<Seq<char>>,
    i: int,
)
    requires
        0 <= i < events.len(),
    ensures
        ({
            let payload = events[i].payload@;
            let attempt = json::text_member(payload, "attempt_id"@);
            let last = forall|j: int|
                i < j < events.len() ==> json::text_member(
                    (#[trigger] events[j]).payload@,
                    "attempt_id"@,
                ) != attempt;
            let over = json::bool_member(payload, "terminal"@) == Some(true);
            let running = json::text_member(payload, "activation_id"@) matches Some(id)
                && active.contains(id);
            is_live_attempt(events, active, i) <==> attempt is Some && last && !over && running
        }),
{
    assert forall|j: int| i < j < events.len() implies attempt_of(#[trigger] events[j])
        == json::text_member(events[j].payload@, "attempt_id"@) by {}
}

/// A snapshot shows every open attempt, and nothing that is not open.
pub proof fn law_snapshots_show_every_open_attempt(
    events: Seq<Event>,
    active: Set<Seq<char>>,
    order: Seq<int>,
    i: int,
)
    requires
        is_attempt_order(events, active, order),
    ensures
        is_live_attempt(events, active, i) ==> order.contains(i),
        order.contains(i) ==> is_live_attempt(events, active, i),
{
}

/// A snapshot comes from the runtime, belongs to its session and context, and is under the topic of
/// snapshots.
pub proof fn law_snapshots_name_their_session<'a>(
    snapshot: ModelAttemptSnapshot<'a>,
    session_id: String,
    context_id: String,
    events: Seq<Event>,
    active: Set<Seq<char>>,
)
    requires
        snapshot.is_snapshot_of(session_id, context_id, events, active),
    ensures
        snapshot.session_id == session_id,
        snapshot.context_id == context_id,
        snapshot.actor@ == "Runtime-Web"@,
        snapshot.event_type@ == "runtime_ephemeral"@,
        snapshot.topic@ == "runtime/model_attempt_snapshot"@,
        is_observability_topic(snapshot.topic@),
{
}

/// What is shown of an attempt is what its last state says of it, member by member.
pub proof fn law_attempts_are_shown_as_they_say<'a>(attempt: ModelAttempt<'a>, event: Event)
    requires
        attempt.is_projection_of(event),
    ensures
        ({
            let payload = event.payload@;
            &&& attempt.attempt_id is Some <==> json::member(payload, "attempt_id"@) is Some
            &&& attempt.attempt_id matches Some(value) ==> json::member(payload, "attempt_id"@)
                == Some(*value)
            &&& attempt.activation_id matches Some(value) ==> json::member(
                payload,
                "activation_id"@,
            ) == Some(*value)
            &&& attempt.activation_id is Some <==> json::member(payload, "activation_id"@) is Some
            &&& attempt.thread_id matches Some(value) ==> json::member(payload, "thread_id"@)
                == Some(*value)
            &&& attempt.thread_id is Some <==> json::member(payload, "thread_id"@) is Some
            &&& attempt.root_turn_id matches Some(value) ==> json::member(payload, "root_turn_id"@)
                == Some(*value)
            &&& attempt.root_turn_id is Some <==> json::member(payload, "root_turn_id"@) is Some
            &&& attempt.thread_kind matches Some(value) ==> json::member(payload, "thread_kind"@)
                == Some(*value)
            &&& attempt.thread_kind is Some <==> json::member(payload, "thread_kind"@) is Some
            &&& attempt.objective_id matches Some(value) ==> json::member(payload, "objective_id"@)
                == Some(*value)
            &&& attempt.objective_id is Some <==> json::member(payload, "objective_id"@) is Some
            &&& attempt.state matches Some(value) ==> json::member(payload, "state"@) == Some(
                *value,
            )
            &&& attempt.state is Some <==> json::member(payload, "state"@) is Some
            &&& attempt.continuation_pending matches Some(value) ==> json::member(
                payload,
                "continuation_pending"@,
            ) == Some(*value)
            &&& attempt.continuation_pending is Some <==> json::member(
                payload,
                "continuation_pending"@,
            ) is Some
            &&& attempt.detail matches Some(value) ==> json::member(payload, "detail"@) == Some(
                *value,
            )
            &&& attempt.detail is Some <==> json::member(payload, "detail"@) is Some
            &&& attempt.timestamp == event.timestamp
        }),
{
}

/// Events that only tell how a model is doing do not count as activity of their session; these are
/// their topics, and every other event counts.
pub proof fn law_observations_are_no_activity(topic: Seq<char>)
    ensures
        is_observability_topic("runtime/model_stream"@),
        is_observability_topic("runtime/model_reasoning_summary"@),
        is_observability_topic("runtime/model_usage"@),
        is_observability_topic("runtime/model_attempt_state"@),
        is_observability_topic("runtime/model_attempt_snapshot"@),
        is_observability_topic("runtime/model_request_snapshot"@),
        is_observability_topic("chat/context_inspect"@),
        is_observability_topic(topic) ==> text::starts_with(topic, "runtime/model_"@) || topic
            == "chat/context_inspect"@,
{
    reveal_strlit("runtime/model_");
    reveal_strlit("runtime/model_stream");
    reveal_strlit("runtime/model_reasoning_summary");
    reveal_strlit("runtime/model_usage");
    reveal_strlit("runtime/model_attempt_state");
    reveal_strlit("runtime/model_attempt_snapshot");
    reveal_strlit("runtime/model_request_snapshot");
    let prefix = "runtime/model_"@;
    assert("runtime/model_stream"@.subrange(0, prefix.len() as int) =~= prefix);
    assert("runtime/model_reasoning_summary"@.subrange(0, prefix.len() as int) =~= prefix);
    assert("runtime/model_usage"@.subrange(0, prefix.len() as int) =~= prefix);
    assert("runtime/model_attempt_state"@.subrange(0, prefix.len() as int) =~= prefix);
    assert("runtime/model_attempt_snapshot"@.subrange(0, prefix.len() as int) =~= prefix);
    assert("runtime/model_request_snapshot"@.subrange(0, prefix.len() as int) =~= prefix);
}

/// A snapshot shows its attempts by their times, the earliest first.
pub proof fn law_snapshots_are_in_order_of_time(
    events: Seq<Event>,
    active: Set<Seq<char>>,
    order: Seq<int>,
    a: int,
    b: int,
)
    requires
        is_attempt_order(events, active, order),
        0 <= a < b < order.len(),
    ensures
        key_le(
            timestamp_json(
                events[order[a]].timestamp.seconds,
                events[order[a]].timestamp.nanos,
            ),
            timestamp_json(
                events[order[b]].timestamp.seconds,
                events[order[b]].timestamp.nanos,
            ),
        ),
{
}

} // verus!
