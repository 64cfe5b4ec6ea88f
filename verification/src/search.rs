use crate::error;
use crate::error::{error_response, ErrorReply, Message};
use crate::event::Event;
use crate::json;
use crate::json::{get, get_text};
use crate::reply;
use crate::reply::{bounded_limit, internal_response};
use crate::text;
use crate::text::{decimal_text, join, same, trim};
use vstd::hash_set::StringHashSet;
use vstd::prelude::*;

verus! {

/// Checks a recall search: it names words or a time range.
pub fn check_recall_search(query: &str, has_start: bool, has_end: bool) -> (r: Result<
    (),
    ErrorReply,
>)
    ensures
        r == if text::trimmed(query@).len() == 0 && !has_start && !has_end {
            Err::<(), ErrorReply>(
                error::error_reply(400, Message::Fixed("query or time range must not be empty")),
            )
        } else {
            Ok(())
        },
{
    if trim(query).is_empty() && !has_start && !has_end {
        Err(error_response(400, Message::Fixed("query or time range must not be empty")))
    } else {
        Ok(())
    }
}

/// A search of the dialogue: the words, how many matches are wanted, and how many candidates are
/// looked at, since not all of them are dialogue.
pub struct DialogueQuery {
    pub text: String,
    pub limit: u64,
    pub candidate_limit: u64,
}

pub open spec fn dialogue_limit(limit: Option<u64>) -> u64 {
    reply::clamped(
        match limit {
            Some(n) => n,
            None => 30,
        },
        1,
        100,
    )
}

pub fn dialogue_query(query: &str, limit: Option<u64>) -> (r: Result<DialogueQuery, ErrorReply>)
    ensures
        if text::trimmed(query@).len() == 0 {
            r == Err::<DialogueQuery, ErrorReply>(
                error::error_reply(400, Message::Fixed("query must not be empty")),
            )
        } else {
            r matches Ok(q) && q.text@ == text::trimmed(query@) && q.limit == dialogue_limit(limit)
                && q.candidate_limit == reply::clamped(
                (8 * dialogue_limit(limit)) as u64,
                dialogue_limit(limit),
                500,
            )
        },
{
    let words = trim(query);
    if words.is_empty() {
        return Err(error_response(400, Message::Fixed("query must not be empty")));
    }
    let limit: u64 = bounded_limit(limit, 30, 1, 100);
    Ok(
        DialogueQuery {
            text: words.to_owned(),
            limit,
            candidate_limit: bounded_limit(Some(8 * limit), limit, limit, 500),
        },
    )
}

/// A session that a principal can see, and its context.
pub struct SessionRef {
    pub id: String,
    pub context_id: String,
}

/// The visible sessions of a context.
pub open spec fn sessions_in(sessions: Seq<SessionRef>, context_id: Seq<char>) -> Set<Seq<char>>
    decreases sessions.len(),
{
    if sessions.len() == 0 {
        Set::empty()
    } else {
        let before = sessions_in(sessions.drop_last(), context_id);
        if sessions.last().context_id@ == context_id {
            before.insert(sessions.last().id@)
        } else {
            before
        }
    }
}

pub fn visible_sessions(sessions: &Vec<SessionRef>, context_id: &str) -> (r: StringHashSet)
    ensures
        r@ == sessions_in(sessions@, context_id@),
{
    let mut ids = StringHashSet::new();
    let mut i: usize = 0;
    proof {
        assert(sessions@.subrange(0, 0) =~= Seq::<SessionRef>::empty());
    }
    while i < sessions.len()
        invariant
            0 <= i <= sessions.len(),
            ids@ == sessions_in(sessions@.subrange(0, i as int), context_id@),
        decreases sessions.len() - i,
    {
        proof {
            assert(sessions@.subrange(0, i + 1).drop_last() =~= sessions@.subrange(0, i as int));
        }
        if same(sessions[i].context_id.as_str(), context_id) {
            ids.insert(sessions[i].id.clone());
        }
        i = i + 1;
    }
    proof {
        assert(sessions@.subrange(0, sessions@.len() as int) =~= sessions@);
    }
    ids
}

/// A document that a recall search found.
pub struct RecallHit {
    pub is_event: bool,
    pub document_id: String,
}

/// What a match of a dialogue search is.
#[derive(PartialEq, Eq, Structural, Clone, Copy, Debug)]
pub enum DialogueKind {
    User,
    Coordination,
    ExecutionResult,
    Agent,
}

impl DialogueKind {
    pub open spec fn spec_as_str(self) -> &'static str {
        match self {
            DialogueKind::User => "user",
            DialogueKind::Coordination => "coordination",
            DialogueKind::ExecutionResult => "execution_result",
            DialogueKind::Agent => "agent",
        }
    }

    pub fn as_str(self) -> (r: &'static str)
        ensures
            r == self.spec_as_str(),
    {
        match self {
            DialogueKind::User => "user",
            DialogueKind::Coordination => "coordination",
            DialogueKind::ExecutionResult => "execution_result",
            DialogueKind::Agent => "agent",
        }
    }
}

/// Topics of messages that a dialogue shows.
pub open spec fn is_dialogue_topic(topic: Seq<char>) -> bool {
    ||| topic == "chat/user_message"@
    ||| topic == "chat/steering"@
    ||| topic == "chat/reply"@
    ||| topic == "chat/outbound_message"@
    ||| topic == "chat/session_signal"@
}

/// Whether an event is a message of a visible session.
pub open spec fn is_visible_dialogue(event: Event, visible: Set<Seq<char>>) -> bool {
    &&& is_dialogue_topic(event.topic@)
    &&& json::text_member(event.payload@, "session_id"@) matches Some(session_id)
        && visible.contains(session_id)
}

/// Whether a reply tells of work beside the dialogue.
pub open spec fn is_execution_result(event: Event) -> bool {
    ||| json::text_member(event.payload@, "delivery_kind"@) == Some("thread_delivery"@)
    ||| (json::text_member(event.payload@, "thread_kind"@) matches Some(kind) && kind
        != "dialogue_turn"@)
    ||| json::member(event.payload@, "objective_id"@) is Some
}

pub open spec fn dialogue_kind(event: Event) -> DialogueKind {
    let topic = event.topic@;
    if topic == "chat/user_message"@ || topic == "chat/steering"@ {
        DialogueKind::User
    } else if topic == "chat/session_signal"@ {
        DialogueKind::Coordination
    } else if (topic == "chat/reply"@ || topic == "chat/outbound_message"@) && is_execution_result(
        event,
    ) {
        DialogueKind::ExecutionResult
    } else {
        DialogueKind::Agent
    }
}

/// A match: the hit, the event behind it, and what it is.
#[derive(PartialEq, Eq, Structural, Clone, Copy, Debug)]
pub struct DialogueMatch {
    pub hit: usize,
    pub event: usize,
    pub kind: DialogueKind,
}

/// The visible message with an identifier; of several the last one.
pub open spec fn message_for(events: Seq<Event>, visible: Set<Seq<char>>, id: Seq<char>) -> Option<
    int,
>
    decreases events.len(),
{
    if events.len() == 0 {
        None
    } else if events.last().id@ == id && is_visible_dialogue(events.last(), visible) {
        Some(events.len() - 1)
    } else {
        message_for(events.drop_last(), visible, id)
    }
}

/// The matches for the hits, in their order.
pub open spec fn matches_for(
    hits: Seq<RecallHit>,
    events: Seq<Event>,
    visible: Set<Seq<char>>,
) -> Seq<DialogueMatch>
    decreases hits.len(),
{
    if hits.len() == 0 {
        Seq::empty()
    } else {
        let before = matches_for(hits.drop_last(), events, visible);
        match message_for(events, visible, hits.last().document_id@) {
            Some(i) if hits.last().is_event => before.push(
                DialogueMatch {
                    hit: (hits.len() - 1) as usize,
                    event: i as usize,
                    kind: dialogue_kind(events[i]),
                },
            ),
            _ => before,
        }
    }
}

fn visible_dialogue(event: &Event, visible: &StringHashSet) -> (r: bool)
    ensures
        r == is_visible_dialogue(*event, visible@),
{
    let topic = event.topic.as_str();
    if !(same(topic, "chat/user_message") || same(topic, "chat/steering") || same(
        topic,
        "chat/reply",
    ) || same(topic, "chat/outbound_message") || same(topic, "chat/session_signal")) {
        return false;
    }
    match get_text(&event.payload, "session_id") {
        Some(session_id) => visible.contains(session_id.as_str()),
        None => false,
    }
}

fn kind_of(event: &Event) -> (r: DialogueKind)
    ensures
        r == dialogue_kind(*event),
{
    let topic = event.topic.as_str();
    if same(topic, "chat/user_message") || same(topic, "chat/steering") {
        return DialogueKind::User;
    }
    if same(topic, "chat/session_signal") {
        return DialogueKind::Coordination;
    }
    if same(topic, "chat/reply") || same(topic, "chat/outbound_message") {
        let delivered: bool = match get_text(&event.payload, "delivery_kind") {
            Some(kind) => same(kind.as_str(), "thread_delivery"),
            None => false,
        };
        let threaded: bool = match get_text(&event.payload, "thread_kind") {
            Some(kind) => !same(kind.as_str(), "dialogue_turn"),
            None => false,
        };
        if delivered || threaded || get(&event.payload, "objective_id").is_some() {
            return DialogueKind::ExecutionResult;
        }
    }
    DialogueKind::Agent
}

fn find_message(events: &Vec<Event>, visible: &StringHashSet, id: &str) -> (r: Option<usize>)
    ensures
        match message_for(events@, visible@, id@) {
            Some(i) => r matches Some(k) && k == i && k < events@.len(),
            None => r is None,
        },
{
    let mut n: usize = events.len();
    proof {
        assert(events@.subrange(0, n as int) =~= events@);
    }
    while n > 0
        invariant
            0 <= n <= events.len(),
            message_for(events@, visible@, id@) == message_for(
                events@.subrange(0, n as int),
                visible@,
                id@,
            ),
        decreases n,
    {
        proof {
            assert(events@.subrange(0, n as int).drop_last() =~= events@.subrange(0, n - 1));
            assert(events@.subrange(0, n as int).last() == events@[n - 1]);
        }
        if same(events[n - 1].id.as_str(), id) && visible_dialogue(&events[n - 1], visible) {
            return Some(n - 1);
        }
        n = n - 1;
    }
    None
}

/// The positions of the hits that are events.
pub fn event_hits(hits: &Vec<RecallHit>) -> (r: Vec<usize>)
    ensures
        forall|k: int| 0 <= k < r.len() ==> (#[trigger] r[k]) < hits.len() && hits[r[k] as int].is_event,
        forall|i: int|
            0 <= i < hits.len() && (#[trigger] hits[i]).is_event ==> r@.contains(i as usize),
        forall|a: int, b: int| 0 <= a < b < r.len() ==> r[a] < r[b],
{
    let mut found: Vec<usize> = Vec::new();
    let mut i: usize = 0;
    while i < hits.len()
        invariant
            0 <= i <= hits.len(),
            forall|k: int|
                0 <= k < found.len() ==> (#[trigger] found[k]) < i && hits[found[k] as int].is_event,
            forall|j: int|
                0 <= j < i && (#[trigger] hits[j]).is_event ==> found@.contains(j as usize),
            forall|a: int, b: int| 0 <= a < b < found.len() ==> found[a] < found[b],
        decreases hits.len() - i,
    {
        let ghost before = found@;
        if hits[i].is_event {
            found.push(i);
            proof {
                assert(found@[found@.len() - 1] == i);
                assert forall|j: int| 0 <= j < i + 1 && (#[trigger] hits[j]).is_event implies
                    found@.contains(j as usize) by {
                    if j < i {
                        let k = choose|k: int| 0 <= k < before.len() && before[k] == j as usize;
                        assert(found@[k] == j as usize);
                    }
                }
            }
        }
        i = i + 1;
    }
    found
}

/// The matches of a dialogue search, best hits first. Only messages of visible sessions are shown:
/// what recall finds besides never leaks.
pub fn dialogue_matches(
    hits: &Vec<RecallHit>,
    events: &Vec<Event>,
    visible: &StringHashSet,
    limit: usize,
) -> (r: Vec<DialogueMatch>)
    ensures
        r@ == if matches_for(hits@, events@, visible@).len() <= limit {
            matches_for(hits@, events@, visible@)
        } else {
            matches_for(hits@, events@, visible@).subrange(0, limit as int)
        },
{
    let mut found: Vec<DialogueMatch> = Vec::new();
    let mut i: usize = 0;
    proof {
        assert(hits@.subrange(0, 0) =~= Seq::<RecallHit>::empty());
    }
    while i < hits.len()
        invariant
            0 <= i <= hits.len(),
            found@ == matches_for(hits@.subrange(0, i as int), events@, visible@),
        decreases hits.len() - i,
    {
        proof {
            assert(hits@.subrange(0, i + 1).drop_last() =~= hits@.subrange(0, i as int));
            assert(hits@.subrange(0, i + 1).last() == hits@[i as int]);
        }
        if hits[i].is_event {
            match find_message(events, visible, hits[i].document_id.as_str()) {
                Some(k) => {
                    let kind = kind_of(&events[k]);
                    found.push(DialogueMatch { hit: i, event: k, kind });
                },
                None => {},
            }
        }
        proof {
            assert(found@ =~= matches_for(hits@.subrange(0, i + 1), events@, visible@));
        }
        i = i + 1;
    }
    proof {
        assert(hits@.subrange(0, hits@.len() as int) =~= hits@);
    }
    found.truncate(limit);
    found
}

proof fn lemma_message_for(events: Seq<Event>, visible: Set<Seq<char>>, id: Seq<char>)
    ensures
        message_for(events, visible, id) matches Some(i) ==> 0 <= i < events.len() && events[i].id@
            == id && is_visible_dialogue(events[i], visible),
    decreases events.len(),
{
    if events.len() > 0 {
        lemma_message_for(events.drop_last(), visible, id);
    }
}

/// Every match is a message of a visible session, and the event that the hit names.
pub proof fn law_dialogue_search_shows_only_visible_messages(
    hits: Seq<RecallHit>,
    events: Seq<Event>,
    visible: Set<Seq<char>>,
    k: int,
)
    requires
        hits.len() <= usize::MAX,
        events.len() <= usize::MAX,
        0 <= k < matches_for(hits, events, visible).len(),
    ensures
        ({
            let found = matches_for(hits, events, visible)[k];
            &&& found.hit < hits.len() && found.event < events.len()
            &&& hits[found.hit as int].is_event
            &&& events[found.event as int].id@ == hits[found.hit as int].document_id@
            &&& is_visible_dialogue(events[found.event as int], visible)
            &&& found.kind == dialogue_kind(events[found.event as int])
        }),
    decreases hits.len(),
{
    let front = hits.drop_last();
    lemma_message_for(events, visible, hits.last().document_id@);
    if k < matches_for(front, events, visible).len() {
        law_dialogue_search_shows_only_visible_messages(front, events, visible, k);
        let found = matches_for(front, events, visible)[k];
        assert(front[found.hit as int] == hits[found.hit as int]);
    }
}

/// What is done to a frame.
#[derive(PartialEq, Eq, Structural, Clone, Copy, Debug)]
pub enum FrameAction {
    Restore,
    Protect,
    Unprotect,
}

impl FrameAction {
    pub open spec fn spec_as_str(self) -> &'static str {
        match self {
            FrameAction::Restore => "restore",
            FrameAction::Protect => "protect",
            FrameAction::Unprotect => "unprotect",
        }
    }

    pub fn as_str(self) -> (r: &'static str)
        ensures
            r == self.spec_as_str(),
    {
        match self {
            FrameAction::Restore => "restore",
            FrameAction::Protect => "protect",
            FrameAction::Unprotect => "unprotect",
        }
    }
}

pub open spec fn frame_action_of(action: Seq<char>) -> Option<FrameAction> {
    let word = text::trimmed(action);
    if word == "restore"@ {
        Some(FrameAction::Restore)
    } else if word == "protect"@ {
        Some(FrameAction::Protect)
    } else if word == "unprotect"@ {
        Some(FrameAction::Unprotect)
    } else {
        None
    }
}

pub fn frame_action(action: &str) -> (r: Result<FrameAction, ErrorReply>)
    ensures
        r == match frame_action_of(action@) {
            Some(found) => Ok::<FrameAction, ErrorReply>(found),
            None => Err(
                error::error_reply(
                    400,
                    Message::Fixed("action supports only restore, protect, or unprotect"),
                ),
            ),
        },
{
    let word = trim(action);
    if same(word, "restore") {
        Ok(FrameAction::Restore)
    } else if same(word, "protect") {
        Ok(FrameAction::Protect)
    } else if same(word, "unprotect") {
        Ok(FrameAction::Unprotect)
    } else {
        Err(
            error_response(
                400,
                Message::Fixed("action supports only restore, protect, or unprotect"),
            ),
        )
    }
}

/// Whether a frame of a context may be changed through a session, given the session's context.
pub fn check_frame_session(session_context: Result<Option<String>, String>, context_id: &str) -> (r:
    Result<(), ErrorReply>)
    ensures
        r == match session_context {
            Err(_) => Err::<(), ErrorReply>(reply::internal_reply()),
            Ok(None) => Err(error::error_reply(404, Message::Fixed("Session does not exist"))),
            Ok(Some(found)) => if found@ != context_id@ {
                Err(
                    error::error_reply(
                        400,
                        Message::Fixed("Session does not belong to the target Context"),
                    ),
                )
            } else {
                Ok(())
            },
        },
{
    match session_context {
        Err(_) => Err(internal_response()),
        Ok(None) => Err(error_response(404, Message::Fixed("Session does not exist"))),
        Ok(Some(found)) => if !same(found.as_str(), context_id) {
            Err(
                error_response(
                    400,
                    Message::Fixed("Session does not belong to the target Context"),
                ),
            )
        } else {
            Ok(())
        },
    }
}

/// The reason that is recorded with a change of a frame.
pub fn frame_reason(reason: Option<String>, action: FrameAction) -> (r: String)
    ensures
        r@ == match reason {
            Some(text) => text@,
            None => "Dashboard requested Frame action "@ + action.spec_as_str()@,
        },
{
    match reason {
        Some(text) => text,
        None => join("Dashboard requested Frame action ", action.as_str()),
    }
}

/// The transaction that changes a frame. The reason and the frame are given as they are written in
/// an S-expression.
pub fn frame_transaction(
    expected_version: u64,
    reason_atom: &str,
    action: FrameAction,
    frame_atom: &str,
) -> (r: String)
    ensures
        r@ == "(context-tx (base-version "@ + text::decimal(expected_version as nat) + ") (reason "@
            + reason_atom@ + ") ("@ + action.spec_as_str()@ + " "@ + frame_atom@ + "))"@,
{
    let a = join("(context-tx (base-version ", decimal_text(expected_version).as_str());
    let b = join(join(a.as_str(), ") (reason ").as_str(), reason_atom);
    let c = join(join(b.as_str(), ") (").as_str(), action.as_str());
    join(join(join(c.as_str(), " ").as_str(), frame_atom).as_str(), "))")
}

/// The recall of a frame with its defaults filled in.
pub struct FrameRecall {
    pub depth: u64,
    pub include_bodies: bool,
    pub include_events: bool,
    pub max_nodes: u64,
    pub cursor: Option<String>,
}

pub fn frame_recall(
    depth: Option<u64>,
    include_bodies: Option<bool>,
    include_events: Option<bool>,
    max_nodes: Option<u64>,
    cursor: Option<String>,
) -> (r: FrameRecall)
    ensures
        r == (FrameRecall {
            depth: if depth is Some {
                depth->0
            } else {
                0
            },
            include_bodies: include_bodies != Some(false),
            include_events: include_events == Some(true),
            max_nodes: if max_nodes is Some {
                max_nodes->0
            } else {
                32
            },
            cursor: match cursor {
                Some(text) if text::trimmed(text@).len() > 0 => Some(text),
                _ => None,
            },
        }),
{
    let cursor: Option<String> = match cursor {
        Some(text) => if trim(text.as_str()).is_empty() {
            None
        } else {
            Some(text)
        },
        None => None,
    };
    FrameRecall {
        depth: match depth {
            Some(n) => n,
            None => 0,
        },
        include_bodies: match include_bodies {
            Some(b) => b,
            None => true,
        },
        include_events: match include_events {
            Some(b) => b,
            None => false,
        },
        max_nodes: match max_nodes {
            Some(n) => n,
            None => 32,
        },
        cursor,
    }
}

/// The topics of the dialogue are five different ones.
proof fn lemma_dialogue_topics_differ()
    ensures
        "chat/reply"@ != "chat/user_message"@,
        "chat/reply"@ != "chat/steering"@,
        "chat/reply"@ != "chat/session_signal"@,
        "chat/outbound_message"@ != "chat/user_message"@,
        "chat/outbound_message"@ != "chat/steering"@,
        "chat/outbound_message"@ != "chat/session_signal"@,
        "chat/session_signal"@ != "chat/user_message"@,
        "chat/session_signal"@ != "chat/steering"@,
{
    reveal_strlit("chat/reply");
    reveal_strlit("chat/user_message");
    reveal_strlit("chat/steering");
    reveal_strlit("chat/session_signal");
    reveal_strlit("chat/outbound_message");
    assert("chat/reply"@.len() == 10);
    assert("chat/steering"@.len() == 13);
    assert("chat/user_message"@.len() == 17);
    assert("chat/session_signal"@.len() == 19);
    assert("chat/outbound_message"@.len() == 21);
}

/// A match is labelled by who said it. What users say and how they steer is theirs, signals between
/// sessions are coordination. What the agent says in a turn of the dialogue is the agent's, and what
/// it says of work beside the dialogue (delivered from a thread, said in another kind of thread, or
/// for an objective) is a result of execution.
pub proof fn law_matches_are_labelled_by_who_said_them(event: Event)
    ensures
        ({
            let topic = event.topic@;
            let payload = event.payload@;
            let said = topic == "chat/reply"@ || topic == "chat/outbound_message"@;
            let delivered = json::member(payload, "delivery_kind"@) matches Some(
                json::Json::Text(kind),
            ) && kind@ == "thread_delivery"@;
            let objective = json::member(payload, "objective_id"@) is Some;
            &&& topic == "chat/user_message"@ || topic == "chat/steering"@ ==> dialogue_kind(event)
                == DialogueKind::User
            &&& topic == "chat/session_signal"@ ==> dialogue_kind(event)
                == DialogueKind::Coordination
            &&& said && delivered ==> dialogue_kind(event) == DialogueKind::ExecutionResult
            &&& said && objective ==> dialogue_kind(event) == DialogueKind::ExecutionResult
            &&& said ==> (json::member(payload, "thread_kind"@) matches Some(json::Json::Text(kind))
                ==> (kind@ != "dialogue_turn"@ ==> dialogue_kind(event)
                == DialogueKind::ExecutionResult))
            &&& said && !delivered && !objective ==> (json::member(
                payload,
                "thread_kind"@,
            ) matches Some(json::Json::Text(kind)) ==> (kind@ == "dialogue_turn"@ ==> dialogue_kind(
                event,
            ) == DialogueKind::Agent))
            &&& said && !delivered && !objective && !(json::member(
                payload,
                "thread_kind"@,
            ) matches Some(json::Json::Text(_))) ==> dialogue_kind(event) == DialogueKind::Agent
        }),
{
    lemma_dialogue_topics_differ();
}

/// The labels have these names.
pub proof fn law_labels_are_fixed(kind: DialogueKind, action: FrameAction)
    ensures
        kind == DialogueKind::User ==> kind.spec_as_str() == "user",
        kind == DialogueKind::Coordination ==> kind.spec_as_str() == "coordination",
        kind == DialogueKind::ExecutionResult ==> kind.spec_as_str() == "execution_result",
        kind == DialogueKind::Agent ==> kind.spec_as_str() == "agent",
        action == FrameAction::Restore ==> action.spec_as_str() == "restore",
        action == FrameAction::Protect ==> action.spec_as_str() == "protect",
        action == FrameAction::Unprotect ==> action.spec_as_str() == "unprotect",
{
}

/// Only what was said in a dialogue is shown, and only in a session that the principal can see.
pub proof fn law_what_is_shown_was_said_in_a_visible_session(event: Event, visible: Set<Seq<char>>)
    ensures
        is_visible_dialogue(event, visible) <==> (event.topic@ == "chat/user_message"@
            || event.topic@ == "chat/steering"@ || event.topic@ == "chat/reply"@ || event.topic@
            == "chat/outbound_message"@ || event.topic@ == "chat/session_signal"@) && (json::member(
            event.payload@,
            "session_id"@,
        ) matches Some(json::Json::Text(session)) && visible.contains(session@)),
{
}

/// The sessions of a context are those that name it.
pub proof fn law_visible_sessions_are_those_of_the_context(
    sessions: Seq<SessionRef>,
    context_id: Seq<char>,
    id: Seq<char>,
)
    ensures
        sessions_in(sessions, context_id).contains(id) <==> exists|i: int|
            0 <= i < sessions.len() && (#[trigger] sessions[i]).context_id@ == context_id
                && sessions[i].id@ == id,
    decreases sessions.len(),
{
    if sessions.len() > 0 {
        let front = sessions.drop_last();
        law_visible_sessions_are_those_of_the_context(front, context_id, id);
        assert forall|i: int| 0 <= i < front.len() implies #[trigger] sessions[i] == front[i] by {}
        assert(sessions.last() == sessions[sessions.len() - 1]);
        if exists|i: int|
            0 <= i < sessions.len() && (#[trigger] sessions[i]).context_id@ == context_id
                && sessions[i].id@ == id {
            let i = choose|i: int|
                0 <= i < sessions.len() && (#[trigger] sessions[i]).context_id@ == context_id
                    && sessions[i].id@ == id;
            if i < front.len() {
                assert(front[i].context_id@ == context_id && front[i].id@ == id);
            }
        }
        if sessions_in(front, context_id).contains(id) {
            let i = choose|i: int|
                0 <= i < front.len() && (#[trigger] front[i]).context_id@ == context_id
                    && front[i].id@ == id;
            assert(sessions[i].context_id@ == context_id && sessions[i].id@ == id);
        }
    }
}

/// A hit that names a visible message is a match: nothing that may be shown is left out. Matches come
/// in the order of their hits, and a hit has one match at most.
pub proof fn law_every_visible_hit_is_a_match(
    hits: Seq<RecallHit>,
    events: Seq<Event>,
    visible: Set<Seq<char>>,
)
    requires
        hits.len() <= usize::MAX,
    ensures
        forall|h: int, e: int|
            #![trigger hits[h], events[e]]
            0 <= h < hits.len() && 0 <= e < events.len() && hits[h].is_event && events[e].id@
                == hits[h].document_id@ && is_visible_dialogue(events[e], visible) ==> exists|k: int|
                0 <= k < matches_for(hits, events, visible).len() && (#[trigger] matches_for(
                    hits,
                    events,
                    visible,
                )[k]).hit == h,
        forall|a: int, b: int|
            0 <= a < b < matches_for(hits, events, visible).len() ==> (#[trigger] matches_for(
                hits,
                events,
                visible,
            )[a]).hit < (#[trigger] matches_for(hits, events, visible)[b]).hit,
        forall|a: int|
            0 <= a < matches_for(hits, events, visible).len() ==> (#[trigger] matches_for(
                hits,
                events,
                visible,
            )[a]).hit < hits.len(),
    decreases hits.len(),
{
    if hits.len() > 0 {
        let front = hits.drop_last();
        law_every_visible_hit_is_a_match(front, events, visible);
        let all = matches_for(hits, events, visible);
        let before = matches_for(front, events, visible);
        assert forall|a: int| 0 <= a < before.len() implies #[trigger] all[a] == before[a] by {}
        assert forall|h: int, e: int|
            #![trigger hits[h], events[e]]
            0 <= h < hits.len() && 0 <= e < events.len() && hits[h].is_event && events[e].id@
                == hits[h].document_id@ && is_visible_dialogue(
                events[e],
                visible,
            ) implies exists|k: int| 0 <= k < all.len() && (#[trigger] all[k]).hit == h by {
            if h < front.len() {
                assert(front[h] == hits[h]);
                let k = choose|k: int| 0 <= k < before.len() && (#[trigger] before[k]).hit == h;
                assert(all[k].hit == h);
            } else {
                lemma_visible_message_is_found(events, visible, hits.last().document_id@, e);
                assert(all[all.len() - 1].hit == h);
            }
        }
    }
}

proof fn lemma_visible_message_is_found(
    events: Seq<Event>,
    visible: Set<Seq<char>>,
    id: Seq<char>,
    e: int,
)
    requires
        0 <= e < events.len(),
        events[e].id@ == id,
        is_visible_dialogue(events[e], visible),
    ensures
        message_for(events, visible, id) is Some,
    decreases events.len(),
{
    if e < events.len() - 1 {
        lemma_visible_message_is_found(events.drop_last(), visible, id, e);
    }
}

/// A search gives 30 matches where it does not say how many, and from one to 100.
pub proof fn law_searches_give_a_bounded_number(limit: Option<u64>)
    ensures
        limit is None ==> dialogue_limit(limit) == 30,
        limit matches Some(n) && 1 <= n <= 100 ==> dialogue_limit(limit) == limit->0,
        limit matches Some(n) && n < 1 ==> dialogue_limit(limit) == 1,
        limit matches Some(n) && n > 100 ==> dialogue_limit(limit) == 100,
{
}

/// A frame is restored, protected or unprotected by these words, spaces around them aside, and by no
/// others.
pub proof fn law_frames_are_changed_by_these_words(action: Seq<char>)
    ensures
        text::trimmed(action) == "restore"@ ==> frame_action_of(action) == Some(
            FrameAction::Restore,
        ),
        text::trimmed(action) == "protect"@ ==> frame_action_of(action) == Some(
            FrameAction::Protect,
        ),
        text::trimmed(action) == "unprotect"@ ==> frame_action_of(action) == Some(
            FrameAction::Unprotect,
        ),
        frame_action_of(action) matches Some(found) ==> text::trimmed(action)
            == found.spec_as_str()@,
{
    reveal_strlit("restore");
    reveal_strlit("protect");
    reveal_strlit("unprotect");
    assert("restore"@[0] == 'r' && "protect"@[0] == 'p' && "unprotect"@[0] == 'u');
}

} // verus!
