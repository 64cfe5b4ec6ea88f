use crate::error;
use crate::error::{error_response, sdk_error_response, ErrorReply, Message, SdkError};
use crate::event;
use crate::event::{texts_in_order, Timestamp};
use crate::ident::Title;
use crate::json::Json;
use crate::model::NewCognitiveContext;
use crate::mount;
use crate::mount::refuse_identifier;
use crate::reply;
use crate::reply::{internal_response, Body, Reply};
use crate::text;
use crate::text::{byte_count, same, take_chars, trim, Text};
use vstd::prelude::*;

verus! {

/// A context in a list, and whether it is in use or archived.
pub struct ListedContext {
    pub id: String,
    pub active: bool,
}

/// The identifiers of the contexts that are in use, in order.
pub open spec fn active_ids(contexts: Seq<ListedContext>) -> Seq<String>
    decreases contexts.len(),
{
    if contexts.len() == 0 {
        Seq::empty()
    } else if contexts.last().active {
        active_ids(contexts.drop_last()).push(contexts.last().id)
    } else {
        active_ids(contexts.drop_last())
    }
}

/// The contexts whose objectives a secret can be given to: an archived one has none.
pub fn active_contexts(contexts: &Vec<ListedContext>) -> (r: Vec<String>)
    ensures
        r@ == active_ids(contexts@),
{
    let mut ids: Vec<String> = Vec::new();
    let mut i: usize = 0;
    proof {
        assert(contexts@.subrange(0, 0) =~= Seq::<ListedContext>::empty());
    }
    while i < contexts.len()
        invariant
            0 <= i <= contexts.len(),
            ids@ == active_ids(contexts@.subrange(0, i as int)),
        decreases contexts.len() - i,
    {
        proof {
            assert(contexts@.subrange(0, i + 1).drop_last() =~= contexts@.subrange(0, i as int));
        }
        if contexts[i].active {
            ids.push(contexts[i].id.clone());
        }
        i = i + 1;
    }
    proof {
        assert(contexts@.subrange(0, contexts@.len() as int) =~= contexts@);
    }
    ids
}

/// A session of a context, and when it was last active.
pub struct ActiveSession {
    pub id: String,
    pub last_activity_at: Timestamp,
}

/// Whether a point in time comes before another.
pub open spec fn earlier(a: Timestamp, b: Timestamp) -> bool {
    a.seconds < b.seconds || (a.seconds == b.seconds && a.nanos < b.nanos)
}

/// Whether session `b` is at least as good a choice as session `a`: it was active later, or at the
/// same time and its identifier comes first.
pub open spec fn at_most(a: ActiveSession, b: ActiveSession) -> bool {
    earlier(a.last_activity_at, b.last_activity_at) || (a.last_activity_at == b.last_activity_at
        && event::text_le(b.id@, a.id@))
}

fn is_at_most(a: &ActiveSession, b: &ActiveSession) -> (r: bool)
    ensures
        r == at_most(*a, *b),
{
    let x = a.last_activity_at;
    let y = b.last_activity_at;
    if x.seconds < y.seconds || (x.seconds == y.seconds && x.nanos < y.nanos) {
        return true;
    }
    x == y && texts_in_order(b.id.as_str(), a.id.as_str())
}

proof fn lemma_at_most_order(a: ActiveSession, b: ActiveSession, c: ActiveSession)
    ensures
        at_most(a, b) || at_most(b, a),
        at_most(a, b) && at_most(b, c) ==> at_most(a, c),
        at_most(a, a),
{
    event::lemma_text_order(b.id@, a.id@, c.id@);
    event::lemma_text_order(c.id@, b.id@, a.id@);
    event::lemma_text_order(a.id@, a.id@, a.id@);
    event::lemma_text_order(a.id@, b.id@, c.id@);
}

pub open spec fn holds_session(sessions: Seq<ActiveSession>, id: Seq<char>) -> bool {
    exists|i: int| 0 <= i < sessions.len() && (#[trigger] sessions[i]).id@ == id
}

/// Whether `id` is the session that was active last; of several the one whose identifier comes
/// first.
pub open spec fn is_latest_session(sessions: Seq<ActiveSession>, id: String) -> bool {
    exists|k: int|
        0 <= k < sessions.len() && (#[trigger] sessions[k]).id == id && forall|j: int|
            0 <= j < sessions.len() ==> at_most(#[trigger] sessions[j], sessions[k])
}

/// The session through which a context is looked at: the named one, which must be an active one of
/// the context, else the one that was active last.
pub fn active_session(sessions: &Vec<ActiveSession>, named: Option<String>) -> (r: Result<
    String,
    ErrorReply,
>)
    ensures
        match named {
            Some(id) => r == if holds_session(sessions@, id@) {
                Ok::<String, ErrorReply>(id)
            } else {
                Err(
                    error::error_reply(
                        400,
                        Message::Fixed(
                            "session_id does not belong to the target Context, or the Session is archived",
                        ),
                    ),
                )
            },
            None => if sessions@.len() == 0 {
                r == Err::<String, ErrorReply>(
                    error::error_reply(409, Message::Fixed("Context has no active Session")),
                )
            } else {
                r matches Ok(id) && is_latest_session(sessions@, id)
            },
        },
{
    match named {
        Some(id) => {
            let mut i: usize = 0;
            while i < sessions.len()
                invariant
                    0 <= i <= sessions.len(),
                    named == Some(id),
                    forall|j: int| 0 <= j < i ==> (#[trigger] sessions@[j]).id@ != id@,
                decreases sessions.len() - i,
            {
                if same(sessions[i].id.as_str(), id.as_str()) {
                    proof {
                        assert(sessions@[i as int].id@ == id@);
                        assert(holds_session(sessions@, id@));
                    }
                    return Ok(id);
                }
                i = i + 1;
            }
            Err(
                error_response(
                    400,
                    Message::Fixed(
                        "session_id does not belong to the target Context, or the Session is archived",
                    ),
                ),
            )
        },
        None => {
            if sessions.len() == 0 {
                return Err(error_response(409, Message::Fixed("Context has no active Session")));
            }
            let mut best: usize = 0;
            let mut i: usize = 1;
            proof {
                lemma_at_most_order(sessions@[0], sessions@[0], sessions@[0]);
            }
            while i < sessions.len()
                invariant
                    1 <= i <= sessions.len(),
                    best < i,
                    forall|j: int|
                        0 <= j < i ==> at_most(#[trigger] sessions@[j], sessions@[best as int]),
                decreases sessions.len() - i,
            {
                let better: bool = is_at_most(&sessions[best], &sessions[i]);
                proof {
                    lemma_at_most_order(
                        sessions@[i as int],
                        sessions@[i as int],
                        sessions@[i as int],
                    );
                    lemma_at_most_order(
                        sessions@[best as int],
                        sessions@[i as int],
                        sessions@[i as int],
                    );
                    assert forall|j: int| 0 <= j < i && better implies at_most(
                        #[trigger] sessions@[j],
                        sessions@[i as int],
                    ) by {
                        lemma_at_most_order(
                            sessions@[j],
                            sessions@[best as int],
                            sessions@[i as int],
                        );
                    }
                }
                if better {
                    best = i;
                }
                i = i + 1;
            }
            proof {
                assert(sessions@[best as int].id == sessions@[best as int].id);
            }
            Ok(sessions[best].id.clone())
        },
    }
}

/// A context that is to be created on its own.
pub struct CreateContextRequest {
    pub id: Option<String>,
    pub agent_id: Option<String>,
    pub title: Option<String>,
}

pub open spec fn new_context_of(
    request: CreateContextRequest,
    fresh_id: String,
    default_agent_id: String,
) -> Result<NewCognitiveContext, ErrorReply> {
    let id = mount::id_or(request.id, fresh_id);
    let agent_id = mount::id_or(request.agent_id, default_agent_id);
    if mount::identifier_refusal("context_id", id@) is Some {
        Err(mount::identifier_refusal("context_id", id@)->0)
    } else if mount::identifier_refusal("agent_id", agent_id@) is Some {
        Err(mount::identifier_refusal("agent_id", agent_id@)->0)
    } else {
        Ok(
            NewCognitiveContext {
                id,
                agent_id,
                title: Title::Bounded { given: request.title, fallback: "New Cognitive Context" },
            },
        )
    }
}

pub fn plan_context(
    request: CreateContextRequest,
    fresh_id: String,
    default_agent_id: String,
) -> (r: Result<NewCognitiveContext, ErrorReply>)
    ensures
        r == new_context_of(request, fresh_id, default_agent_id),
{
    let id: String = match request.id {
        Some(id) => id,
        None => fresh_id,
    };
    match refuse_identifier("context_id", id.as_str()) {
        Some(refusal) => {
            return Err(refusal);
        },
        None => {},
    }
    let agent_id: String = match request.agent_id {
        Some(agent_id) => agent_id,
        None => default_agent_id,
    };
    match refuse_identifier("agent_id", agent_id.as_str()) {
        Some(refusal) => Err(refusal),
        None => Ok(
            NewCognitiveContext {
                id,
                agent_id,
                title: Title::Bounded { given: request.title, fallback: "New Cognitive Context" },
            },
        ),
    }
}

/// The agent of a new context must be there.
pub fn check_context_agent(agent_id: &String, found: Result<bool, String>) -> (r: Result<
    (),
    ErrorReply,
>)
    ensures
        r == match found {
            Ok(true) => Ok::<(), ErrorReply>(()),
            Ok(false) => Err(
                error::error_reply(
                    404,
                    Message::Around {
                        before: "Agent '",
                        value: *agent_id,
                        after: "' does not exist; call create_agent first",
                    },
                ),
            ),
            Err(_) => Err(reply::internal_reply()),
        },
{
    match found {
        Ok(true) => Ok(()),
        Ok(false) => Err(
            error_response(
                404,
                Message::Around {
                    before: "Agent '",
                    value: agent_id.clone(),
                    after: "' does not exist; call create_agent first",
                },
            ),
        ),
        Err(_) => Err(internal_response()),
    }
}

/// A new title: trimmed and cut, and not empty.
pub fn changed_title(title: Option<String>) -> (r: Result<Option<String>, ErrorReply>)
    ensures
        match title {
            None => r == Ok::<Option<String>, ErrorReply>(None),
            Some(given) => if text::trimmed(given@).len() == 0 {
                r == Err::<Option<String>, ErrorReply>(
                    error::error_reply(400, Message::Fixed("title must not be empty")),
                )
            } else {
                r matches Ok(Some(text)) && text@ == text::first_chars(text::trimmed(given@), 200)
            },
        },
{
    match title {
        None => Ok(None),
        Some(given) => {
            let rest = trim(given.as_str());
            if rest.is_empty() {
                Err(error_response(400, Message::Fixed("title must not be empty")))
            } else {
                Ok(Some(take_chars(rest, 200).to_owned()))
            }
        },
    }
}

/// A hard token limit must leave room for something.
pub fn check_hard_token_limit(limit: Option<u64>) -> (r: Result<(), ErrorReply>)
    ensures
        r == if limit == Some(0u64) {
            Err::<(), ErrorReply>(
                error::error_reply(
                    400,
                    Message::Fixed(
                        "requested_hard_token_limit must be greater than 0; use null to restore automatic mode",
                    ),
                ),
            )
        } else {
            Ok(())
        },
{
    match limit {
        Some(0) => Err(
            error_response(
                400,
                Message::Fixed(
                    "requested_hard_token_limit must be greater than 0; use null to restore automatic mode",
                ),
            ),
        ),
        _ => Ok(()),
    }
}

/// What became of a change of a context's setting.
pub enum ContextUpdate {
    Updated(Json),
    Conflict(Json),
    NotFound,
}

pub open spec fn context_update_reply(
    update: ContextUpdate,
    name: &'static str,
    conflict: &'static str,
) -> Result<Reply, ErrorReply> {
    match update {
        ContextUpdate::Updated(value) => Ok(
            Reply { status: 200, body: Body::Outcome { outcome: "updated", name, value } },
        ),
        ContextUpdate::Conflict(current) => Ok(
            Reply {
                status: 409,
                body: Body::Conflict {
                    error: Text::Fixed(conflict),
                    outcome: Some("conflict"),
                    name,
                    current,
                },
            },
        ),
        ContextUpdate::NotFound => Err(
            error::error_reply(404, Message::Fixed("Context does not exist")),
        ),
    }
}

fn answer_update(update: ContextUpdate, name: &'static str, conflict: &'static str) -> (r: Result<
    Reply,
    ErrorReply,
>)
    ensures
        r == context_update_reply(update, name, conflict),
{
    match update {
        ContextUpdate::Updated(value) => Ok(
            Reply { status: 200, body: Body::Outcome { outcome: "updated", name, value } },
        ),
        ContextUpdate::Conflict(current) => Ok(
            Reply {
                status: 409,
                body: Body::Conflict {
                    error: Text::Fixed(conflict),
                    outcome: Some("conflict"),
                    name,
                    current,
                },
            },
        ),
        ContextUpdate::NotFound => Err(
            error_response(404, Message::Fixed("Context does not exist")),
        ),
    }
}

/// The answer to a change of a context's token budget.
pub fn budget_reply(outcome: Result<ContextUpdate, SdkError>) -> (r: Result<Reply, ErrorReply>)
    ensures
        r == match outcome {
            Ok(update) => context_update_reply(
                update,
                "budget",
                "Context token budget was updated by another writer",
            ),
            Err(refusal) => Err::<Reply, ErrorReply>(error::sdk_reply(refusal)),
        },
{
    match outcome {
        Ok(update) => answer_update(
            update,
            "budget",
            "Context token budget was updated by another writer",
        ),
        Err(refusal) => Err(sdk_error_response(refusal)),
    }
}

/// The answer to a change of a context's capability.
pub fn capability_reply(outcome: Result<ContextUpdate, String>) -> (r: Result<Reply, ErrorReply>)
    ensures
        r == match outcome {
            Ok(update) => context_update_reply(
                update,
                "binding",
                "Context capability binding was updated by another writer",
            ),
            Err(detail) => Err::<Reply, ErrorReply>(
                error::error_reply(409, Message::Owned(detail)),
            ),
        },
{
    match outcome {
        Ok(update) => answer_update(
            update,
            "binding",
            "Context capability binding was updated by another writer",
        ),
        Err(detail) => Err(error_response(409, Message::Owned(detail))),
    }
}

/// How a capability of a context stands: without a binding it is off, at revision zero.
pub fn binding_state(binding: Option<(bool, u64)>) -> (r: (bool, u64))
    ensures
        r == match binding {
            Some(state) => state,
            None => (false, 0u64),
        },
{
    match binding {
        Some(state) => state,
        None => (false, 0),
    }
}

/// Checks a search of the principal directory.
pub fn check_principal_search(query: &str, cursor: &Option<String>) -> (r: Result<
    String,
    ErrorReply,
>)
    ensures
        if text::trimmed(query@).len() > 200 {
            r == Err::<String, ErrorReply>(
                error::error_reply(
                    400,
                    Message::Fixed("Principal search term exceeds 200 characters"),
                ),
            )
        } else if *cursor matches Some(given) && (given@.len() == 0 || text::byte_len(given@)
            > 512) {
            r == Err::<String, ErrorReply>(
                error::error_reply(400, Message::Fixed("invalid Principal cursor")),
            )
        } else {
            r matches Ok(words) && words@ == text::trimmed(query@)
        },
{
    let words = trim(query);
    if words.unicode_len() > 200 {
        return Err(
            error_response(400, Message::Fixed("Principal search term exceeds 200 characters")),
        );
    }
    match cursor {
        Some(given) => {
            if given.as_str().is_empty() || byte_count(given.as_str()) > 512 {
                return Err(error_response(400, Message::Fixed("invalid Principal cursor")));
            }
        },
        None => {},
    }
    Ok(words.to_owned())
}

/// Whether one of the active contexts has the identifier.
pub open spec fn is_active_context(contexts: Seq<ListedContext>, id: String) -> bool {
    exists|i: int| 0 <= i < contexts.len() && (#[trigger] contexts[i]).active && contexts[i].id == id
}

proof fn lemma_listed_context_is_active(contexts: Seq<ListedContext>, k: int) -> (i: int)
    requires
        0 <= k < active_ids(contexts).len(),
    ensures
        0 <= i < contexts.len(),
        contexts[i].active,
        contexts[i].id == active_ids(contexts)[k],
    decreases contexts.len(),
{
    let before = active_ids(contexts.drop_last());
    if k < before.len() {
        lemma_listed_context_is_active(contexts.drop_last(), k)
    } else {
        contexts.len() - 1
    }
}

/// The contexts that are listed are the active ones, all of them, in their order.
pub proof fn law_active_contexts_are_listed(contexts: Seq<ListedContext>)
    ensures
        forall|k: int|
            0 <= k < active_ids(contexts).len() ==> is_active_context(
                contexts,
                #[trigger] active_ids(contexts)[k],
            ),
        forall|i: int|
            0 <= i < contexts.len() && (#[trigger] contexts[i]).active ==> active_ids(
                contexts,
            ).contains(contexts[i].id),
        active_ids(contexts).len() <= contexts.len(),
        (forall|i: int| 0 <= i < contexts.len() ==> (#[trigger] contexts[i]).active) ==> active_ids(
            contexts,
        ) == contexts.map_values(|context: ListedContext| context.id),
    decreases contexts.len(),
{
    assert forall|k: int| 0 <= k < active_ids(contexts).len() implies is_active_context(
        contexts,
        #[trigger] active_ids(contexts)[k],
    ) by {
        let i = lemma_listed_context_is_active(contexts, k);
        assert(contexts[i].active);
    }
    if contexts.len() > 0 {
        let front = contexts.drop_last();
        let before = active_ids(front);
        let all = active_ids(contexts);
        law_active_contexts_are_listed(front);
        assert forall|i: int|
            0 <= i < contexts.len() && (#[trigger] contexts[i]).active implies all.contains(
            contexts[i].id,
        ) by {
            if i < front.len() {
                assert(front[i] == contexts[i]);
                assert(before.contains(front[i].id));
                let k = choose|k: int| 0 <= k < before.len() && before[k] == front[i].id;
                assert(all[k] == before[k]);
            } else {
                assert(all[all.len() - 1] == contexts[i].id);
            }
        }
        if forall|i: int| 0 <= i < contexts.len() ==> (#[trigger] contexts[i]).active {
            assert forall|i: int| 0 <= i < front.len() implies (#[trigger] front[i]).active by {
                assert(contexts[i].active);
            }
            assert(contexts[contexts.len() - 1].active);
            assert(all =~= contexts.map_values(|context: ListedContext| context.id));
        }
    } else {
        assert(active_ids(contexts) =~= contexts.map_values(|context: ListedContext| context.id));
    }
}

/// Two times are in order by their seconds, and by their nanoseconds within one second.
pub proof fn law_times_are_in_order(a: Timestamp, b: Timestamp)
    ensures
        a.seconds < b.seconds ==> earlier(a, b) && !earlier(b, a),
        a.seconds == b.seconds ==> (earlier(a, b) <==> a.nanos < b.nanos),
        !earlier(a, a),
{
}

/// The session that a request without a name means is the latest one: none of the others was active
/// after it, and of those that were active at the same time it is the first by name.
pub proof fn law_the_latest_session_is_meant(sessions: Seq<ActiveSession>, id: String, j: int)
    requires
        is_latest_session(sessions, id),
        0 <= j < sessions.len(),
    ensures
        exists|k: int|
            {
                &&& 0 <= k < sessions.len()
                &&& (#[trigger] sessions[k]).id == id
                &&& sessions[j].last_activity_at.seconds <= sessions[k].last_activity_at.seconds
                &&& sessions[j].last_activity_at.seconds == sessions[k].last_activity_at.seconds
                    ==> sessions[j].last_activity_at.nanos <= sessions[k].last_activity_at.nanos
                &&& sessions[j].last_activity_at == sessions[k].last_activity_at
                    ==> event::text_le(id@, sessions[j].id@)
            },
{
    let k = choose|k: int|
        0 <= k < sessions.len() && (#[trigger] sessions[k]).id == id && forall|j: int|
            0 <= j < sessions.len() ==> at_most(#[trigger] sessions[j], sessions[k]);
    assert(sessions[k].id == id && at_most(sessions[j], sessions[k]));
}

/// A named session is one of the context's own.
pub proof fn law_named_sessions_are_of_the_context(sessions: Seq<ActiveSession>, i: int)
    requires
        0 <= i < sessions.len(),
    ensures
        holds_session(sessions, sessions[i].id@),
        !holds_session(Seq::empty(), sessions[i].id@),
        forall|id: Seq<char>|
            #[trigger] holds_session(sessions, id) ==> exists|k: int|
                0 <= k < sessions.len() && (#[trigger] sessions[k]).id@ == id,
{
}

/// A new context has the identifier and the agent that were asked for, or a fresh one and the default
/// one, and its title or this; only a bad identifier is refused.
pub proof fn law_contexts_are_made_as_asked(
    request: CreateContextRequest,
    fresh_id: String,
    default_agent_id: String,
)
    ensures
        ({
            let r = new_context_of(request, fresh_id, default_agent_id);
            let id = if request.id is Some {
                request.id->0
            } else {
                fresh_id
            };
            let agent = if request.agent_id is Some {
                request.agent_id->0
            } else {
                default_agent_id
            };
            let good = crate::ident::identifier_fault(id@) is None
                && crate::ident::identifier_fault(agent@) is None;
            &&& good ==> (r matches Ok(made) && made.id == id && made.agent_id == agent
                && made.title@ == crate::ident::bounded_title_of(
                request.title,
                "New Cognitive Context"@,
            ))
            &&& !good ==> (r matches Err(reply) && reply.status == 400)
        }),
{
}

/// A change of a context is answered with what was changed under its name; a conflict with what
/// stands now, and with 409; and a context that is not there with 404.
pub proof fn law_context_changes_are_answered_with_what_stands(
    value: Json,
    name: &'static str,
    conflict: &'static str,
)
    ensures
        context_update_reply(ContextUpdate::Updated(value), name, conflict) matches Ok(reply)
            && reply.status == 200 && reply.body == (Body::Outcome {
            outcome: "updated",
            name,
            value,
        }),
        context_update_reply(ContextUpdate::Conflict(value), name, conflict) matches Ok(reply)
            && reply.status == 409 && (reply.body matches Body::Conflict {
            error,
            outcome,
            name: shown,
            current,
        } && error@ == conflict@ && outcome == Some("conflict") && shown == name && current
            == value),
        context_update_reply(ContextUpdate::NotFound, name, conflict) matches Err(reply)
            && reply.status == 404 && reply.message@ == "Context does not exist"@,
{
}

} // verus!
