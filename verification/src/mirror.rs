use crate::auth;
use crate::auth::{
    is_authorized, is_operator_authorized, request_principal, websocket_may_subscribe_globally,
    AppState, PrincipalAssertion, ServerIdentityMode,
};
use crate::error;
use crate::error::{
    error_response, sdk_error_response, unauthorized_response, ErrorReply, Message,
};
use crate::event;
use crate::event::{dashboard_event_requires_session_touch, Event, Timestamp};
use crate::headers::HeaderMap;
use crate::ident::Title;
use crate::json;
use crate::json::{get_text, Json};
use crate::model::{ContextRecord, NewCognitiveContext, NewSession, ServerDefaults, SessionMountKind};
use crate::recent;
use crate::recent::RecentDashboardEventIds;
use crate::text::{decimal_text, join, same};
use vstd::prelude::*;

verus! {

/// How many durable events are read at a time.
pub const DASHBOARD_DURABLE_EVENT_BATCH_SIZE: usize = 256;

/// The session that an event names as its route, and what else it says of it.
pub struct EventRoute {
    pub session_id: String,
    pub declared_context_id: Option<String>,
    pub parent_session_id: Option<String>,
    pub timestamp: Timestamp,
}

/// The string that a payload holds under a name.
pub open spec fn payload_string(event: Event, name: Seq<char>) -> Option<String> {
    match json::member(event.payload@, name) {
        Some(Json::Text(text)) => Some(text),
        _ => None,
    }
}

fn payload_text(event: &Event, name: &str) -> (r: Option<String>)
    ensures
        r == payload_string(*event, name@),
{
    match get_text(&event.payload, name) {
        Some(text) => Some(text.clone()),
        None => None,
    }
}

/// The route that must be settled before an event is mirrored. An observability event, and one that
/// names no session, has none.
pub open spec fn route_of(event: Event) -> Option<EventRoute> {
    match payload_string(event, "session_id"@) {
        Some(session_id) if !event::is_observability_topic(event.topic@) => Some(
            EventRoute {
                session_id,
                declared_context_id: payload_string(event, "context_id"@),
                parent_session_id: payload_string(event, "parent_session_id"@),
                timestamp: event.timestamp,
            },
        ),
        _ => None,
    }
}

pub fn event_route(event: &Event) -> (r: Option<EventRoute>)
    ensures
        r == route_of(*event),
{
    if !dashboard_event_requires_session_touch(event) {
        return None;
    }
    match payload_text(event, "session_id") {
        Some(session_id) => Some(
            EventRoute {
                session_id,
                declared_context_id: payload_text(event, "context_id"),
                parent_session_id: payload_text(event, "parent_session_id"),
                timestamp: event.timestamp,
            },
        ),
        None => None,
    }
}

/// What the route of an event calls for, once it is known whether its session exists.
pub enum RouteStep {
    /// The session exists where the event says it is: it counts as active at the event's time.
    Touch(EventRoute),
    /// The session is unknown: it is mounted into this context, once that has been looked up.
    Mount { route: EventRoute, context_id: String },
    /// The event is not mirrored.
    Reject(RouteFault),
}

/// Why an event is not mirrored.
pub enum RouteFault {
    ContextMismatch { session_id: String, context_id: String, declared: String },
    UnknownSession { session_id: String },
}

impl RouteFault {
    pub open spec fn view(&self) -> Seq<char> {
        match self {
            RouteFault::ContextMismatch { session_id, context_id, declared } =>
                "Event route rejected: Session '"@ + session_id@ + "' belongs to Context '"@
                    + context_id@ + "', while the Event declares '"@ + declared@ + "'"@,
            RouteFault::UnknownSession { session_id } =>
                "trusted Gateway mode refuses to create unknown Session '"@ + session_id@
                    + "' implicitly from an Event"@,
        }
    }

    pub fn text(&self) -> (r: String)
        ensures
            r@ == self@,
    {
        match self {
            RouteFault::ContextMismatch { session_id, context_id, declared } => {
                let a = join("Event route rejected: Session '", session_id.as_str());
                let b = join(a.as_str(), "' belongs to Context '");
                let c = join(b.as_str(), context_id.as_str());
                let d = join(c.as_str(), "', while the Event declares '");
                join(join(d.as_str(), declared.as_str()).as_str(), "'")
            },
            RouteFault::UnknownSession { session_id } => {
                let a = join(
                    "trusted Gateway mode refuses to create unknown Session '",
                    session_id.as_str(),
                );
                join(a.as_str(), "' implicitly from an Event")
            },
        }
    }
}

/// What follows for a route from the context of its session, `None` where the session is unknown.
///
/// An event that only names a session cannot name a context with authority, so an unknown session
/// goes to the default context unless the event declares another one. Behind a trusted gateway an
/// unknown session is never created this way.
pub open spec fn routed(
    route: EventRoute,
    existing_context_id: Option<String>,
    mode: ServerIdentityMode,
    default_context_id: String,
) -> RouteStep {
    match existing_context_id {
        Some(context_id) => match route.declared_context_id {
            Some(declared) if declared@ != context_id@ => RouteStep::Reject(
                RouteFault::ContextMismatch { session_id: route.session_id, context_id, declared },
            ),
            _ => RouteStep::Touch(route),
        },
        None => if mode == ServerIdentityMode::TrustedGateway {
            RouteStep::Reject(RouteFault::UnknownSession { session_id: route.session_id })
        } else {
            RouteStep::Mount {
                route,
                context_id: match route.declared_context_id {
                    Some(declared) => declared,
                    None => default_context_id,
                },
            }
        },
    }
}

pub fn ensure_dashboard_event_session_route(
    route: EventRoute,
    existing_context_id: Option<String>,
    mode: ServerIdentityMode,
    default_context_id: &String,
) -> (r: RouteStep)
    ensures
        r == routed(route, existing_context_id, mode, *default_context_id),
{
    match existing_context_id {
        Some(context_id) => {
            match &route.declared_context_id {
                Some(declared) => {
                    if !same(declared.as_str(), context_id.as_str()) {
                        return RouteStep::Reject(
                            RouteFault::ContextMismatch {
                                session_id: route.session_id.clone(),
                                context_id,
                                declared: declared.clone(),
                            },
                        );
                    }
                },
                None => {},
            }
            RouteStep::Touch(route)
        },
        None => {
            if mode == ServerIdentityMode::TrustedGateway {
                return RouteStep::Reject(
                    RouteFault::UnknownSession { session_id: route.session_id.clone() },
                );
            }
            let context_id: String = match &route.declared_context_id {
                Some(declared) => declared.clone(),
                None => default_context_id.clone(),
            };
            RouteStep::Mount { route, context_id }
        },
    }
}

/// What is created for an unknown session: its context where that is missing, then the session.
pub struct RouteCreation {
    pub context: Option<NewCognitiveContext>,
    pub session: NewSession,
}

pub open spec fn route_creation(
    route: EventRoute,
    context_id: String,
    found: Option<ContextRecord>,
    defaults: ServerDefaults,
) -> RouteCreation {
    RouteCreation {
        context: match found {
            Some(_) => None,
            None => Some(
                NewCognitiveContext {
                    id: context_id,
                    agent_id: defaults.agent_id,
                    title: if context_id@ == defaults.context_id@ {
                        Title::Fixed("Default Cognitive Context")
                    } else {
                        Title::Owned(context_id)
                    },
                },
            ),
        },
        session: NewSession {
            id: route.session_id,
            agent_id: match found {
                Some(context) => context.agent_id,
                None => defaults.agent_id,
            },
            context_id,
            parent_session_id: route.parent_session_id,
            title: Title::Owned(route.session_id),
            mount_kind: SessionMountKind::ExistingContext,
        },
    }
}

/// What is created for an unknown session, once its context has been looked up.
pub fn mount_event_session(
    route: &EventRoute,
    context_id: String,
    found: Option<ContextRecord>,
    defaults: &ServerDefaults,
) -> (r: RouteCreation)
    ensures
        r == route_creation(*route, context_id, found, *defaults),
{
    let parent_session_id: Option<String> = match &route.parent_session_id {
        Some(parent) => Some(parent.clone()),
        None => None,
    };
    let (context, agent_id): (Option<NewCognitiveContext>, String) = match found {
        Some(context) => (None, context.agent_id),
        None => {
            let title = if same(context_id.as_str(), defaults.context_id.as_str()) {
                Title::Fixed("Default Cognitive Context")
            } else {
                Title::Owned(context_id.clone())
            };
            let context = NewCognitiveContext {
                id: context_id.clone(),
                agent_id: defaults.agent_id.clone(),
                title,
            };
            (Some(context), defaults.agent_id.clone())
        },
    };
    RouteCreation {
        context,
        session: NewSession {
            id: route.session_id.clone(),
            agent_id,
            context_id,
            parent_session_id,
            title: Title::Owned(route.session_id.clone()),
            mount_kind: SessionMountKind::ExistingContext,
        },
    }
}

/// The reader of the durable event log.
pub struct DurableTail {
    pub after_sequence: u64,
    pub wait_before_query: bool,
}

/// What is done with one durable event.
#[derive(PartialEq, Eq, Structural, Clone, Copy, Debug)]
pub enum TailStep {
    /// The event has no sequence number: it is passed over.
    Skip,
    /// The event was mirrored already.
    Duplicate,
    /// The event is mirrored, and the outcome handed back.
    Mirror { sequence: u64 },
}

pub open spec fn later(a: u64, b: u64) -> u64 {
    if a >= b {
        a
    } else {
        b
    }
}

impl DurableTail {
    /// The tail that starts behind this sequence number.
    pub fn starting_after(after_sequence: u64) -> (r: DurableTail)
        ensures
            r == (DurableTail { after_sequence, wait_before_query: true }),
    {
        DurableTail { after_sequence, wait_before_query: true }
    }

    /// A query failed: the cursor stays where it is.
    pub fn on_query_failed(&mut self)
        ensures
            *final(self) == (DurableTail {
                after_sequence: old(self).after_sequence,
                wait_before_query: true,
            }),
    {
        self.wait_before_query = true;
    }

    /// A batch came: a full one is followed by the next query at once.
    pub fn on_batch(&mut self, len: usize)
        ensures
            *final(self) == (DurableTail {
                after_sequence: old(self).after_sequence,
                wait_before_query: len < DASHBOARD_DURABLE_EVENT_BATCH_SIZE,
            }),
    {
        self.wait_before_query = len < DASHBOARD_DURABLE_EVENT_BATCH_SIZE;
    }

    /// The next event of a batch. The cursor passes an event that was mirrored already.
    pub fn on_event(&mut self, recent: &mut RecentDashboardEventIds, event: &Event) -> (r: TailStep)
        requires
            old(recent).wf(),
        ensures
            final(recent).wf(),
            final(self).after_sequence >= old(self).after_sequence,
            final(self).wait_before_query == old(self).wait_before_query,
            match event.sequence {
                None => {
                    &&& r == TailStep::Skip
                    &&& final(self).after_sequence == old(self).after_sequence
                    &&& final(recent)@ == old(recent)@
                },
                Some(sequence) => {
                    &&& final(recent)@ == recent::remembered(old(recent)@, event.id@)
                    &&& if old(recent)@.contains(event.id@) {
                        &&& r == TailStep::Duplicate
                        &&& final(self).after_sequence == later(
                            old(self).after_sequence,
                            sequence,
                        )
                    } else {
                        &&& r == TailStep::Mirror { sequence }
                        &&& final(self).after_sequence == old(self).after_sequence
                    }
                },
            },
    {
        let sequence: u64 = match event.sequence {
            Some(sequence) => sequence,
            None => {
                return TailStep::Skip;
            },
        };
        if !recent.insert(event.id.as_str()) {
            self.advance(sequence);
            return TailStep::Duplicate;
        }
        TailStep::Mirror { sequence }
    }

    fn advance(&mut self, sequence: u64)
        ensures
            *final(self) == (DurableTail {
                after_sequence: later(old(self).after_sequence, sequence),
                wait_before_query: old(self).wait_before_query,
            }),
    {
        if sequence > self.after_sequence {
            self.after_sequence = sequence;
        }
    }

    /// The outcome of mirroring an event. On success the cursor passes it and the batch goes on. On
    /// failure the event is forgotten, the cursor stays before it, and the batch is given up.
    pub fn on_mirrored(
        &mut self,
        recent: &mut RecentDashboardEventIds,
        event_id: &str,
        sequence: u64,
        succeeded: bool,
    ) -> (goes_on: bool)
        requires
            old(recent).wf(),
        ensures
            final(recent).wf(),
            final(self).after_sequence >= old(self).after_sequence,
            goes_on == succeeded,
            if succeeded {
                &&& final(recent)@ == old(recent)@
                &&& *final(self) == (DurableTail {
                    after_sequence: later(old(self).after_sequence, sequence),
                    wait_before_query: old(self).wait_before_query,
                })
            } else {
                &&& final(recent)@ == recent::forgotten(old(recent)@, event_id@)
                &&& *final(self) == (DurableTail {
                    after_sequence: old(self).after_sequence,
                    wait_before_query: true,
                })
            },
    {
        if succeeded {
            self.advance(sequence);
        } else {
            recent.remove(event_id);
            self.wait_before_query = true;
        }
        succeeded
    }
}

/// The cursor once events with these sequence numbers were passed.
pub open spec fn cursor_after(after: u64, passed: Seq<u64>) -> u64
    decreases passed.len(),
{
    if passed.len() == 0 {
        after
    } else {
        later(cursor_after(after, passed.drop_last()), passed.last())
    }
}

/// Where events come in the order of their sequence numbers, the cursor stays before one that could
/// not be mirrored, whatever was passed before it: the next query gives it again.
pub proof fn law_unmirrored_events_are_read_again(after: u64, passed: Seq<u64>, sequence: u64)
    requires
        after < sequence,
        forall|i: int| 0 <= i < passed.len() ==> #[trigger] passed[i] < sequence,
    ensures
        after <= cursor_after(after, passed) < sequence,
    decreases passed.len(),
{
    if passed.len() > 0 {
        law_unmirrored_events_are_read_again(after, passed.drop_last(), sequence);
    }
}

/// What a socket is let see.
pub enum SocketScope {
    /// The events of every session.
    Everything,
    /// Those of one session.
    Session(String),
    /// Those of one session, once the backend has confirmed that the principal may see it.
    SessionOf { principal: PrincipalAssertion, session_id: String },
}

/// Whether a plan is the one that a request for a subscription gets.
pub open spec fn subscription_is(
    r: Result<SocketScope, ErrorReply>,
    state: &AppState,
    headers: &HeaderMap,
    token: Option<&str>,
    principal_id: Option<&str>,
    session_id: Option<String>,
) -> bool {
    let operator = auth::is_operator(state, headers, token);
    if !auth::is_admitted(state, headers, token) {
        r == Err::<SocketScope, ErrorReply>(error::unauthorized_reply())
    } else {
        match session_id {
            None => r == if operator {
                Ok::<SocketScope, ErrorReply>(SocketScope::Everything)
            } else {
                Err(
                    error::error_reply(
                        400,
                        Message::Fixed(
                            "a non-Operator WebSocket subscription must specify session_id",
                        ),
                    ),
                )
            },
            Some(id) => if operator {
                r == Ok::<SocketScope, ErrorReply>(SocketScope::Session(id))
            } else {
                match auth::principal_of(state, headers, principal_id) {
                    Ok(view) => r matches Ok(SocketScope::SessionOf { principal, session_id })
                        && principal@ == view && session_id == id,
                    Err(refusal) => r == Err::<SocketScope, ErrorReply>(error::sdk_reply(refusal)),
                }
            },
        }
    }
}

/// Settles what a socket may see before it is opened.
pub fn plan_subscription(
    state: &AppState,
    headers: &HeaderMap,
    token: Option<&str>,
    principal_id: Option<&str>,
    session_id: Option<String>,
) -> (r: Result<SocketScope, ErrorReply>)
    ensures
        subscription_is(r, state, headers, token, principal_id, session_id),
{
    if !is_authorized(state, headers, token) {
        return Err(unauthorized_response());
    }
    match session_id {
        Some(session_id) => {
            if is_operator_authorized(state, headers, token) {
                return Ok(SocketScope::Session(session_id));
            }
            match request_principal(state, headers, principal_id) {
                Ok(principal) => Ok(SocketScope::SessionOf { principal, session_id }),
                Err(refusal) => Err(sdk_error_response(refusal)),
            }
        },
        None => {
            if websocket_may_subscribe_globally(state, headers, token) {
                Ok(SocketScope::Everything)
            } else {
                Err(
                    error_response(
                        400,
                        Message::Fixed(
                            "a non-Operator WebSocket subscription must specify session_id",
                        ),
                    ),
                )
            }
        },
    }
}

/// Only an operator's socket sees the events of every session.
pub proof fn law_only_operators_watch_everything(
    r: Result<SocketScope, ErrorReply>,
    state: &AppState,
    headers: &HeaderMap,
    token: Option<&str>,
    principal_id: Option<&str>,
    session_id: Option<String>,
)
    requires
        subscription_is(r, state, headers, token, principal_id, session_id),
    ensures
        r == Ok::<SocketScope, ErrorReply>(SocketScope::Everything) ==> auth::is_operator(
            state,
            headers,
            token,
        ),
{
}

/// What a dashboard socket has to react to.
pub enum SocketInput {
    Heartbeat,
    Broadcast(Event),
    /// Broadcasts were lost.
    Lagged,
    /// No more broadcasts will come.
    Closed,
    /// The browser closed the connection, or it broke.
    ClientGone,
    /// The browser said something else.
    ClientMessage,
}

/// What a dashboard socket does.
#[derive(PartialEq, Eq, Structural, Clone, Copy, Debug)]
pub enum SocketOutput {
    Ping,
    Forward,
    Ignore,
    Close,
}

/// Whether a socket passes an event on: model request snapshots only where they were asked for,
/// and behind a session filter only the events of that session.
pub open spec fn passes_filter(
    event: Event,
    session_filter: Option<String>,
    observe_model_requests: bool,
) -> bool {
    &&& event.topic@ == "runtime/model_request_snapshot"@ ==> observe_model_requests
    &&& session_filter matches Some(expected) ==> json::text_member(
        event.payload@,
        "session_id"@,
    ) == Some(expected@)
}

/// What a socket does next. A socket that lost broadcasts is closed, so that the client starts over
/// from the durable state and never shows an incomplete draft.
pub fn socket_step(
    input: &SocketInput,
    session_filter: &Option<String>,
    observe_model_requests: bool,
) -> (r: SocketOutput)
    ensures
        r == match input {
            SocketInput::Heartbeat => SocketOutput::Ping,
            SocketInput::Broadcast(event) => if passes_filter(
                *event,
                *session_filter,
                observe_model_requests,
            ) {
                SocketOutput::Forward
            } else {
                SocketOutput::Ignore
            },
            SocketInput::Lagged => SocketOutput::Close,
            SocketInput::Closed => SocketOutput::Close,
            SocketInput::ClientGone => SocketOutput::Close,
            SocketInput::ClientMessage => SocketOutput::Ignore,
        },
{
    match input {
        SocketInput::Heartbeat => SocketOutput::Ping,
        SocketInput::Broadcast(event) => {
            if same(event.topic.as_str(), "runtime/model_request_snapshot")
                && !observe_model_requests {
                return SocketOutput::Ignore;
            }
            match session_filter {
                Some(expected) => match get_text(&event.payload, "session_id") {
                    Some(session_id) => if same(session_id.as_str(), expected.as_str()) {
                        SocketOutput::Forward
                    } else {
                        SocketOutput::Ignore
                    },
                    None => SocketOutput::Ignore,
                },
                None => SocketOutput::Forward,
            }
        },
        SocketInput::Lagged => SocketOutput::Close,
        SocketInput::Closed => SocketOutput::Close,
        SocketInput::ClientGone => SocketOutput::Close,
        SocketInput::ClientMessage => SocketOutput::Ignore,
    }
}

/// Under which name a socket asks for model request snapshots: only one that watches a session
/// does.
pub fn socket_observer_id(
    observe_model_requests: bool,
    session_filter: &Option<String>,
    number: u64,
) -> (r: Option<String>)
    ensures
        r is Some == (observe_model_requests && *session_filter is Some),
        r matches Some(id) ==> id@ == "dashboard-ws-"@ + crate::text::decimal(number as nat),
{
    if observe_model_requests && session_filter.is_some() {
        Some(join("dashboard-ws-", decimal_text(number).as_str()))
    } else {
        None
    }
}

/// Behind a trusted gateway no event ever creates a session.
pub proof fn law_gateway_mode_creates_no_session_from_events(
    route: EventRoute,
    existing: Option<String>,
    default_context_id: String,
)
    ensures
        !(routed(route, existing, ServerIdentityMode::TrustedGateway, default_context_id)
            is Mount),
{
}

/// A session is only ever touched in the context that its event declares, where it declares one.
pub proof fn law_touched_session_is_where_the_event_says(
    route: EventRoute,
    existing: Option<String>,
    mode: ServerIdentityMode,
    default_context_id: String,
)
    requires
        routed(route, existing, mode, default_context_id) is Touch,
        route.declared_context_id is Some,
    ensures
        existing matches Some(context_id) && context_id@ == route.declared_context_id->0@,
{
}

/// A session that an event creates is never put into a context named after the session, unless the
/// event or the configuration names that context.
pub proof fn law_event_session_context_is_declared_or_default(
    route: EventRoute,
    default_context_id: String,
    found: Option<ContextRecord>,
    defaults: ServerDefaults,
)
    ensures
        match routed(route, None, ServerIdentityMode::Default, default_context_id) {
            RouteStep::Mount { route: kept, context_id } => {
                let made = route_creation(kept, context_id, found, defaults);
                &&& made.session.context_id == match route.declared_context_id {
                    Some(declared) => declared,
                    None => default_context_id,
                }
                &&& made.context matches Some(context) ==> context.id == made.session.context_id
                    && context.agent_id == made.session.agent_id
            },
            _ => false,
        },
{
}

/// From an event to its route: an event that names a session and is user activity is routed to that
/// session, with the context and the parent that its payload names, each only where it is a text. An
/// observability event, and one that names no session, is routed nowhere.
pub proof fn law_routes_say_what_the_payload_says(event: Event)
    ensures
        ({
            let topic = event.topic@;
            let observes = topic == "runtime/model_stream"@ || topic
                == "runtime/model_reasoning_summary"@ || topic == "runtime/model_usage"@ || topic
                == "runtime/model_attempt_state"@ || topic == "runtime/model_attempt_snapshot"@
                || topic == "runtime/model_request_snapshot"@ || topic == "chat/context_inspect"@;
            let payload = event.payload@;
            match json::member(payload, "session_id"@) {
                Some(Json::Text(session)) => if observes {
                    route_of(event) is None
                } else {
                    &&& route_of(event) matches Some(route)
                    &&& route.session_id == session
                    &&& route.timestamp == event.timestamp
                    &&& match json::member(payload, "context_id"@) {
                        Some(Json::Text(context)) => route.declared_context_id == Some(context),
                        _ => route.declared_context_id is None,
                    }
                    &&& match json::member(payload, "parent_session_id"@) {
                        Some(Json::Text(parent)) => route.parent_session_id == Some(parent),
                        _ => route.parent_session_id is None,
                    }
                },
                _ => route_of(event) is None,
            }
        }),
{
}

/// From an event to what is done for it. A session that is known in another context than the event's
/// payload names is not mirrored; one that is known there, or whose event names no context, counts as
/// active. A session that is unknown is refused behind a trusted gateway; else it is mounted into
/// exactly the context that the payload names, and into the default one only where it names none.
pub proof fn law_events_are_routed_by_their_payload(
    event: Event,
    session: String,
    existing: Option<String>,
    mode: ServerIdentityMode,
    default_context_id: String,
)
    requires
        json::member(event.payload@, "session_id"@) == Some(Json::Text(session)),
        !event::is_observability_topic(event.topic@),
    ensures
        ({
            let named = match json::member(event.payload@, "context_id"@) {
                Some(Json::Text(context)) => Some(context),
                _ => None,
            };
            &&& route_of(event) matches Some(route) && {
                let step = routed(route, existing, mode, default_context_id);
                match (existing, named) {
                    (Some(context), Some(declared)) => if declared@ != context@ {
                        step == RouteStep::Reject(
                            RouteFault::ContextMismatch {
                                session_id: session,
                                context_id: context,
                                declared,
                            },
                        )
                    } else {
                        step matches RouteStep::Touch(kept) && kept.session_id == session
                            && kept.timestamp == event.timestamp
                    },
                    (Some(context), None) => step matches RouteStep::Touch(kept) && kept.session_id
                        == session && kept.timestamp == event.timestamp,
                    (None, _) => if mode == ServerIdentityMode::TrustedGateway {
                        step == RouteStep::Reject(
                            RouteFault::UnknownSession { session_id: session },
                        )
                    } else {
                        step matches RouteStep::Mount { route: kept, context_id }
                            && kept.session_id == session && context_id == match named {
                            Some(declared) => declared,
                            None => default_context_id,
                        }
                    },
                }
            }
        }),
{
}

/// From an event of an unknown session to what is created: the session under its own identifier, in
/// the context that the payload names or else the default one, under the parent that the payload
/// names, and with the agent of that context; the context itself only where it is missing, with the
/// default agent.
pub proof fn law_event_sessions_are_created_as_the_event_says(
    event: Event,
    session: String,
    found: Option<ContextRecord>,
    defaults: ServerDefaults,
)
    requires
        json::member(event.payload@, "session_id"@) == Some(Json::Text(session)),
        !event::is_observability_topic(event.topic@),
    ensures
        ({
            let context = match json::member(event.payload@, "context_id"@) {
                Some(Json::Text(declared)) => declared,
                _ => defaults.context_id,
            };
            &&& route_of(event) matches Some(route) && routed(
                route,
                None,
                ServerIdentityMode::Default,
                defaults.context_id,
            ) matches RouteStep::Mount { route: kept, context_id } && {
                let made = route_creation(kept, context_id, found, defaults);
                &&& made.session.id == session
                &&& made.session.title@ == session@
                &&& made.session.context_id == context
                &&& made.session.mount_kind == SessionMountKind::ExistingContext
                &&& match json::member(event.payload@, "parent_session_id"@) {
                    Some(Json::Text(parent)) => made.session.parent_session_id == Some(parent),
                    _ => made.session.parent_session_id is None,
                }
                &&& match found {
                    Some(there) => made.context is None && made.session.agent_id
                        == there.agent_id,
                    None => made.session.agent_id == defaults.agent_id && (
                    made.context matches Some(new) && new.id == context && new.agent_id
                        == defaults.agent_id && new.title@ == if context@ == defaults.context_id@ {
                        "Default Cognitive Context"@
                    } else {
                        context@
                    }),
                }
            }
        }),
{
}

/// The cursor of the tail is at the furthest of what was passed: it reaches every passed event, and
/// goes no further than one of them.
pub proof fn law_the_tail_stands_at_the_furthest_passed_event(after: u64, passed: Seq<u64>)
    ensures
        cursor_after(after, passed) >= after,
        forall|i: int| 0 <= i < passed.len() ==> cursor_after(after, passed) >= #[trigger] passed[i],
        cursor_after(after, passed) == after || passed.contains(cursor_after(after, passed)),
    decreases passed.len(),
{
    if passed.len() > 0 {
        let front = passed.drop_last();
        law_the_tail_stands_at_the_furthest_passed_event(after, front);
        assert forall|i: int| 0 <= i < passed.len() implies cursor_after(after, passed)
            >= #[trigger] passed[i] by {
            if i < front.len() {
                assert(front[i] == passed[i]);
            }
        }
        let at = cursor_after(after, passed);
        if at == passed.last() {
            assert(passed[passed.len() - 1] == at);
        } else if front.contains(at) {
            let i = choose|i: int| 0 <= i < front.len() && front[i] == at;
            assert(passed[i] == at);
        }
    }
}

/// A socket that watches a session passes on the events that name that session and no others. One
/// that watches everything passes on everything. Snapshots of model requests are for sockets that
/// asked for them.
pub proof fn law_sockets_pass_on_what_they_watch(
    event: Event,
    watched: String,
    observe_model_requests: bool,
)
    requires
        observe_model_requests || event.topic@ != "runtime/model_request_snapshot"@,
    ensures
        passes_filter(event, None, observe_model_requests),
        passes_filter(event, Some(watched), observe_model_requests) <==> (json::member(
            event.payload@,
            "session_id"@,
        ) matches Some(Json::Text(session)) && session@ == watched@),
{
}

/// A snapshot of a model request reaches no socket that did not ask for it.
pub proof fn law_model_requests_are_seen_on_request_only(event: Event, watched: Option<String>)
    requires
        event.topic@ == "runtime/model_request_snapshot"@,
    ensures
        !passes_filter(event, watched, false),
{
}

/// Who watches what. Nobody does without a credential. An operator watches everything, or the session
/// that is named; another caller has to name a session, and watches it as the principal that the
/// gateway asserts.
pub proof fn law_subscriptions_follow_the_credential(
    r: Result<SocketScope, ErrorReply>,
    state: &AppState,
    headers: &HeaderMap,
    token: Option<&str>,
    principal_id: Option<&str>,
    session_id: Option<String>,
)
    requires
        subscription_is(r, state, headers, token, principal_id, session_id),
    ensures
        !auth::is_admitted(state, headers, token) ==> (r matches Err(refusal) && refusal.status
            == 401),
        auth::is_operator(state, headers, token) && session_id is None ==> r == Ok::<
            SocketScope,
            ErrorReply,
        >(SocketScope::Everything),
        auth::is_operator(state, headers, token) && session_id is Some ==> r == Ok::<
            SocketScope,
            ErrorReply,
        >(SocketScope::Session(session_id->0)),
        auth::is_admitted(state, headers, token) && !auth::is_operator(state, headers, token)
            && session_id is None ==> (r matches Err(refusal) && refusal.status == 400),
        !auth::is_operator(state, headers, token) && r is Ok ==> (r matches Ok(
            SocketScope::SessionOf { principal, session_id: watched },
        ) && session_id == Some(watched) && auth::principal_of(state, headers, principal_id)
            == Ok::<auth::PrincipalView, error::SdkError>(principal@)),
{
}

} // verus!
