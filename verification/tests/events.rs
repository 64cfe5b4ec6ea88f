use morphz_web::auth::ServerIdentityMode;
use morphz_web::event::{
    dashboard_event_requires_session_touch, fold_active_model_attempts, initial_tail_cursor,
    model_attempt_snapshot_at, model_attempt_snapshot_event, snapshot_context, texts_in_order, Event, Timestamp,
};
use morphz_web::json::{get_text_or_empty, get_u64_or_zero, project, Field, Json};
use morphz_web::mirror::{
    ensure_dashboard_event_session_route, event_route, mount_event_session, socket_observer_id,
    socket_step, DurableTail, EventRoute, RouteStep, SocketInput, SocketOutput, TailStep,
};
use morphz_web::model::{ContextRecord, ServerDefaults, SessionMountKind};
use morphz_web::recent::RecentDashboardEventIds;
use morphz_web::text::text_set;

fn text(value: &str) -> Json {
    Json::Text(value.to_string())
}

fn field(name: &str, value: Json) -> Field {
    Field {
        name: name.to_string(),
        value,
    }
}

fn event(id: &str, actor: &str, event_type: &str, topic: &str, payload: Vec<Field>) -> Event {
    Event {
        id: id.to_string(),
        actor: actor.to_string(),
        event_type: event_type.to_string(),
        topic: topic.to_string(),
        timestamp: Timestamp {
            seconds: 1_700_000_000,
            nanos: 0,
        },
        sequence: None,
        payload,
    }
}

fn stored(id: &str, sequence: u64) -> Event {
    let mut stored = event(id, "a", "t", "chat/reply", vec![]);
    stored.sequence = Some(sequence);
    stored
}

fn is_text(shown: Option<&Json>, expected: &str) -> bool {
    matches!(shown, Some(Json::Text(found)) if found == expected)
}

#[test]
fn model_observability_events_do_not_mutate_session_activity() {
    let event_of = |id: &str, actor: &str, event_type: &str, topic: &str| {
        event(id, actor, event_type, topic, vec![])
    };
    let event = event_of(
        "model-stream-test",
        "Model-Provider",
        "runtime_ephemeral",
        "runtime/model_stream",
    );
    assert!(!dashboard_event_requires_session_touch(&event));

    let durable_summary = event_of(
        "model-summary-test",
        "Model-Provider",
        "runtime_control",
        "runtime/model_reasoning_summary",
    );
    assert!(!dashboard_event_requires_session_touch(&durable_summary));

    let model_usage = event_of(
        "model-usage-test",
        "Model-Provider",
        "runtime_control",
        "runtime/model_usage",
    );
    assert!(!dashboard_event_requires_session_touch(&model_usage));

    let model_request_snapshot = event_of(
        "model-request-snapshot-test",
        "System-ContextKernel",
        "proposal",
        "runtime/model_request_snapshot",
    );
    assert!(!dashboard_event_requires_session_touch(
        &model_request_snapshot
    ));

    let unrelated_ephemeral = event_of(
        "other-ephemeral-test",
        "Runtime-Test",
        "runtime_ephemeral",
        "runtime/other_ephemeral",
    );
    assert!(dashboard_event_requires_session_touch(&unrelated_ephemeral));

    let durable = event_of("reply-test", "Agent-Morphz", "agent_call", "chat/reply");
    assert!(dashboard_event_requires_session_touch(&durable));
}

fn attempt_state(
    id: &str,
    attempt: &str,
    activation: &str,
    value: &str,
    terminal: bool,
    continuation_pending: bool,
) -> Event {
    event(
        id,
        "Runtime-Test",
        "runtime_control",
        "runtime/model_attempt_state",
        vec![
            field("attempt_id", text(attempt)),
            field("activation_id", text(activation)),
            field("thread_id", text("thread-live")),
            field("root_turn_id", text("root-live")),
            field("thread_kind", text("dialogue_turn")),
            field("objective_id", text("objective-live")),
            field("state", text(value)),
            field("terminal", Json::Bool(terminal)),
            field("continuation_pending", Json::Bool(continuation_pending)),
        ],
    )
}

#[test]
fn model_attempt_snapshot_folds_latest_nonterminal_state_for_live_activation() {
    let active = text_set(&vec!["activation-live".to_string()]);
    let events = vec![
        attempt_state("1", "attempt-live", "activation-live", "queued", false, false),
        attempt_state(
            "2",
            "attempt-live",
            "activation-live",
            "waiting_final_output",
            false,
            true,
        ),
        attempt_state("3", "attempt-done", "activation-live", "completed", true, false),
        attempt_state(
            "4",
            "attempt-stale",
            "activation-stale",
            "streaming",
            false,
            false,
        ),
    ];
    let attempts = fold_active_model_attempts(&events, &active);

    assert_eq!(attempts.len(), 1);
    assert!(is_text(attempts[0].attempt_id, "attempt-live"));
    assert!(is_text(attempts[0].thread_id, "thread-live"));
    assert!(is_text(attempts[0].root_turn_id, "root-live"));
    assert!(is_text(attempts[0].objective_id, "objective-live"));
    assert!(is_text(attempts[0].state, "waiting_final_output"));
    assert!(matches!(
        attempts[0].continuation_pending,
        Some(Json::Bool(true))
    ));
}

#[test]
fn snapshots_order_their_attempts_by_time() {
    let active = text_set(&vec!["a".to_string()]);
    let mut late = attempt_state("1", "late", "a", "streaming", false, false);
    late.timestamp.seconds += 10;
    let early = attempt_state("2", "early", "a", "queued", false, false);
    let events = vec![late, early];
    let snapshot = model_attempt_snapshot_event(
        "session".to_string(),
        "context".to_string(),
        &events,
        &active,
    );
    let taken: i64 = snapshot.id["model_attempt_snapshot_".len()..].parse().unwrap();
    assert!(taken > 1_600_000_000_000_000_000);
    let at = |nanos: Option<i64>| {
        model_attempt_snapshot_at(
            nanos,
            "session".to_string(),
            "context".to_string(),
            &events,
            &active,
        )
    };
    assert_eq!(at(Some(-12)).id, "model_attempt_snapshot_-12");
    assert_eq!(at(None).id, "model_attempt_snapshot_0");
    assert_eq!(at(Some(5)).attempts.len(), 2);
    assert_eq!(snapshot.actor, "Runtime-Web");
    assert_eq!(snapshot.event_type, "runtime_ephemeral");
    assert_eq!(snapshot.topic, "runtime/model_attempt_snapshot");
    assert_eq!(snapshot.context_id, "context");
    assert_eq!(snapshot.session_id, "session");
    assert_eq!(snapshot.attempts.len(), 2);
    assert!(is_text(snapshot.attempts[0].attempt_id, "early"));
    assert!(is_text(snapshot.attempts[1].attempt_id, "late"));
    assert_eq!(
        snapshot_context("s".to_string(), None).err().unwrap().text(),
        "Session 's' does not exist"
    );
    assert_eq!(
        snapshot_context("s".to_string(), Some("c".to_string())).ok().unwrap(),
        "c"
    );
}

#[test]
fn texts_are_ordered_by_their_characters() {
    assert!(texts_in_order("a", "a"));
    assert!(texts_in_order("a", "ab"));
    assert!(!texts_in_order("b", "ab"));
    assert!(texts_in_order("", "a"));
}

#[test]
fn the_durable_tail_starts_behind_the_last_event() {
    assert_eq!(initial_tail_cursor(&vec![]), 0);
    assert_eq!(initial_tail_cursor(&vec![stored("a", 7)]), 7);
    assert_eq!(
        initial_tail_cursor(&vec![event("a", "a", "t", "x", vec![])]),
        0
    );
}

#[test]
fn an_event_that_names_only_its_session_is_mounted_into_the_default_context() {
    let route = event_route(&event(
        "e",
        "a",
        "t",
        "chat/user_message",
        vec![field("session_id", text("session-from-event"))],
    ))
    .unwrap();
    assert!(route.declared_context_id.is_none());
    let defaults = ServerDefaults {
        agent_id: "agent-test".to_string(),
        context_id: "context-test".to_string(),
    };
    let step = ensure_dashboard_event_session_route(
        route,
        None,
        ServerIdentityMode::Default,
        &defaults.context_id,
    );
    match step {
        RouteStep::Mount { route, context_id } => {
            assert_eq!(context_id, "context-test");
            let made = mount_event_session(&route, context_id, None, &defaults);
            assert_eq!(made.session.id, "session-from-event");
            assert_eq!(made.session.context_id, "context-test");
            assert_eq!(made.session.agent_id, "agent-test");
            assert_eq!(made.session.mount_kind, SessionMountKind::ExistingContext);
            assert_eq!(made.session.title.into_text(), "session-from-event");
            let context = made.context.unwrap();
            assert_eq!(context.id, "context-test");
            assert_eq!(context.title.into_text(), "Default Cognitive Context");
            let known = mount_event_session(
                &route,
                "c".to_string(),
                Some(ContextRecord {
                    id: "c".to_string(),
                    agent_id: "other".to_string(),
                }),
                &defaults,
            );
            assert!(known.context.is_none());
            assert_eq!(known.session.agent_id, "other");
        }
        _ => panic!("an unknown session is mounted"),
    }
}

fn route(session: &str, declared: Option<&str>) -> EventRoute {
    EventRoute {
        session_id: session.to_string(),
        declared_context_id: declared.map(str::to_string),
        parent_session_id: None,
        timestamp: Timestamp {
            seconds: 1,
            nanos: 0,
        },
    }
}

#[test]
fn registered_sessions_are_touched_where_they_are() {
    let default_context = "context-test".to_string();
    let touched = ensure_dashboard_event_session_route(
        route("s", None),
        Some("context-test".to_string()),
        ServerIdentityMode::TrustedGateway,
        &default_context,
    );
    assert!(matches!(touched, RouteStep::Touch(found) if found.session_id == "s"));
    match ensure_dashboard_event_session_route(
        route("s", Some("elsewhere")),
        Some("context-test".to_string()),
        ServerIdentityMode::Default,
        &default_context,
    ) {
        RouteStep::Reject(fault) => assert_eq!(
            fault.text(),
            "Event route rejected: Session 's' belongs to Context 'context-test', while the Event declares 'elsewhere'"
        ),
        _ => panic!("a session does not move with an event"),
    }
    match ensure_dashboard_event_session_route(
        route("s", None),
        None,
        ServerIdentityMode::TrustedGateway,
        &default_context,
    ) {
        RouteStep::Reject(fault) => assert_eq!(
            fault.text(),
            "trusted Gateway mode refuses to create unknown Session 's' implicitly from an Event"
        ),
        _ => panic!("a gateway creates no sessions from events"),
    }
}

#[test]
fn events_without_a_session_have_no_route() {
    assert!(event_route(&event("e", "a", "t", "chat/reply", vec![])).is_none());
    assert!(event_route(&event(
        "e",
        "a",
        "t",
        "runtime/model_usage",
        vec![field("session_id", text("s"))]
    ))
    .is_none());
}

#[test]
fn the_durable_tail_retries_what_failed() {
    let mut recent = RecentDashboardEventIds::default();
    let mut tail = DurableTail::starting_after(5);
    assert!(tail.wait_before_query);
    tail.on_batch(256);
    assert!(!tail.wait_before_query);
    assert_eq!(
        tail.on_event(&mut recent, &stored("a", 6)),
        TailStep::Mirror { sequence: 6 }
    );
    assert!(!tail.on_mirrored(&mut recent, "a", 6, false));
    assert_eq!(tail.after_sequence, 5);
    assert!(tail.wait_before_query);
    assert_eq!(
        tail.on_event(&mut recent, &stored("a", 6)),
        TailStep::Mirror { sequence: 6 }
    );
    assert!(tail.on_mirrored(&mut recent, "a", 6, true));
    assert_eq!(tail.after_sequence, 6);
    assert_eq!(
        tail.on_event(&mut recent, &stored("a", 6)),
        TailStep::Duplicate
    );
    assert_eq!(
        tail.on_event(&mut recent, &event("b", "a", "t", "x", vec![])),
        TailStep::Skip
    );
    tail.on_batch(255);
    assert!(tail.wait_before_query);
    tail.on_batch(256);
    tail.on_query_failed();
    assert!(tail.wait_before_query);
    assert_eq!(tail.after_sequence, 6);
}

#[test]
fn sockets_pass_on_what_they_watch() {
    let own = || {
        SocketInput::Broadcast(event(
            "e",
            "a",
            "t",
            "chat/reply",
            vec![field("session_id", text("s"))],
        ))
    };
    let filter = Some("s".to_string());
    assert_eq!(socket_step(&own(), &filter, false), SocketOutput::Forward);
    assert_eq!(
        socket_step(&own(), &Some("other".to_string()), false),
        SocketOutput::Ignore
    );
    assert_eq!(socket_step(&own(), &None, false), SocketOutput::Forward);
    let snapshot = SocketInput::Broadcast(event(
        "e",
        "a",
        "t",
        "runtime/model_request_snapshot",
        vec![field("session_id", text("s"))],
    ));
    assert_eq!(socket_step(&snapshot, &filter, false), SocketOutput::Ignore);
    assert_eq!(socket_step(&snapshot, &filter, true), SocketOutput::Forward);
    assert_eq!(
        socket_step(&SocketInput::Heartbeat, &None, false),
        SocketOutput::Ping
    );
    assert_eq!(
        socket_step(&SocketInput::Lagged, &None, false),
        SocketOutput::Close
    );
    assert_eq!(
        socket_step(&SocketInput::Closed, &None, false),
        SocketOutput::Close
    );
    assert_eq!(
        socket_step(&SocketInput::ClientGone, &None, false),
        SocketOutput::Close
    );
    assert_eq!(
        socket_step(&SocketInput::ClientMessage, &None, false),
        SocketOutput::Ignore
    );
    assert_eq!(
        socket_observer_id(true, &filter, 12).as_deref(),
        Some("dashboard-ws-12")
    );
    assert!(socket_observer_id(true, &None, 12).is_none());
    assert!(socket_observer_id(false, &filter, 12).is_none());
}

#[test]
fn members_are_read_from_objects() {
    let object = vec![
        field("a", Json::Unsigned(3)),
        field("b", text("x")),
        field("a", Json::Null),
    ];
    let shown = project(&object, &vec!["b", "c", "a"]);
    assert_eq!(shown.len(), 3);
    assert!(is_text(shown[0].value, "x"));
    assert!(shown[1].value.is_none());
    assert!(matches!(shown[2].value, Some(Json::Unsigned(3))));
    let value = Json::Object(object);
    assert_eq!(get_u64_or_zero(&value, "a"), 3);
    assert_eq!(get_u64_or_zero(&value, "b"), 0);
    assert_eq!(get_text_or_empty(&value, "b"), "x");
    assert_eq!(get_text_or_empty(&Json::Null, "b"), "");
}
