use morphz_web::auth::ServerIdentityMode;
use morphz_web::context::{
    active_contexts, active_session, binding_state, budget_reply, capability_reply, changed_title,
    check_context_agent, check_hard_token_limit, check_principal_search, plan_context,
    ActiveSession, ContextUpdate, CreateContextRequest, ListedContext,
};
use morphz_web::error::{Message, SdkError, SdkErrorCode};
use morphz_web::event::{Event, Timestamp};
use morphz_web::inference::ModelOption;
use morphz_web::json::{Field, Json};
use morphz_web::message::{
    attach, attachment_payload, check_message, check_session_claim, decode_attachments,
    delivery_reply, delivery_status, first_attachment_task, message_id, next_attachment_task,
    preview_headers, previewable_attachment, AttachmentInput, AttachmentTask, DeliveryReceipt,
    IncomingAttachment, MessageShape,
};
use morphz_web::model::{ContextRecord, ServerDefaults, SessionMountKind};
use morphz_web::mount::{
    check_new_session, check_session_free, mounted_session, next_create_stage, plan_agent,
    resolve_context_mount, ContextMountRequest, CreateAgentRequest, CreateSessionStage, FreshIds,
    MountStart, ResolvedMount,
};
use morphz_web::reply::Body;
use morphz_web::session::{
    check_events_query, check_session_change, check_session_thinking, events_window,
    next_operator_action, route_session_update, select_session_target, session_reply,
    OperatorAction, PermissionMode, SessionSettings, SessionStatus, Setting, TargetReason,
    TargetRef, TargetSource, UpdateRoute, UpdateSessionRequest,
};

fn text(value: &str) -> Json {
    Json::Text(value.to_string())
}

fn field(name: &str, value: Json) -> Field {
    Field {
        name: name.to_string(),
        value,
    }
}

fn defaults() -> ServerDefaults {
    ServerDefaults {
        agent_id: "agent-test".to_string(),
        context_id: "context-test".to_string(),
    }
}

fn context(id: &str, agent: &str) -> Result<Option<ContextRecord>, String> {
    Ok(Some(ContextRecord {
        id: id.to_string(),
        agent_id: agent.to_string(),
    }))
}

#[test]
fn sessions_go_to_the_default_context_or_an_existing_one() {
    match resolve_context_mount(None, None, &defaults()) {
        MountStart::Context(mount) => {
            assert_eq!(mount.context_id, "context-test");
            let resolved = mount.on_context(context("context-test", "agent-test")).ok().unwrap();
            assert_eq!(resolved.agent_id, "agent-test");
            assert_eq!(resolved.context_id, "context-test");
            assert_eq!(resolved.mount_kind, SessionMountKind::ExistingContext);
            assert!(resolved.seed.is_none());
        }
        _ => panic!("the default context is looked up"),
    }
    let existing = |agent: Option<&str>| match resolve_context_mount(
        agent.map(str::to_string),
        Some(ContextMountRequest::ExistingContext {
            context_id: "c".to_string(),
        }),
        &defaults(),
    ) {
        MountStart::Context(mount) => mount,
        _ => panic!("the context is looked up"),
    };
    let missing = existing(None).on_context(Ok(None)).err().unwrap();
    assert_eq!(missing.status, 404);
    assert_eq!(missing.message.text(), "mounted Context 'c' does not exist");
    let foreign = existing(Some("a")).on_context(context("c", "b")).err().unwrap();
    assert_eq!(
        foreign.message.text(),
        "requested Agent 'a' does not match Context owner Agent 'b'"
    );
    assert_eq!(
        existing(None).on_context(Err("x".to_string())).err().unwrap().status,
        500
    );
    assert!(matches!(
        resolve_context_mount(Some("bad id".to_string()), None, &defaults()),
        MountStart::Refuse(reply) if reply.status == 400
    ));
}

#[test]
fn new_contexts_are_planned_for_agents_that_exist() {
    let blank = || match resolve_context_mount(
        None,
        Some(ContextMountRequest::NewBlankContext {
            context_id: None,
            context_title: None,
        }),
        &defaults(),
    ) {
        MountStart::Agent(mount) => mount,
        _ => panic!("the agent is looked up"),
    };
    let creation = blank()
        .on_agent(Ok(Some("agent-test".to_string())), "fresh".to_string())
        .ok()
        .unwrap();
    assert_eq!(creation.context_id, "fresh");
    let resolved = creation.on_blank_created(Ok(())).ok().unwrap();
    assert_eq!(resolved.mount_kind, SessionMountKind::NewBlankContext);
    let missing = blank().on_agent(Ok(None), "fresh".to_string()).err().unwrap();
    assert_eq!(
        missing.message.text(),
        "Agent 'agent-test' does not exist; call create_agent first"
    );
    let creation = blank()
        .on_agent(Ok(Some("agent-test".to_string())), "fresh".to_string())
        .ok()
        .unwrap();
    let taken = creation.on_blank_created(Err("taken".to_string())).err().unwrap();
    assert_eq!(taken.status, 409);
    assert_eq!(taken.message.text(), "taken");
}

#[test]
fn minds_are_inherited_at_the_version_that_was_asked_for() {
    let mind = |agent: Option<&str>, version: Option<u64>| match resolve_context_mount(
        agent.map(str::to_string),
        Some(ContextMountRequest::NewContextFromMind {
            source_context_id: "context-test".to_string(),
            source_version: version,
            context_id: Some("context-independent".to_string()),
            context_title: Some("Inherited Mind".to_string()),
        }),
        &defaults(),
    ) {
        MountStart::Source(mount) => mount,
        _ => panic!("the source is looked up"),
    };
    let source = mind(None, Some(3))
        .on_source(context("context-test", "agent-test"))
        .ok()
        .unwrap();
    assert!(source.check_version(Ok(3)).is_ok());
    let conflict = source.check_version(Ok(4)).err().unwrap();
    assert_eq!(conflict.status, 409);
    assert_eq!(
        conflict.message.text(),
        "source Context version conflict: requested 3, current 4"
    );
    let creation = source.new_context("fresh".to_string()).ok().unwrap();
    assert_eq!(creation.context_id, "context-independent");
    let resolved = creation.on_seeded(Ok(text("seed"))).ok().unwrap();
    assert_eq!(resolved.mount_kind, SessionMountKind::NewContextFromMind);
    assert!(resolved.seed.is_some());
    assert!(mind(None, None)
        .on_source(context("context-test", "agent-test"))
        .ok()
        .unwrap()
        .check_version(Ok(9))
        .is_ok());
    let missing = mind(None, None).on_source(Ok(None)).err().unwrap();
    assert_eq!(
        missing.message.text(),
        "source Context 'context-test' does not exist"
    );
    let foreign = mind(Some("other"), None)
        .on_source(context("context-test", "agent-test"))
        .err()
        .unwrap();
    assert_eq!(
        foreign.message.text(),
        "requested Agent 'other' does not match source Context owner Agent 'agent-test'"
    );
}

#[test]
fn nothing_is_mounted_before_the_caller_is_settled() {
    let next = next_create_stage;
    assert_eq!(
        next(CreateSessionStage::CheckFree, true),
        CreateSessionStage::EnsurePrincipal
    );
    assert_eq!(
        next(CreateSessionStage::EnsurePrincipal, true),
        CreateSessionStage::CheckParent
    );
    assert_eq!(
        next(CreateSessionStage::EnsurePrincipal, false),
        CreateSessionStage::Mount
    );
    assert_eq!(
        next(CreateSessionStage::CheckParent, true),
        CreateSessionStage::Mount
    );
    assert_eq!(
        next(CreateSessionStage::Mount, true),
        CreateSessionStage::Create
    );
    assert!(check_session_free(Ok(false)).is_ok());
    let taken = check_session_free(Ok(true)).err().unwrap();
    assert_eq!(taken.status, 409);
    assert_eq!(taken.message.text(), "Session ID already exists");
    assert!(check_new_session("s", &Some("p".to_string())).is_ok());
    assert_eq!(
        check_new_session("s", &Some("p p".to_string())).err().unwrap().message.text(),
        "parent_session_id may contain only ASCII letters, digits, dots, hyphens, underscores, or colons"
    );
    let session = mounted_session(
        "s".to_string(),
        &ResolvedMount {
            agent_id: "a".to_string(),
            context_id: "c".to_string(),
            seed: None,
            mount_kind: SessionMountKind::ExistingContext,
        },
        None,
        Some(" Registered ".to_string()),
        "New Session",
    );
    assert_eq!(session.agent_id, "a");
    assert_eq!(session.context_id, "c");
    assert_eq!(session.title.into_text(), "Registered");
}

#[test]
fn a_new_agent_comes_with_a_context_and_a_session() {
    let fresh = || FreshIds {
        agent_id: "agent_1".to_string(),
        context_id: "context_1".to_string(),
        session_id: "session_1".to_string(),
    };
    let request = |id: Option<&str>| CreateAgentRequest {
        id: id.map(str::to_string),
        title: Some("Fresh Agent".to_string()),
        root_context_id: Some("context-fresh".to_string()),
        root_context_title: None,
        initial_session_id: None,
        initial_session_title: Some("Fresh Session".to_string()),
    };
    let bundle = plan_agent(request(Some("agent-fresh")), fresh()).ok().unwrap();
    assert_eq!(bundle.agent_id, "agent-fresh");
    assert_eq!(bundle.agent_title.into_text(), "Fresh Agent");
    assert_eq!(bundle.context.id, "context-fresh");
    assert_eq!(bundle.context.agent_id, "agent-fresh");
    assert_eq!(bundle.context.title.into_text(), "Root Context");
    assert_eq!(bundle.session.id, "session_1");
    assert_eq!(bundle.session.context_id, "context-fresh");
    assert_eq!(bundle.session.agent_id, "agent-fresh");
    assert_eq!(bundle.session.mount_kind, SessionMountKind::NewBlankContext);
    assert_eq!(plan_agent(request(None), fresh()).ok().unwrap().agent_id, "agent_1");
    assert_eq!(
        plan_agent(request(Some("")), fresh()).err().unwrap().message.text(),
        "agent_id length must be 1..=128"
    );
}

fn request() -> UpdateSessionRequest {
    UpdateSessionRequest {
        title: None,
        status: None,
        model_alias: None,
        reasoning_effort: None,
        permission_mode: None,
        sandbox_mode: None,
        default_target_id: None,
        context_sharing: None,
    }
}

fn options() -> Result<Vec<ModelOption>, String> {
    Ok(vec![ModelOption {
        id: "fixture-model".to_string(),
        supported_reasoning_efforts: Some(vec!["high".to_string()]),
    }])
}

#[test]
fn session_changes_are_checked_against_the_catalog() {
    let mut good = request();
    good.title = Some("  New  ".to_string());
    good.model_alias = Some(" fixture-model ".to_string());
    good.reasoning_effort = Some("provider_default".to_string());
    good.default_target_id = Some("".to_string());
    let change = check_session_change(good, &options(), None).ok().unwrap();
    assert_eq!(change.title.as_deref(), Some("New"));
    assert!(matches!(&change.model_alias, Setting::Value(model) if model == "fixture-model"));
    assert!(matches!(change.reasoning_effort, Setting::Inherit));
    assert!(matches!(change.default_target, Setting::Inherit));

    let fault = |request: UpdateSessionRequest| {
        let refusal = check_session_change(request, &options(), None).err().unwrap();
        (refusal.status, refusal.message.text())
    };
    let mut untitled = request();
    untitled.title = Some("  ".to_string());
    assert_eq!(fault(untitled), (400, "title must not be empty".to_string()));
    let mut custom = request();
    custom.permission_mode = Some(PermissionMode::Custom);
    assert_eq!(
        fault(custom),
        (
            400,
            "custom permission mode requires a complete Runtime policy and is not a Session preset"
                .to_string()
        )
    );
    let mut unknown = request();
    unknown.model_alias = Some("missing-model".to_string());
    assert_eq!(
        fault(unknown),
        (
            400,
            "model 'missing-model' is not in the discovered and enabled model catalog".to_string()
        )
    );
    let mut extreme = request();
    extreme.reasoning_effort = Some("extreme".to_string());
    assert_eq!(
        fault(extreme),
        (400, "unsupported reasoning effort 'extreme'".to_string())
    );
    let mut lost = request();
    lost.model_alias = Some("fixture-model".to_string());
    assert_eq!(
        check_session_change(lost, &Err("offline".to_string()), None).err().unwrap().status,
        500
    );
}

#[test]
fn a_session_thinks_as_its_model_can() {
    let mut asked = request();
    asked.reasoning_effort = Some("max".to_string());
    let change = check_session_change(asked, &options(), Some("max".to_string())).ok().unwrap();
    let settings = || {
        Ok(Some(SessionSettings {
            model_alias: None,
            reasoning_effort: None,
        }))
    };
    let runtime_model = "fixture-model".to_string();
    let session = "s".to_string();
    let refusal = check_session_thinking(&change, &session, settings(), &runtime_model, &options())
        .err()
        .unwrap();
    assert_eq!(refusal.status, 400);
    assert_eq!(
        refusal.message.text(),
        "reasoning effort 'max' is not supported by model 'fixture-model'"
    );
    assert!(check_session_thinking(
        &change,
        &session,
        settings(),
        &"other-model".to_string(),
        &options()
    )
    .is_ok());
    let missing = check_session_thinking(&change, &session, Ok(None), &runtime_model, &options())
        .err()
        .unwrap();
    assert_eq!(missing.message.text(), "Session 's' does not exist");
    let unchanged = check_session_change(request(), &options(), None).ok().unwrap();
    assert!(check_session_thinking(&unchanged, &session, Ok(None), &runtime_model, &options()).is_ok());
}

#[test]
fn operators_keep_policy_and_participants_keep_titles() {
    let routed = |request: UpdateSessionRequest, operator: bool| {
        let change = check_session_change(request, &options(), None).ok().unwrap();
        route_session_update(&change, operator)
    };
    let mut sharing = request();
    sharing.context_sharing = Some("shared".to_string());
    assert!(matches!(
        routed(sharing, true),
        Ok(UpdateRoute::Operator(OperatorAction::SetSharing))
    ));
    let mut sharing = request();
    sharing.context_sharing = Some("shared".to_string());
    let refusal = routed(sharing, false).err().unwrap();
    assert_eq!(refusal.status, 403);
    assert_eq!(
        refusal.message.text(),
        "only the Operator may change Session context sharing"
    );
    let mut mixed = request();
    mixed.context_sharing = Some("shared".to_string());
    mixed.title = Some("T".to_string());
    assert_eq!(routed(mixed, true).err().unwrap().status, 400);
    let mut titled = request();
    titled.title = Some("T".to_string());
    assert!(matches!(routed(titled, true), Ok(UpdateRoute::Participant)));

    let mut all = request();
    all.model_alias = Some("fixture-model".to_string());
    all.sandbox_mode = Some("workspace".to_string());
    all.default_target_id = Some("target".to_string());
    let change = check_session_change(all, &options(), None).ok().unwrap();
    assert!(matches!(
        route_session_update(&change, true),
        Ok(UpdateRoute::Operator(OperatorAction::SetTarget))
    ));
    assert_eq!(
        next_operator_action(&change, OperatorAction::SetTarget),
        OperatorAction::SetEvaluation
    );
    assert_eq!(
        next_operator_action(&change, OperatorAction::SetEvaluation),
        OperatorAction::SetPermissions
    );
    assert_eq!(
        next_operator_action(&change, OperatorAction::SetPermissions),
        OperatorAction::Read
    );
}

#[test]
fn sessions_work_on_the_target_that_fits() {
    let target = |id: &str, accepts_jobs: bool, in_process: bool| TargetRef {
        id: id.to_string(),
        accepts_jobs,
        in_process,
    };
    let select = |selected: Option<&str>, local: bool, targets: &Vec<TargetRef>| {
        select_session_target(
            selected.map(str::to_string),
            local,
            "local".to_string(),
            targets,
        )
    };
    let none = select(None, false, &vec![]);
    assert!(none.effective_target_id.is_none());
    assert_eq!(none.reason, TargetReason::ExecutionTargetRequired);
    assert_eq!(none.reason.as_str(), "execution_target_required");
    assert_eq!(none.source.as_str(), "none");
    assert!(none.onboarding_required);
    let device = vec![target("edge-cloud-laptop", true, false)];
    let waiting = select(None, false, &device);
    assert_eq!(waiting.reason, TargetReason::TargetSelectionRequired);
    assert!(!waiting.onboarding_required);
    let ready = select(Some("edge-cloud-laptop"), false, &device);
    assert!(ready.ready);
    assert_eq!(ready.source, TargetSource::Session);
    assert_eq!(ready.effective_target_id.as_deref(), Some("edge-cloud-laptop"));
    let offline = select(Some("off"), true, &vec![target("off", false, false)]);
    assert_eq!(offline.reason, TargetReason::SelectedTargetOffline);
    assert_eq!(
        select(Some("gone"), true, &device).reason,
        TargetReason::SelectedTargetUnavailable
    );
    let local = select(None, true, &vec![target("local", true, true)]);
    assert!(local.ready);
    assert_eq!(local.source.as_str(), "runtime_local");
    assert_eq!(
        select(None, true, &vec![]).reason,
        TargetReason::LocalTargetUnavailable
    );
}

#[test]
fn pages_of_events_go_one_way() {
    assert_eq!(check_events_query(None, None, Some(3)).ok().unwrap(), 100);
    assert_eq!(check_events_query(Some(5000), None, None).ok().unwrap(), 1000);
    assert_eq!(check_events_query(Some(0), None, None).ok().unwrap(), 1);
    assert_eq!(
        check_events_query(None, Some(1), Some(2)).err().unwrap().message.text(),
        "after_sequence and before_sequence cannot be used together"
    );
    let full = events_window(&vec![Some(4), Some(9), None, Some(7)], 4);
    assert_eq!(full.next_before_sequence, Some(4));
    assert_eq!(full.latest_sequence, Some(9));
    let partial = events_window(&vec![Some(4)], 4);
    assert!(partial.next_before_sequence.is_none());
    assert_eq!(partial.latest_sequence, Some(4));
    assert!(events_window(&vec![], 4).latest_sequence.is_none());
}

#[test]
fn messages_say_something_and_not_too_much() {
    let shape = |text: &'static str, references: usize| MessageShape {
        text,
        attachments: 0,
        staged_attachments: 0,
        references,
    };
    assert!(check_message(SessionStatus::Active, &shape("hello", 0)).is_ok());
    assert!(check_message(SessionStatus::Active, &shape("", 1)).is_ok());
    let empty = check_message(SessionStatus::Active, &shape("  ", 0)).err().unwrap();
    assert_eq!(empty.status, 400);
    assert_eq!(
        empty.message.text(),
        "message text, attachments, and references cannot all be empty"
    );
    let archived = check_message(SessionStatus::Archived, &shape("hello", 0)).err().unwrap();
    assert_eq!(archived.status, 409);
    let long = "x".repeat(1_000_001);
    let refusal = check_message(
        SessionStatus::Active,
        &MessageShape {
            text: &long,
            attachments: 0,
            staged_attachments: 0,
            references: 0,
        },
    )
    .err()
    .unwrap();
    assert_eq!(refusal.status, 413);
    let step = |task: AttachmentTask, input: AttachmentInput| next_attachment_task(2, task, input);
    let task = first_attachment_task(2);
    let task = step(task, AttachmentInput::Measured(Ok(5)));
    assert!(matches!(task, AttachmentTask::Count { index: 0, bytes: 5 }));
    let task = step(task, AttachmentInput::Counted(Ok(())));
    assert!(matches!(task, AttachmentTask::Measure { index: 1 }));
    let task = step(task, AttachmentInput::Measured(Ok(6)));
    let task = step(task, AttachmentInput::Counted(Ok(())));
    assert!(matches!(task, AttachmentTask::Validate));
    assert!(matches!(
        step(task, AttachmentInput::Validated(Ok(()))),
        AttachmentTask::Passed
    ));
    assert!(matches!(first_attachment_task(0), AttachmentTask::Validate));
    let refused = |task: AttachmentTask, input: AttachmentInput| match step(task, input) {
        AttachmentTask::Refuse(reply) => reply.status,
        _ => 0,
    };
    let fault = || "fault".to_string();
    assert_eq!(
        refused(first_attachment_task(2), AttachmentInput::Measured(Err(fault()))),
        400
    );
    assert_eq!(
        refused(
            AttachmentTask::Count { index: 1, bytes: 6 },
            AttachmentInput::Counted(Err(fault()))
        ),
        413
    );
    assert_eq!(
        refused(AttachmentTask::Validate, AttachmentInput::Validated(Err(fault()))),
        413
    );
    assert_eq!(refused(AttachmentTask::Validate, AttachmentInput::Counted(Ok(()))), 500);
    assert_eq!(delivery_status(true), 200);
    assert_eq!(delivery_status(false), 202);
    let taken = |duplicate: bool| {
        delivery_reply(Ok(DeliveryReceipt {
            duplicate,
            interrupted: Json::Bool(false),
            dispatch_mode: Json::Null,
            event_id: "event-1".to_string(),
            client_message_id: Json::Null,
        }))
        .ok()
        .unwrap()
    };
    assert_eq!(taken(false).status, 202);
    assert!(taken(false).accepted);
    assert_eq!(taken(true).status, 200);
    assert!(taken(true).receipt.duplicate);
    assert_eq!(taken(true).receipt.event_id, "event-1");
    let conflict = delivery_reply(Err(SdkError {
        code: SdkErrorCode::Conflict,
        message: Message::Fixed("another request has this identifier"),
    }))
    .err()
    .unwrap();
    assert_eq!(conflict.status, 409);
    assert_eq!(conflict.code.as_str(), "conflict");
    assert_eq!(
        message_id(None, "fresh".to_string(), "client_message_id").ok().unwrap(),
        "fresh"
    );
    assert_eq!(
        message_id(Some("".to_string()), "fresh".to_string(), "retry_request_id")
            .err()
            .unwrap()
            .message
            .text(),
        "retry_request_id length must be 1..=128"
    );
}

fn incoming(name: &str, data: &str) -> IncomingAttachment {
    IncomingAttachment {
        name: name.to_string(),
        media_type: "image/png".to_string(),
        data_base64: data.to_string(),
    }
}

#[test]
fn attachments_are_decoded() {
    let decoded = decode_attachments(&vec![
        incoming("hello.png", "c2FtZS1pbWFnZQ=="),
        incoming("data.png", "data:image/png;base64,AQID"),
    ])
    .ok()
    .unwrap();
    assert_eq!(decoded[0].data, b"same-image");
    assert_eq!(decoded[0].name, "hello.png");
    assert_eq!(decoded[1].data, vec![1u8, 2, 3]);
    let refusal = decode_attachments(&vec![
        incoming("a.png", "AQID"),
        incoming("b.png", "***"),
        incoming("c.png", "***"),
    ])
    .err()
    .unwrap();
    assert_eq!(refusal.status, 400);
    assert_eq!(
        refusal.message.text(),
        "attachment 'b.png' is not valid base64 data"
    );
    assert_eq!(attachment_payload("text,AQID"), "text,AQID");
    assert!(attach("n".to_string(), "m".to_string(), None).is_err());
}

#[test]
fn previews_show_pictures() {
    let event = Event {
        id: "e".to_string(),
        actor: "a".to_string(),
        event_type: "t".to_string(),
        topic: "chat/user_message".to_string(),
        timestamp: Timestamp {
            seconds: 0,
            nanos: 0,
        },
        sequence: None,
        payload: vec![field(
            "attachments",
            Json::List(vec![
                Json::Object(vec![
                    field("id", text("pdf")),
                    field("media_type", text("application/pdf")),
                ]),
                Json::Object(vec![
                    field("id", text("png")),
                    field("media_type", text("image/png")),
                ]),
            ]),
        )],
    };
    assert!(previewable_attachment(Some(&event), "png").is_ok());
    let status = |event: Option<&Event>, id: &str| {
        previewable_attachment(event, id).err().unwrap().status
    };
    assert_eq!(status(Some(&event), "pdf"), 415);
    assert_eq!(status(Some(&event), "gone"), 404);
    assert_eq!(status(None, "png"), 404);
    assert_eq!(preview_headers()[1], ("x-content-type-options", "nosniff"));
}

#[test]
fn sessions_are_claimed_behind_a_gateway_only() {
    assert!(check_session_claim(ServerIdentityMode::TrustedGateway).is_ok());
    assert_eq!(
        check_session_claim(ServerIdentityMode::Default).err().unwrap().message.text(),
        "default identity mode does not require explicitly claiming a Session"
    );
}

#[test]
fn a_context_is_seen_through_its_latest_session() {
    let session = |id: &str, seconds: i64| ActiveSession {
        id: id.to_string(),
        last_activity_at: Timestamp { seconds, nanos: 0 },
    };
    let sessions = vec![session("b", 5), session("c", 9), session("a", 9)];
    assert_eq!(active_session(&sessions, None).ok().unwrap(), "a");
    assert_eq!(
        active_session(&sessions, Some("b".to_string())).ok().unwrap(),
        "b"
    );
    let foreign = active_session(&sessions, Some("z".to_string())).err().unwrap();
    assert_eq!(foreign.status, 400);
    let empty = active_session(&vec![], None).err().unwrap();
    assert_eq!(empty.status, 409);
    assert_eq!(empty.message.text(), "Context has no active Session");
}

#[test]
fn contexts_are_created_and_renamed() {
    let planned = plan_context(
        CreateContextRequest {
            id: None,
            agent_id: None,
            title: None,
        },
        "fresh".to_string(),
        "agent-test".to_string(),
    )
    .ok()
    .unwrap();
    assert_eq!(planned.id, "fresh");
    assert_eq!(planned.agent_id, "agent-test");
    assert_eq!(planned.title.into_text(), "New Cognitive Context");
    assert!(check_context_agent(&"a".to_string(), Ok(true)).is_ok());
    assert_eq!(
        check_context_agent(&"a".to_string(), Ok(false)).err().unwrap().status,
        404
    );
    assert_eq!(
        changed_title(Some(" After ".to_string())).ok().unwrap().as_deref(),
        Some("After")
    );
    assert!(changed_title(None).ok().unwrap().is_none());
    assert!(changed_title(Some(" ".to_string())).is_err());
    let ids = active_contexts(&vec![
        ListedContext {
            id: "a".to_string(),
            active: true,
        },
        ListedContext {
            id: "b".to_string(),
            active: false,
        },
        ListedContext {
            id: "c".to_string(),
            active: true,
        },
    ]);
    assert_eq!(ids, vec!["a".to_string(), "c".to_string()]);
}

#[test]
fn context_settings_are_fenced_by_revision() {
    let updated = budget_reply(Ok(ContextUpdate::Updated(text("b")))).ok().unwrap();
    assert_eq!(updated.status, 200);
    assert!(matches!(
        updated.body,
        Body::Outcome { outcome: "updated", name: "budget", .. }
    ));
    let conflict = budget_reply(Ok(ContextUpdate::Conflict(text("b")))).ok().unwrap();
    assert_eq!(conflict.status, 409);
    match conflict.body {
        Body::Conflict { error, outcome, name, .. } => {
            assert_eq!(
                error.as_str(),
                "Context token budget was updated by another writer"
            );
            assert_eq!(outcome, Some("conflict"));
            assert_eq!(name, "budget");
        }
        _ => panic!("a conflict shows the current budget"),
    }
    assert_eq!(
        budget_reply(Ok(ContextUpdate::NotFound)).err().unwrap().status,
        404
    );
    assert_eq!(
        budget_reply(Err(SdkError {
            code: SdkErrorCode::InvalidArgument,
            message: Message::Fixed("x"),
        }))
        .err()
        .unwrap()
        .status,
        400
    );
    assert!(check_hard_token_limit(Some(12000)).is_ok());
    assert!(check_hard_token_limit(None).is_ok());
    assert_eq!(check_hard_token_limit(Some(0)).err().unwrap().status, 400);
    let binding = capability_reply(Ok(ContextUpdate::Updated(text("b")))).ok().unwrap();
    assert!(matches!(binding.body, Body::Outcome { name: "binding", .. }));
    assert_eq!(capability_reply(Err("x".to_string())).err().unwrap().status, 409);
    assert_eq!(binding_state(None), (false, 0));
    assert_eq!(binding_state(Some((true, 3))), (true, 3));
}

#[test]
fn searches_of_the_directory_are_bounded() {
    assert_eq!(check_principal_search(" site ", &None).ok().unwrap(), "site");
    assert_eq!(
        check_principal_search(&"x".repeat(201), &None).err().unwrap().message.text(),
        "Principal search term exceeds 200 characters"
    );
    for cursor in ["".to_string(), "x".repeat(513)] {
        assert_eq!(
            check_principal_search("x", &Some(cursor)).err().unwrap().message.text(),
            "invalid Principal cursor"
        );
    }
}

#[test]
fn a_changed_session_is_told_or_not_found() {
    let found = session_reply("s".to_string(), Ok(Some(Json::Bool(true)))).ok().unwrap();
    assert!(matches!(found.body, Body::Value(Json::Bool(true))));
    let missing = session_reply("s".to_string(), Ok(None)).err().unwrap();
    assert_eq!(missing.status, 404);
    assert_eq!(missing.message.text(), "Session 's' does not exist");
    assert_eq!(session_reply("s".to_string(), Err("disk".to_string())).err().unwrap().status, 500);
}
