use morphz_web::artifact::{
    begin_upload, claim_step, claim_wait_seconds, plan_download, transfer_job_reply,
    upload_declaration, upload_progress, ArtifactChannel, ClaimStep, StageFile, Upload,
    UploadDeclaration, UploadEnd, UploadStart,
};
use morphz_web::auth::{AppState, PrincipalAssertion, ServerIdentityConfig, ServerIdentityMode};
use morphz_web::control::{
    authorize_objective_request, cancel_notice, check_delegation_cancel, check_pause, check_resume,
    check_token_budget, delegation_limits, delegations_page, delivery_session,
    objective_deleted_reply, objective_reply, plan_objective, schedule_action, schedule_reply,
    scheduler_refusal, stated_objective, thread_reply, DelegationStatus, Mutation, ObjectiveAccess,
    ObjectiveRef, ObjectiveSession, ObjectiveStatus, ReasonedAct, ScheduleAction, ScheduleMutation,
};
use morphz_web::coordination::{
    admit_evaluation, advertised_models, advertisement_expiry, assignment_summary,
    check_cancellation_target, check_coordination, check_handshake, check_participant_identity,
    check_projection_target, coordination_evaluation_session_id, merge_assignments,
    on_failure_stored, on_success_stored, plan_cancellation, start_evaluation,
    validate_remote_model_request, AssignmentRecord,
    EvaluationAssignment, EvaluationModelRequest, EvaluationStart, ModelExecutionProfile,
    Participant, WorkAssignmentStatus,
};
use morphz_web::digest::{digest_name, inspect_text, sha256_of};
use morphz_web::endpoint::CoordinationRoute;
use morphz_web::error::{Message, SdkError, SdkErrorCode};
use morphz_web::evaluation::{next_evaluation_task, EvaluationInput, EvaluationTask};
use morphz_web::event::{Event, Timestamp};
use morphz_web::headers::HeaderMap;
use morphz_web::inference::ModelOption;
use morphz_web::json::{Field, Json};
use morphz_web::reply::Body;
use morphz_web::search::{
    check_frame_session, check_recall_search, dialogue_matches, dialogue_query, event_hits,
    frame_action, frame_reason, frame_recall, frame_transaction, visible_sessions, DialogueKind,
    FrameAction, RecallHit, SessionRef,
};
use morphz_web::text::text_set;

fn text(value: &str) -> Json {
    Json::Text(value.to_string())
}

fn field(name: &str, value: Json) -> Field {
    Field {
        name: name.to_string(),
        value,
    }
}

fn headers(entries: &[(&str, &str)]) -> HeaderMap {
    let mut map = HeaderMap::new();
    for (name, value) in entries {
        map.append(name.to_string(), Some(value.to_string()));
    }
    map
}

fn channel(size: Option<u64>, digest: Option<&str>) -> ArtifactChannel {
    ArtifactChannel {
        size_bytes: size,
        expected_digest: digest.map(str::to_string),
    }
}

const ABC: &str = "sha256:ba7816bf8f01cfea414140de5dae2223b00361a396177a9cb410ff61f20015ad";

fn running(total: u64, digest: &str, channel: ArtifactChannel, stored: u64) -> Upload {
    let declaration = UploadDeclaration {
        offset: stored,
        total,
        digest: digest.to_string(),
    };
    match begin_upload(declaration, channel, None, stored) {
        UploadStart::Running(upload) => upload,
        _ => panic!("the upload goes on where it stopped"),
    }
}

#[test]
fn uploads_declare_what_was_frozen() {
    let declared = headers(&[
        ("x-morphz-artifact-offset", "1"),
        ("x-morphz-artifact-total-size", "3"),
        ("x-morphz-content-digest", ABC),
    ]);
    let found = upload_declaration(&declared, &channel(Some(3), Some(ABC))).ok().unwrap();
    assert_eq!((found.offset, found.total), (1, 3));
    assert_eq!(found.digest, ABC);
    let refused = |headers: &HeaderMap, channel: ArtifactChannel| {
        let refusal = upload_declaration(headers, &channel).err().unwrap();
        (refusal.status, refusal.message.text())
    };
    assert_eq!(
        refused(&declared, channel(Some(4), None)),
        (
            409,
            "upload declaration does not match the frozen channel".to_string()
        )
    );
    assert_eq!(
        refused(&headers(&[]), channel(None, None)),
        (
            400,
            "missing or invalid Header: x-morphz-artifact-offset".to_string()
        )
    );
    assert_eq!(
        refused(
            &headers(&[
                ("x-morphz-artifact-offset", "0"),
                ("x-morphz-artifact-total-size", "3"),
            ]),
            channel(None, None)
        ),
        (400, "missing Artifact digest".to_string())
    );
    let elsewhere = UploadDeclaration {
        offset: 2,
        total: 3,
        digest: ABC.to_string(),
    };
    match begin_upload(elsewhere, channel(None, None), None, 1) {
        UploadStart::OffsetConflict { refusal, expected_offset } => {
            assert_eq!(expected_offset, 1);
            assert_eq!(refusal.status, 409);
            assert_eq!(refusal.message.text(), "Artifact upload offset conflict");
        }
        _ => panic!("the upload does not go on elsewhere"),
    }
    let repeated = UploadDeclaration {
        offset: 2,
        total: 3,
        digest: ABC.to_string(),
    };
    match begin_upload(repeated, channel(None, None), Some(3), 1) {
        UploadStart::Finished { digest, size_bytes } => {
            assert_eq!(digest, ABC);
            assert_eq!(size_bytes, 3);
        }
        _ => panic!("an artifact that is there is not uploaded again"),
    }
}

#[test]
fn resumed_uploads_are_committed_when_they_are_whole() {
    let mut upload = running(3, ABC, channel(Some(3), Some(ABC)), 1);
    upload.on_stored(b"a");
    assert!(upload.on_chunk(b"b").is_ok());
    assert!(upload.on_chunk(b"c").is_ok());
    assert!(matches!(
        upload.finish(),
        UploadEnd::Commit { digest, size_bytes: 3 } if digest == ABC
    ));
    let mut short = running(3, ABC, channel(None, None), 0);
    assert!(short.on_chunk(b"ab").is_ok());
    assert!(matches!(
        short.finish(),
        UploadEnd::Incomplete(reply)
            if reply.message.text() == "Artifact upload has not reached the declared size"
    ));
    let mut wrong = running(3, ABC, channel(None, None), 0);
    assert!(wrong.on_chunk(b"abd").is_ok());
    assert!(matches!(
        wrong.finish(),
        UploadEnd::Discard(reply)
            if reply.message.text() == "Artifact upload digest does not match the declaration"
    ));
    let mut other = running(3, ABC, channel(None, Some("sha256:00")), 0);
    assert!(other.on_chunk(b"abc").is_ok());
    assert!(matches!(
        other.finish(),
        UploadEnd::Discard(reply) if reply.message.text()
            == "Artifact upload digest or size does not match the frozen channel"
    ));
    let mut long = running(3, ABC, channel(Some(3), None), 0);
    assert!(long.on_chunk(b"abc").is_ok());
    let refusal = long.on_chunk(b"d").err().unwrap();
    assert_eq!(refusal.status, 413);
    assert_eq!(long.size_bytes, 4);
    assert_eq!(upload_progress(true, Some(3), Some(1)).offset, 3);
    let partial = upload_progress(false, None, Some(1));
    assert_eq!((partial.offset, partial.completed), (1, false));
}

#[test]
fn downloads_stay_within_the_artifact() {
    let whole = plan_download(StageFile::File(10), channel(Some(10), Some(ABC)), 0).ok().unwrap();
    assert_eq!((whole.status, whole.length, whole.total), (200, 10, 10));
    assert_eq!(whole.digest.as_deref(), Some(ABC));
    let rest = plan_download(StageFile::File(10), channel(None, None), 4).ok().unwrap();
    assert_eq!((rest.status, rest.offset, rest.length), (206, 4, 6));
    let status = |stage: StageFile, size: Option<u64>, offset: u64| {
        plan_download(stage, channel(size, None), offset).err().unwrap().status
    };
    assert_eq!(status(StageFile::File(10), None, 11), 416);
    assert_eq!(status(StageFile::File(10), Some(9), 0), 409);
    assert_eq!(status(StageFile::NotAFile, None, 0), 409);
    assert_eq!(status(StageFile::Missing, None, 0), 404);
    assert_eq!(status(StageFile::Unreadable, None, 0), 500);
    assert!(transfer_job_reply(Json::Null, "transfer", "transfer").is_ok());
    assert_eq!(
        transfer_job_reply(Json::Null, "exec", "transfer").err().unwrap().status,
        400
    );
}

#[test]
fn claims_wait_for_a_command() {
    assert_eq!(claim_wait_seconds(None), 20);
    assert_eq!(claim_wait_seconds(Some(3)), 3);
    assert_eq!(claim_wait_seconds(Some(60)), 25);
    assert!(matches!(
        claim_step(Ok(None), 9_000_000_000),
        ClaimStep::Wait { nanos: 5_000_000_000 }
    ));
    assert!(matches!(
        claim_step(Ok(None), 7),
        ClaimStep::Wait { nanos: 7 }
    ));
    assert!(matches!(
        claim_step(Ok(None), 0),
        ClaimStep::Answer(Ok(reply)) if reply.status == 204
    ));
    assert!(matches!(
        claim_step(Ok(Some(Json::Null)), 7),
        ClaimStep::Answer(Ok(reply)) if matches!(reply.body, Body::Named { name: "job", .. })
    ));
    assert!(matches!(
        claim_step(
            Err(SdkError {
                code: SdkErrorCode::Unauthorized,
                message: Message::Fixed("x"),
            }),
            7
        ),
        ClaimStep::Answer(Err(reply)) if reply.status == 401
    ));
}

#[test]
fn digests_are_written_in_hexadecimal() {
    assert_eq!(digest_name(&sha256_of(b"abc")), ABC);
    assert_eq!(
        digest_name(&sha256_of(b"streamed-document-payload")),
        "sha256:8f46129662efbd03e1b69322b5238e5ff5ce0d0c14d909511b622d55a569014d"
    );
    let inspected = inspect_text("häl");
    assert_eq!(inspected.chars, 3);
    assert_eq!(inspected.bytes, 4);
    assert_eq!(
        inspected.sha256,
        "sha256:fbbf22494138ae19acfa5f46961bba68925992d651fc76529b7fd8a3dd6a5502"
    );
}

#[test]
fn coordination_execution_sessions_are_request_scoped_not_interactive_session_scoped() {
    let first = coordination_evaluation_session_id("request-a", "authority-a");
    assert_eq!(
        first,
        coordination_evaluation_session_id("request-a", "authority-a")
    );
    assert_ne!(
        first,
        coordination_evaluation_session_id("request-b", "authority-a")
    );
    assert_ne!(
        first,
        coordination_evaluation_session_id("request-a", "authority-b")
    );
    assert!(first.starts_with("coord-eval-"));
    assert_eq!(first, "coord-eval-MhXdyIW7WFEhVbK1F49bM5FJ");
}

fn participant() -> Participant {
    Participant {
        authority_id: "authority-local".to_string(),
        agent_id: "agent-test".to_string(),
        context_id: "context-test".to_string(),
    }
}

fn profiles() -> Vec<ModelExecutionProfile> {
    vec![
        ModelExecutionProfile {
            route: "fast".to_string(),
            supported_reasoning_efforts: None,
        },
        ModelExecutionProfile {
            route: "deep".to_string(),
            supported_reasoning_efforts: Some(vec!["high".to_string()]),
        },
    ]
}

fn model(route: Option<&str>, effort: Option<&str>) -> EvaluationModelRequest {
    EvaluationModelRequest {
        route: route.map(str::to_string),
        reasoning_effort: effort.map(str::to_string),
    }
}

#[test]
fn evaluations_ask_for_advertised_models() {
    let check = |route: Option<&str>, effort: Option<&str>| {
        validate_remote_model_request(&model(route, effort), &profiles())
    };
    assert!(check(None, None).is_ok());
    assert!(check(Some("fast"), None).is_ok());
    assert!(check(Some("deep"), Some("high")).is_ok());
    assert!(check(None, Some("high")).is_ok());
    assert_eq!(
        check(Some("other"), None).err().unwrap(),
        "requested model route is not advertised by this participant"
    );
    assert_eq!(
        check(Some("fast"), Some("high")).err().unwrap(),
        "reasoning effort 'high' is not advertised by the requested model route"
    );
}

fn assignment(request: &str) -> EvaluationAssignment {
    let session = coordination_evaluation_session_id(request, "authority-local");
    EvaluationAssignment {
        assignment_id: "assignment".to_string(),
        request_id: request.to_string(),
        authority_id: "authority-local".to_string(),
        agent_id: "agent-test".to_string(),
        context_id: "context-test".to_string(),
        session_id: session.clone(),
        projection_context_id: "context-test".to_string(),
        projection_session_id: session,
    }
}

#[test]
fn evaluations_run_in_the_session_of_their_request() {
    let admitted = admit_evaluation(
        &assignment("request-shared"),
        &participant(),
        &model(None, None),
        &profiles(),
    )
    .ok()
    .unwrap();
    assert_eq!(
        admitted.session.id,
        coordination_evaluation_session_id("request-shared", "authority-local")
    );
    assert_eq!(admitted.session.context_id, "context-test");
    assert_eq!(
        admitted.session.title.into_text(),
        "Coordination request-shared"
    );
    let refused = |assignment: EvaluationAssignment, model: EvaluationModelRequest| {
        let refusal = admit_evaluation(&assignment, &participant(), &model, &profiles())
            .err()
            .unwrap();
        (refusal.status, refusal.message.text())
    };
    let mut foreign = assignment("r");
    foreign.agent_id = "other".to_string();
    assert_eq!(
        refused(foreign, model(None, None)),
        (
            409,
            "Evaluation Assignment does not match this participant's advertised identity"
                .to_string()
        )
    );
    let mut interactive = assignment("r");
    interactive.session_id = "chat".to_string();
    assert_eq!(
        refused(interactive, model(None, None)),
        (
            409,
            "Evaluation Assignment does not match its request-scoped execution Session".to_string()
        )
    );
    assert_eq!(refused(assignment("r"), model(Some("x"), None)).0, 400);
}

fn stored(status: WorkAssignmentStatus, has_output: bool) -> AssignmentRecord {
    AssignmentRecord {
        external_id: "e".to_string(),
        status,
        status_text: "running".to_string(),
        session_id: "s".to_string(),
        has_output,
    }
}

#[test]
fn evaluations_run_at_most_once() {
    assert!(matches!(
        start_evaluation(Ok(None)),
        EvaluationStart::Execute
    ));
    assert!(matches!(
        start_evaluation(Ok(Some(stored(WorkAssignmentStatus::Succeeded, true)))),
        EvaluationStart::Replay
    ));
    match start_evaluation(Ok(Some(stored(WorkAssignmentStatus::Open, false)))) {
        EvaluationStart::Refuse(reply) => assert_eq!(
            reply.message.text(),
            "Evaluation Assignment 'e' already has status 'running' and cannot execute twice"
        ),
        _ => panic!("an assignment runs once"),
    }
    assert!(on_success_stored(Ok(None)).is_ok());
    assert!(on_success_stored(Ok(Some(stored(WorkAssignmentStatus::Succeeded, true)))).is_ok());
    assert_eq!(
        on_success_stored(Ok(Some(stored(WorkAssignmentStatus::Cancelled, false))))
            .err()
            .unwrap()
            .message
            .text(),
        "Evaluation Assignment 'e' completed locally after its durable status became 'running'"
    );
    let (reply, cancels) = on_failure_stored("broken".to_string(), true);
    assert_eq!((reply.status, cancels), (502, true));
    let (reply, cancels) = on_failure_stored("broken".to_string(), false);
    assert_eq!((reply.status, cancels), (500, false));
}

#[test]
fn only_won_cancellations_cancel_the_session() {
    let won = plan_cancellation(
        Some(WorkAssignmentStatus::Cancelled),
        None,
        Some(stored(WorkAssignmentStatus::Open, false)),
    );
    assert!(won.cancelled);
    assert_eq!(won.cancel_session.as_deref(), Some("s"));
    let active = plan_cancellation(
        Some(WorkAssignmentStatus::Cancelled),
        Some("live".to_string()),
        None,
    );
    assert_eq!(active.cancel_session.as_deref(), Some("live"));
    let lost = plan_cancellation(
        Some(WorkAssignmentStatus::Succeeded),
        Some("live".to_string()),
        None,
    );
    assert!(!lost.cancelled);
    assert!(lost.cancel_session.is_none());
}

#[test]
fn participants_introduce_themselves() {
    assert!(check_handshake("a", "a", false, "1", "1").is_ok());
    assert!(check_handshake("", "a", true, "1", "1").is_ok());
    assert!(check_handshake("", "a", false, "1", "1").is_err());
    assert!(check_handshake("a", "a", false, "2", "1").is_err());
    assert!(check_projection_target("a", "a").is_ok());
    let refusal = check_projection_target("a", "b").err().unwrap();
    assert_eq!(refusal.status, 409);
    assert_eq!(refusal.message.text(), "projection target Authority mismatch");
    assert!(check_cancellation_target("a", Some("a")).is_ok());
    let refusal = check_cancellation_target("a", None).err().unwrap();
    assert_eq!(refusal.status, 409);
    assert_eq!(refusal.message.text(), "cancellation target Authority mismatch");
    assert!(check_participant_identity("agent-test", "context-test", &participant()).is_ok());
    assert_eq!(
        check_participant_identity("agent-test", "x", &participant()).err().unwrap(),
        "configured participant Agent/Context identity is inconsistent"
    );
    let options: Vec<ModelOption> = ["a", "b", "c"]
        .iter()
        .map(|id| ModelOption {
            id: id.to_string(),
            supported_reasoning_efforts: None,
        })
        .collect();
    let allowed = text_set(&vec!["c".to_string()]);
    assert_eq!(advertised_models(&options, &allowed, "a"), vec![0, 2]);
    let issued = Timestamp {
        seconds: 10,
        nanos: 5,
    };
    assert_eq!(
        advertisement_expiry(issued, 60),
        Some(Timestamp {
            seconds: 70,
            nanos: 5
        })
    );
    assert!(advertisement_expiry(issued, u64::MAX).is_none());
    let absent = check_coordination(CoordinationRoute::Status, false, true).err().unwrap();
    assert_eq!(absent.status, 501);
    let idle = check_coordination(CoordinationRoute::Identity, true, false).err().unwrap();
    assert_eq!(idle.status, 503);
    assert_eq!(idle.message.text(), "Coordination Mesh is not configured");
    assert!(check_coordination(CoordinationRoute::Evaluate, true, true).is_ok());
}

#[test]
fn assignments_are_shown_once_and_without_their_payloads() {
    let ids = |list: &[&str]| list.iter().map(|id| id.to_string()).collect::<Vec<String>>();
    assert_eq!(
        merge_assignments(&ids(&["a", "b"]), &ids(&["b", "c", "c", "a", "d"])),
        vec![1, 4]
    );
    let record = vec![
        field("id", text("a")),
        field("input", text("secret")),
        field("status", text("open")),
    ];
    let summary = assignment_summary(&record);
    assert_eq!(summary.len(), 14);
    assert!(summary.iter().all(|member| member.name != "input"));
    assert!(matches!(summary[0].value, Some(Json::Text(id)) if id == "a"));
}

fn event(id: &str, topic: &str, payload: Vec<Field>) -> Event {
    Event {
        id: id.to_string(),
        actor: "Dialogue-Search-Test".to_string(),
        event_type: "test".to_string(),
        topic: topic.to_string(),
        timestamp: Timestamp {
            seconds: 0,
            nanos: 0,
        },
        sequence: None,
        payload,
    }
}

#[test]
fn dialogue_searches_show_messages_that_can_be_opened() {
    let of = |session: &str| vec![field("session_id", text(session))];
    let mut delivery = of("dialogue-search-session");
    delivery.push(field("objective_id", text("objective-dialogue-search")));
    let events = vec![
        event("dialogue-search-user", "chat/user_message", of("dialogue-search-session")),
        event("dialogue-search-steering", "chat/steering", of("dialogue-search-session")),
        event("dialogue-search-delivery", "chat/reply", delivery),
        event(
            "dialogue-search-control",
            "runtime/model_attempt_state",
            of("dialogue-search-session"),
        ),
        event("foreign", "chat/reply", of("elsewhere")),
        event("plain", "chat/reply", of("dialogue-search-session")),
        event("signal", "chat/session_signal", of("dialogue-search-session")),
    ];
    let hit = |id: &str, is_event: bool| RecallHit {
        is_event,
        document_id: id.to_string(),
    };
    let hits = vec![
        hit("dialogue-search-user", true),
        hit("dialogue-search-steering", true),
        hit("dialogue-search-delivery", true),
        hit("dialogue-search-control", true),
        hit("foreign", true),
        hit("plain", false),
        hit("plain", true),
        hit("signal", true),
    ];
    let visible = visible_sessions(
        &vec![
            SessionRef {
                id: "dialogue-search-session".to_string(),
                context_id: "context-test".to_string(),
            },
            SessionRef {
                id: "elsewhere".to_string(),
                context_id: "other".to_string(),
            },
        ],
        "context-test",
    );
    assert_eq!(event_hits(&hits), vec![0, 1, 2, 3, 4, 6, 7]);
    let found = dialogue_matches(&hits, &events, &visible, 100);
    let kinds: Vec<DialogueKind> = found.iter().map(|item| item.kind).collect();
    assert_eq!(
        kinds,
        vec![
            DialogueKind::User,
            DialogueKind::User,
            DialogueKind::ExecutionResult,
            DialogueKind::Agent,
            DialogueKind::Coordination,
        ]
    );
    assert_eq!(found[3].hit, 6);
    assert_eq!(found[3].event, 5);
    assert_eq!(DialogueKind::ExecutionResult.as_str(), "execution_result");
    assert_eq!(dialogue_matches(&hits, &events, &visible, 2).len(), 2);
    let query = dialogue_query(" sentinel ", Some(20)).ok().unwrap();
    assert_eq!(query.text, "sentinel");
    assert_eq!((query.limit, query.candidate_limit), (20, 160));
    assert_eq!(
        dialogue_query("x", Some(100)).ok().unwrap().candidate_limit,
        500
    );
    assert_eq!(
        dialogue_query(" ", None).err().unwrap().message.text(),
        "query must not be empty"
    );
    assert!(check_recall_search(" ", true, false).is_ok());
    assert_eq!(
        check_recall_search(" ", false, false).err().unwrap().message.text(),
        "query or time range must not be empty"
    );
}

#[test]
fn frames_are_changed_by_transactions() {
    assert_eq!(frame_action(" protect ").ok().unwrap(), FrameAction::Protect);
    assert_eq!(
        frame_action("Protect").err().unwrap().message.text(),
        "action supports only restore, protect, or unprotect"
    );
    assert_eq!(
        frame_reason(None, FrameAction::Restore),
        "Dashboard requested Frame action restore"
    );
    assert_eq!(
        frame_transaction(7, "\"why\"", FrameAction::Unprotect, "frame-a"),
        "(context-tx (base-version 7) (reason \"why\") (unprotect frame-a))"
    );
    assert!(check_frame_session(Ok(Some("c".to_string())), "c").is_ok());
    assert_eq!(check_frame_session(Ok(None), "c").err().unwrap().status, 404);
    assert_eq!(
        check_frame_session(Ok(Some("d".to_string())), "c").err().unwrap().status,
        400
    );
    let recall = frame_recall(None, None, None, None, Some(" ".to_string()));
    assert_eq!((recall.depth, recall.max_nodes), (0, 32));
    assert!(recall.include_bodies && !recall.include_events);
    assert!(recall.cursor.is_none());
}

fn objective(status: ObjectiveStatus) -> ObjectiveRef {
    ObjectiveRef {
        status,
        status_text: "done".to_string(),
        coordinator_session_id: "s".to_string(),
    }
}

#[test]
fn objectives_are_resumed_and_paused_in_turn() {
    assert!(check_resume(&objective(ObjectiveStatus::Paused)).is_ok());
    assert!(check_resume(&objective(ObjectiveStatus::Blocked)).is_ok());
    assert!(check_pause(&objective(ObjectiveStatus::Active)).is_ok());
    assert_eq!(
        check_resume(&objective(ObjectiveStatus::Other)).err().unwrap().message.text(),
        "Objective is currently 'done'; only blocked or paused Objectives can be resumed explicitly"
    );
    assert_eq!(
        check_pause(&objective(ObjectiveStatus::Paused)).err().unwrap().message.text(),
        "Objective is currently 'done'; only active Objectives can be paused explicitly"
    );
    let updated = objective_reply("paused", Ok(Mutation::Updated(Json::Null))).ok().unwrap();
    assert!(matches!(
        updated.body,
        Body::Flagged { flag: "paused", name: "objective", .. }
    ));
    let conflict = objective_reply(
        "paused",
        Ok(Mutation::Conflict {
            current: Json::Null,
        }),
    )
    .ok()
    .unwrap();
    assert_eq!(conflict.status, 409);
    assert_eq!(
        objective_reply("paused", Ok(Mutation::NotFound)).err().unwrap().message.text(),
        "Objective does not exist"
    );
    let thread = thread_reply(Ok(Mutation::Conflict {
        current: Json::Null,
    }))
    .ok()
    .unwrap();
    assert!(matches!(
        thread.body,
        Body::Conflict { error, .. }
            if error.as_str() == "Thread revision conflict; refresh and retry"
    ));
    assert_eq!(thread_reply(Ok(Mutation::NotFound)).err().unwrap().status, 404);
}

#[test]
fn objectives_are_stated_and_bound_to_one_context() {
    let session = |id: &str, agent: &str| ObjectiveSession {
        id: id.to_string(),
        agent_id: agent.to_string(),
        context_id: "c".to_string(),
    };
    assert_eq!(stated_objective(" run ").ok().unwrap(), "run");
    assert_eq!(
        stated_objective("  ").err().unwrap().message.text(),
        "stated_objective must not be empty"
    );
    assert!(check_token_budget(None).is_ok());
    assert_eq!(
        check_token_budget(Some(0)).err().unwrap().message.text(),
        "token_budget must be greater than 0"
    );
    assert_eq!(delivery_session(None, &session("s", "a")), "s");
    assert_eq!(
        plan_objective(
            &session("s", "a"),
            &session("t", "a"),
            Some("objective-http-harness".to_string()),
            "fresh".to_string()
        )
        .ok()
        .unwrap(),
        "objective-http-harness"
    );
    assert_eq!(
        plan_objective(
            &session("s", "a"),
            &session("t", "b"),
            None,
            "fresh".to_string()
        )
        .err()
        .unwrap()
        .message
        .text(),
        "coordinator and delivery Session must belong to the same Agent/Context"
    );
}

#[test]
fn objectives_of_others_need_the_session() {
    let state = AppState {
        auth_token: Some("dashboard-secret".to_string()),
        gateway_token: Some("gateway-secret".to_string()),
        default_agent_id: "a".to_string(),
        default_context_id: "c".to_string(),
        identity: ServerIdentityConfig {
            mode: ServerIdentityMode::TrustedGateway,
            provider_id: "morphz-site".to_string(),
            service_token_env: "MORPHZ_API_TOKEN".to_string(),
        },
        default_principal: PrincipalAssertion {
            principal_id: "owner".to_string(),
            provider_id: "local".to_string(),
            assurance: "local".to_string(),
            display_name: None,
        },
    };
    let caller = headers(&[
        ("authorization", "Bearer gateway-secret"),
        ("x-morphz-principal", "site-user-2"),
    ]);
    let ask = |headers: &HeaderMap| {
        authorize_objective_request(
            &state,
            headers,
            None,
            Ok(Some(objective(ObjectiveStatus::Active))),
        )
    };
    assert!(matches!(
        ask(&caller),
        ObjectiveAccess::IfSessionVisible { objective, principal }
            if objective.coordinator_session_id == "s" && principal.principal_id == "site-user-2"
    ));
    assert!(matches!(
        ask(&headers(&[("authorization", "Bearer dashboard-secret")])),
        ObjectiveAccess::Granted(_)
    ));
    assert!(matches!(
        authorize_objective_request(&state, &caller, None, Ok(None)),
        ObjectiveAccess::Refused(reply) if reply.status == 404
    ));
}

#[test]
fn schedules_are_fenced_by_revision() {
    assert_eq!(schedule_action(" Pause ").ok().unwrap(), ScheduleAction::Pause);
    assert_eq!(schedule_action("cancel").ok().unwrap(), ScheduleAction::Cancel);
    assert_eq!(
        schedule_action("stop").err().unwrap().message.text(),
        "action supports only pause, resume, reschedule, or cancel"
    );
    let rejected = schedule_reply(Ok(ScheduleMutation::Rejected {
        current: Json::Null,
        reason: "too late".to_string(),
    }))
    .ok()
    .unwrap();
    assert_eq!(rejected.status, 409);
    assert!(matches!(
        rejected.body,
        Body::Conflict { error, outcome: Some("rejected"), name: "schedule", .. }
            if error.as_str() == "too late"
    ));
    let conflict = schedule_reply(Ok(ScheduleMutation::Conflict {
        current: Json::Null,
    }))
    .ok()
    .unwrap();
    assert_eq!(conflict.status, 409);
    assert_eq!(
        schedule_reply(Ok(ScheduleMutation::Updated(Json::Null))).ok().unwrap().status,
        200
    );
    assert_eq!(
        schedule_reply(Ok(ScheduleMutation::NotFound)).err().unwrap().status,
        404
    );
    let missing = scheduler_refusal("Context 'x' does not exist".to_string());
    assert_eq!(missing.status, 404);
    assert_eq!(missing.message.text(), "Context 'x' does not exist");
    assert_eq!(scheduler_refusal("disk".to_string()).status, 500);
}

#[test]
fn delegations_are_paged_and_cancelled() {
    assert!(check_delegation_cancel(Ok(Some(DelegationStatus::Open)), "open".to_string()).is_ok());
    assert_eq!(
        check_delegation_cancel(Ok(Some(DelegationStatus::Failed)), "failed".to_string())
            .err()
            .unwrap()
            .message
            .text(),
        "Delegation is already terminal with status 'failed' and cannot be cancelled"
    );
    assert_eq!(
        check_delegation_cancel(Ok(None), "".to_string()).err().unwrap().status,
        404
    );
    let limits = delegation_limits(None);
    assert_eq!((limits.shown, limits.asked), (200, 201));
    assert_eq!(delegation_limits(Some(9999)).shown, 500);
    let (page, more) = delegations_page(vec![Json::Null, Json::Null, Json::Null], 2);
    assert_eq!((page.len(), more), (2, true));
    let (page, more) = delegations_page(vec![Json::Null], 2);
    assert_eq!((page.len(), more), (1, false));
    assert!(cancel_notice(1).was_running);
    assert_eq!(
        cancel_notice(1).text,
        "Current Session execution was cancelled."
    );
    assert!(!cancel_notice(0).was_running);
}

#[test]
fn a_deleted_objective_is_told_with_how_it_ended() {
    let reply = objective_deleted_reply(Ok(Mutation::Updated(text("cancelled")))).ok().unwrap();
    assert_eq!(reply.status, 200);
    assert!(matches!(reply.body, Body::Deleted { objective: Json::Text(ended) } if ended == "cancelled"));
    let missing = objective_deleted_reply(Ok(Mutation::NotFound)).err().unwrap();
    assert_eq!(missing.status, 404);
    assert_eq!(missing.message.text(), "Objective does not exist");
    let conflict =
        objective_deleted_reply(Ok(Mutation::Conflict { current: Json::Unsigned(3) })).ok().unwrap();
    assert_eq!(conflict.status, 409);
    assert!(objective_deleted_reply(Err("broken".to_string())).is_err());
}

#[test]
fn changes_without_a_reason_are_recorded_with_the_usual_one() {
    assert_eq!(
        ReasonedAct::PauseObjective.reason(&None).as_str(),
        "the user explicitly paused the Objective through the Dashboard"
    );
    assert_eq!(
        ReasonedAct::RevokeGrant.reason(&Some(" \t".to_string())).as_str(),
        "revoked explicitly by the current Principal"
    );
    assert_eq!(ReasonedAct::ControlThread.reason(&Some(" stop ".to_string())).as_str(), "stop");
}

fn did(task: EvaluationTask) -> EvaluationTask {
    next_evaluation_task(task, EvaluationInput::Did(Ok(())))
}

#[test]
fn an_evaluation_runs_once_and_is_answered() {
    let task = next_evaluation_task(EvaluationTask::Admit, EvaluationInput::Admitted(Ok(())));
    assert!(matches!(task, EvaluationTask::EnsureSession));
    let task = did(task);
    assert!(matches!(task, EvaluationTask::Begin));
    let task = next_evaluation_task(task, EvaluationInput::Begun(Ok(None)));
    assert!(matches!(task, EvaluationTask::Register));
    let task = did(did(task));
    assert!(matches!(task, EvaluationTask::Run));
    let task = did(task);
    assert!(matches!(task, EvaluationTask::Finish(None)));
    let task = did(task);
    assert!(matches!(task, EvaluationTask::StoreSuccess));
    let task = next_evaluation_task(task, EvaluationInput::Stored(Ok(None)));
    assert!(matches!(task, EvaluationTask::AnswerDraft));

    let before = stored(WorkAssignmentStatus::Succeeded, true);
    let task = next_evaluation_task(EvaluationTask::Begin, EvaluationInput::Begun(Ok(Some(before))));
    assert!(matches!(task, EvaluationTask::ReadStored));
    assert!(matches!(did(task), EvaluationTask::AnswerStored));
    assert!(matches!(
        next_evaluation_task(
            EvaluationTask::ReadStored,
            EvaluationInput::Did(Err("not a draft".to_string()))
        ),
        EvaluationTask::Refuse(reply) if reply.status == 500
    ));
}

#[test]
fn a_failed_evaluation_is_stored_before_its_session_is_cancelled() {
    let task = next_evaluation_task(
        EvaluationTask::Run,
        EvaluationInput::Did(Err("timed out".to_string())),
    );
    let task = did(task);
    assert!(matches!(&task, EvaluationTask::StoreFailure(detail) if detail == "timed out"));
    let task = next_evaluation_task(task, EvaluationInput::Stored(Ok(None)));
    assert!(matches!(&task, EvaluationTask::CancelSession(_)));
    match next_evaluation_task(task, EvaluationInput::Did(Err("busy".to_string()))) {
        EvaluationTask::Refuse(refusal) => {
            assert_eq!(refusal.status, 502);
            assert_eq!(refusal.message.text(), "timed out");
        }
        _ => panic!("the coordinator is told why"),
    }
    let lost = EvaluationTask::StoreFailure("timed out".to_string());
    match next_evaluation_task(lost, EvaluationInput::Stored(Err("disk".to_string()))) {
        EvaluationTask::Refuse(refusal) => assert_eq!(refusal.status, 500),
        _ => panic!("what is not stored is not cleared up"),
    }
    match next_evaluation_task(
        EvaluationTask::Permit,
        EvaluationInput::Did(Err("not enabled".to_string())),
    ) {
        EvaluationTask::Refuse(refusal) => {
            assert_eq!(refusal.status, 503);
            assert_eq!(refusal.message.text(), "not enabled");
        }
        _ => panic!("nothing runs without a permit"),
    }
}

#[test]
fn uploads_may_be_cut_into_chunks_anywhere() {
    for cut in 0..4 {
        let (first, second) = b"abc".split_at(cut);
        let mut upload = running(3, ABC, channel(Some(3), Some(ABC)), 0);
        assert!(upload.on_chunk(first).is_ok());
        assert!(upload.on_chunk(second).is_ok());
        assert!(matches!(
            upload.finish(),
            UploadEnd::Commit { digest, size_bytes: 3 } if digest == ABC
        ));
    }
}
