use crate::digest;
use crate::digest::sha256_of;
use crate::endpoint::CoordinationRoute;
use crate::error;
use crate::error::{error_response, ErrorReply, Message};
use crate::event::Timestamp;
use crate::headers;
use crate::ident::Title;
use crate::inference;
use crate::inference::{holds_level, ModelOption};
use crate::json;
use crate::json::{project, Field, Shown};
use crate::model::{NewSession, SessionMountKind};
use crate::reply;
use crate::reply::internal_response;
use crate::session_io;
use crate::session_io::encode_base64_url;
use crate::text;
use crate::text::{join, same, text_set};
use vstd::hash_set::StringHashSet;
use vstd::prelude::*;

verus! {

/// The local member of a coordination mesh.
pub struct Participant {
    pub authority_id: String,
    pub agent_id: String,
    pub context_id: String,
}

/// The model that an evaluation asks for; what is absent is left to the participant.
pub struct EvaluationModelRequest {
    pub route: Option<String>,
    pub reasoning_effort: Option<String>,
}

/// A model route that a participant advertises.
pub struct ModelExecutionProfile {
    pub route: String,
    pub supported_reasoning_efforts: Option<Vec<String>>,
}

/// Whether a profile can serve the route of a request.
pub open spec fn serves_route(profile: ModelExecutionProfile, request: EvaluationModelRequest) -> bool {
    request.route matches Some(route) ==> profile.route@ == route@
}

/// Whether a profile declares a reasoning level.
pub open spec fn declares_level(profile: ModelExecutionProfile, level: Seq<char>) -> bool {
    profile.supported_reasoning_efforts matches Some(levels) && inference::lists_level(
        levels@,
        level,
    )
}

pub open spec fn some_profile_serves(
    profiles: Seq<ModelExecutionProfile>,
    request: EvaluationModelRequest,
) -> bool {
    exists|i: int| 0 <= i < profiles.len() && serves_route(#[trigger] profiles[i], request)
}

pub open spec fn some_profile_declares(
    profiles: Seq<ModelExecutionProfile>,
    request: EvaluationModelRequest,
    level: Seq<char>,
) -> bool {
    exists|i: int|
        0 <= i < profiles.len() && serves_route(#[trigger] profiles[i], request) && declares_level(
            profiles[i],
            level,
        )
}

/// Why a requested model is refused, in words.
pub open spec fn model_request_fault(
    request: EvaluationModelRequest,
    profiles: Seq<ModelExecutionProfile>,
) -> Option<Seq<char>> {
    if request.route is None && request.reasoning_effort is None {
        None
    } else if !some_profile_serves(profiles, request) {
        Some("requested model route is not advertised by this participant"@)
    } else {
        match request.reasoning_effort {
            Some(level) => if some_profile_declares(profiles, request, level@) {
                None
            } else {
                Some(
                    "reasoning effort '"@ + level@
                        + "' is not advertised by the requested model route"@,
                )
            },
            None => None,
        }
    }
}

fn profile_serves(profile: &ModelExecutionProfile, request: &EvaluationModelRequest) -> (r: bool)
    ensures
        r == serves_route(*profile, *request),
{
    match &request.route {
        Some(route) => same(profile.route.as_str(), route.as_str()),
        None => true,
    }
}

fn profile_declares(profile: &ModelExecutionProfile, level: &str) -> (r: bool)
    ensures
        r == declares_level(*profile, level@),
{
    match &profile.supported_reasoning_efforts {
        Some(levels) => holds_level(levels, level),
        None => false,
    }
}

/// Checks that a participant advertises the model that an evaluation asks for.
pub fn validate_remote_model_request(
    request: &EvaluationModelRequest,
    profiles: &Vec<ModelExecutionProfile>,
) -> (r: Result<(), String>)
    ensures
        match model_request_fault(*request, profiles@) {
            None => r is Ok,
            Some(reason) => r matches Err(message) && message@ == reason,
        },
{
    if request.route.is_none() && request.reasoning_effort.is_none() {
        return Ok(());
    }
    let mut eligible: bool = false;
    let mut declared: bool = false;
    let mut i: usize = 0;
    while i < profiles.len()
        invariant
            0 <= i <= profiles.len(),
            eligible ==> some_profile_serves(profiles@, *request),
            !eligible ==> forall|j: int|
                0 <= j < i ==> !serves_route(#[trigger] profiles@[j], *request),
            declared ==> (request.reasoning_effort matches Some(level) && some_profile_declares(
                profiles@,
                *request,
                level@,
            )),
            !declared ==> (request.reasoning_effort matches Some(level) ==> forall|j: int|
                0 <= j < i ==> !(serves_route(#[trigger] profiles@[j], *request) && declares_level(
                    profiles@[j],
                    level@,
                ))),
        decreases profiles.len() - i,
    {
        if profile_serves(&profiles[i], request) {
            proof {
                assert(serves_route(profiles@[i as int], *request));
            }
            eligible = true;
            match &request.reasoning_effort {
                Some(level) => {
                    if profile_declares(&profiles[i], level.as_str()) {
                        declared = true;
                    }
                },
                None => {},
            }
        }
        i = i + 1;
    }
    if !eligible {
        return Err("requested model route is not advertised by this participant".to_owned());
    }
    match &request.reasoning_effort {
        Some(level) => if declared {
            Ok(())
        } else {
            Err(
                join(
                    join("reasoning effort '", level.as_str()).as_str(),
                    "' is not advertised by the requested model route",
                ),
            )
        },
        None => Ok(()),
    }
}

/// The session in which a request is carried out at an authority. It belongs to the request and is
/// no session that anyone talks in.
pub open spec fn evaluation_session(request_id: Seq<char>, authority_id: Seq<char>) -> Seq<char> {
    "coord-eval-"@ + session_io::base64_url(
        digest::sha256(
            vstd::utf8::encode_utf8(request_id + seq!['\0'] + authority_id),
        ).subrange(0, 18),
    )
}

/// The name of the session for the digest of a request.
pub fn evaluation_session_name(digest: &Vec<u8>) -> (r: String)
    requires
        digest@.len() >= 18,
    ensures
        r@ == "coord-eval-"@ + session_io::base64_url(digest@.subrange(0, 18)),
        text::byte_len(r@) == 35,
{
    let mut head: Vec<u8> = Vec::new();
    let mut i: usize = 0;
    while i < 18
        invariant
            0 <= i <= 18,
            digest@.len() >= 18,
            head@ =~= digest@.subrange(0, i as int),
        decreases 18 - i,
    {
        head.push(digest[i]);
        i = i + 1;
    }
    let encoded = encode_base64_url(head.as_slice());
    proof {
        reveal_strlit("coord-eval-");
        vstd::utf8::is_ascii_chars_encode_utf8("coord-eval-"@);
        text::lemma_byte_len_concat("coord-eval-"@, encoded@);
    }
    join("coord-eval-", encoded.as_str())
}

pub fn coordination_evaluation_session_id(request_id: &str, authority_id: &str) -> (r: String)
    ensures
        r@ == evaluation_session(request_id@, authority_id@),
        text::starts_with(r@, "coord-eval-"@),
        text::byte_len(r@) == 35,
{
    let mut scoped = request_id.to_owned();
    scoped.push('\0');
    scoped.append(authority_id);
    proof {
        assert(scoped@ =~= request_id@ + seq!['\0'] + authority_id@);
    }
    let name = evaluation_session_name(&sha256_of(scoped.as_str().as_bytes()));
    proof {
        assert(name@.subrange(0, "coord-eval-"@.len() as int) =~= "coord-eval-"@);
    }
    name
}

/// The session that is made for a request, in the participant's own context.
pub fn evaluation_session_record(
    participant: &Participant,
    session_id: String,
    request_id: &str,
) -> (r: NewSession)
    ensures
        r.id == session_id,
        r.agent_id == participant.agent_id,
        r.context_id == participant.context_id,
        r.parent_session_id is None,
        r.title@ == "Coordination "@ + request_id@,
        r.mount_kind == SessionMountKind::ExistingContext,
{
    NewSession {
        id: session_id,
        agent_id: participant.agent_id.clone(),
        context_id: participant.context_id.clone(),
        parent_session_id: None,
        title: Title::Owned(join("Coordination ", request_id)),
        mount_kind: SessionMountKind::ExistingContext,
    }
}

/// Who an evaluation is addressed to, and the view of the context that it works on.
pub struct EvaluationAssignment {
    pub assignment_id: String,
    pub request_id: String,
    pub authority_id: String,
    pub agent_id: String,
    pub context_id: String,
    pub session_id: String,
    pub projection_context_id: String,
    pub projection_session_id: String,
}

pub open spec fn is_addressed_to(assignment: EvaluationAssignment, participant: Participant) -> bool {
    &&& assignment.authority_id@ == participant.authority_id@
    &&& assignment.agent_id@ == participant.agent_id@
    &&& assignment.context_id@ == participant.context_id@
}

/// An evaluation must be addressed to the identity that the participant advertises.
pub fn check_assignment_identity(
    assignment: &EvaluationAssignment,
    participant: &Participant,
) -> (r: Result<(), ErrorReply>)
    ensures
        r == if is_addressed_to(*assignment, *participant) {
            Ok::<(), ErrorReply>(())
        } else {
            Err(
                error::error_reply(
                    409,
                    Message::Fixed(
                        "Evaluation Assignment does not match this participant's advertised identity",
                    ),
                ),
            )
        },
{
    if same(assignment.authority_id.as_str(), participant.authority_id.as_str()) && same(
        assignment.agent_id.as_str(),
        participant.agent_id.as_str(),
    ) && same(assignment.context_id.as_str(), participant.context_id.as_str()) {
        Ok(())
    } else {
        Err(
            error_response(
                409,
                Message::Fixed(
                    "Evaluation Assignment does not match this participant's advertised identity",
                ),
            ),
        )
    }
}

pub open spec fn is_request_scoped(
    assignment: EvaluationAssignment,
    participant: Participant,
    session_id: Seq<char>,
) -> bool {
    &&& assignment.session_id@ == session_id
    &&& assignment.projection_session_id@ == session_id
    &&& assignment.projection_context_id@ == participant.context_id@
}

/// An evaluation must run in the session of its own request.
pub fn check_assignment_session(
    assignment: &EvaluationAssignment,
    participant: &Participant,
    session_id: &str,
) -> (r: Result<(), ErrorReply>)
    ensures
        r == if is_request_scoped(*assignment, *participant, session_id@) {
            Ok::<(), ErrorReply>(())
        } else {
            Err(
                error::error_reply(
                    409,
                    Message::Fixed(
                        "Evaluation Assignment does not match its request-scoped execution Session",
                    ),
                ),
            )
        },
{
    if same(assignment.session_id.as_str(), session_id) && same(
        assignment.projection_session_id.as_str(),
        session_id,
    ) && same(assignment.projection_context_id.as_str(), participant.context_id.as_str()) {
        Ok(())
    } else {
        Err(
            error_response(
                409,
                Message::Fixed(
                    "Evaluation Assignment does not match its request-scoped execution Session",
                ),
            ),
        )
    }
}

/// An evaluation that passed every check, with the session in which it runs.
pub struct AdmittedEvaluation {
    pub session: NewSession,
}

/// What is refused about an evaluation before anything is stored.
pub open spec fn evaluation_fault(
    assignment: EvaluationAssignment,
    participant: Participant,
    model: EvaluationModelRequest,
    profiles: Seq<ModelExecutionProfile>,
) -> Option<(u16, Seq<char>)> {
    if !is_addressed_to(assignment, participant) {
        Some(
            (
                409,
                "Evaluation Assignment does not match this participant's advertised identity"@,
            ),
        )
    } else if model_request_fault(model, profiles) is Some {
        Some((400, model_request_fault(model, profiles)->0))
    } else if !is_request_scoped(
        assignment,
        participant,
        evaluation_session(assignment.request_id@, participant.authority_id@),
    ) {
        Some(
            (
                409,
                "Evaluation Assignment does not match its request-scoped execution Session"@,
            ),
        )
    } else {
        None
    }
}

/// Admits an evaluation: it is addressed to this participant, asks for a model that is advertised,
/// and runs in the session of its own request.
pub fn admit_evaluation(
    assignment: &EvaluationAssignment,
    participant: &Participant,
    model: &EvaluationModelRequest,
    profiles: &Vec<ModelExecutionProfile>,
) -> (r: Result<AdmittedEvaluation, ErrorReply>)
    ensures
        match evaluation_fault(*assignment, *participant, *model, profiles@) {
            Some(fault) => r matches Err(refusal) && refusal.status == fault.0 && refusal.code
                == error::code_for_status(fault.0) && refusal.message@ == fault.1,
            None => r matches Ok(admitted) && admitted.session.id@ == evaluation_session(
                assignment.request_id@,
                participant.authority_id@,
            ) && admitted.session.agent_id == participant.agent_id && admitted.session.context_id
                == participant.context_id && admitted.session.parent_session_id is None
                && admitted.session.title@ == "Coordination "@ + assignment.request_id@
                && admitted.session.mount_kind == SessionMountKind::ExistingContext,
        },
{
    match check_assignment_identity(assignment, participant) {
        Err(refusal) => {
            return Err(refusal);
        },
        Ok(()) => {},
    }
    match validate_remote_model_request(model, profiles) {
        Err(reason) => {
            return Err(error_response(400, Message::Owned(reason)));
        },
        Ok(()) => {},
    }
    let session_id = coordination_evaluation_session_id(
        assignment.request_id.as_str(),
        participant.authority_id.as_str(),
    );
    match check_assignment_session(assignment, participant, session_id.as_str()) {
        Err(refusal) => {
            return Err(refusal);
        },
        Ok(()) => {},
    }
    Ok(
        AdmittedEvaluation {
            session: evaluation_session_record(
                participant,
                session_id,
                assignment.request_id.as_str(),
            ),
        },
    )
}

/// How far a stored assignment has come.
#[derive(PartialEq, Eq, Structural, Clone, Copy, Debug)]
pub enum WorkAssignmentStatus {
    Open,
    Succeeded,
    Failed,
    Cancelled,
}

/// A stored assignment, as far as an evaluation reads it.
pub struct AssignmentRecord {
    pub external_id: String,
    pub status: WorkAssignmentStatus,
    pub status_text: String,
    pub session_id: String,
    pub has_output: bool,
}

/// What a stored assignment means for an evaluation that wants to start.
pub enum EvaluationStart {
    /// It runs now.
    Execute,
    /// It ran before: its stored outcome is answered again.
    Replay,
    Refuse(ErrorReply),
}

/// What it means that an assignment is stored. The record in `begun` is the one that was there
/// before. An assignment runs at most once: one that succeeded answers its outcome again, any other
/// one is refused.
pub open spec fn evaluation_start(begun: Result<Option<AssignmentRecord>, String>) -> EvaluationStart {
    match begun {
        Err(_) => EvaluationStart::Refuse(reply::internal_reply()),
        Ok(None) => EvaluationStart::Execute,
        Ok(Some(existing)) => if existing.status == WorkAssignmentStatus::Succeeded
            && existing.has_output {
            EvaluationStart::Replay
        } else {
            EvaluationStart::Refuse(
                error::error_reply(
                    409,
                    Message::Pair {
                        before: "Evaluation Assignment '",
                        first: existing.external_id,
                        between: "' already has status '",
                        second: existing.status_text,
                        after: "' and cannot execute twice",
                    },
                ),
            )
        },
    }
}

pub fn start_evaluation(begun: Result<Option<AssignmentRecord>, String>) -> (r: EvaluationStart)
    ensures
        r == evaluation_start(begun),
{
    match begun {
        Err(_) => EvaluationStart::Refuse(internal_response()),
        Ok(None) => EvaluationStart::Execute,
        Ok(Some(existing)) => if existing.status == WorkAssignmentStatus::Succeeded
            && existing.has_output {
            EvaluationStart::Replay
        } else {
            EvaluationStart::Refuse(
                error_response(
                    409,
                    Message::Pair {
                        before: "Evaluation Assignment '",
                        first: existing.external_id,
                        between: "' already has status '",
                        second: existing.status_text,
                        after: "' and cannot execute twice",
                    },
                ),
            )
        },
    }
}

/// What storing the success of an evaluation means: where the assignment came to another end
/// meanwhile, its outcome is not answered.
pub fn on_success_stored(stored: Result<Option<AssignmentRecord>, String>) -> (r: Result<
    (),
    ErrorReply,
>)
    ensures
        r == match stored {
            Err(_) => Err::<(), ErrorReply>(reply::internal_reply()),
            Ok(Some(record)) => if record.status != WorkAssignmentStatus::Succeeded {
                Err(
                    error::error_reply(
                        409,
                        Message::Pair {
                            before: "Evaluation Assignment '",
                            first: record.external_id,
                            between: "' completed locally after its durable status became '",
                            second: record.status_text,
                            after: "'",
                        },
                    ),
                )
            } else {
                Ok(())
            },
            Ok(None) => Ok(()),
        },
{
    match stored {
        Err(_) => Err(internal_response()),
        Ok(Some(record)) => if record.status != WorkAssignmentStatus::Succeeded {
            Err(
                error_response(
                    409,
                    Message::Pair {
                        before: "Evaluation Assignment '",
                        first: record.external_id,
                        between: "' completed locally after its durable status became '",
                        second: record.status_text,
                        after: "'",
                    },
                ),
            )
        } else {
            Ok(())
        },
        Ok(None) => Ok(()),
    }
}

/// The answer to an evaluation that failed, and whether its session is cancelled: only once the
/// failure is stored.
pub fn on_failure_stored(detail: String, stored: bool) -> (r: (ErrorReply, bool))
    ensures
        r == if stored {
            (error::error_reply(502, Message::Owned(detail)), true)
        } else {
            (reply::internal_reply(), false)
        },
{
    if stored {
        (error_response(502, Message::Owned(detail)), true)
    } else {
        (internal_response(), false)
    }
}

/// What cancelling an evaluation does: the session that is cancelled, where there is one, and what
/// the coordinator is told.
pub struct CancelPlan {
    pub cancel_session: Option<String>,
    pub cancelled: bool,
}

/// What cancelling an evaluation does. `transitioned` is the state of the assignment after the
/// attempt, `active_session` the session in which it runs right now, and `record` the assignment
/// as it was before.
pub open spec fn cancel_plan(
    transitioned: Option<WorkAssignmentStatus>,
    active_session: Option<String>,
    record: Option<AssignmentRecord>,
) -> CancelPlan {
    if transitioned == Some(WorkAssignmentStatus::Cancelled) {
        CancelPlan {
            cancel_session: match active_session {
                Some(session_id) => Some(session_id),
                None => match record {
                    Some(found) if found.status == WorkAssignmentStatus::Open => Some(
                        found.session_id,
                    ),
                    _ => None,
                },
            },
            cancelled: true,
        }
    } else {
        CancelPlan { cancel_session: None, cancelled: false }
    }
}

pub fn plan_cancellation(
    transitioned: Option<WorkAssignmentStatus>,
    active_session: Option<String>,
    record: Option<AssignmentRecord>,
) -> (r: CancelPlan)
    ensures
        r == cancel_plan(transitioned, active_session, record),
{
    let won: bool = match transitioned {
        Some(status) => status == WorkAssignmentStatus::Cancelled,
        None => false,
    };
    if !won {
        return CancelPlan { cancel_session: None, cancelled: false };
    }
    let cancel_session: Option<String> = match active_session {
        Some(session_id) => Some(session_id),
        None => match record {
            Some(found) => if found.status == WorkAssignmentStatus::Open {
                Some(found.session_id)
            } else {
                None
            },
            None => None,
        },
    };
    CancelPlan { cancel_session, cancelled: true }
}

/// A request must be meant for this authority.
fn check_target_authority(
    target: &str,
    local: Option<&str>,
    mismatch: &'static str,
) -> (r: Result<(), ErrorReply>)
    ensures
        r == if headers::opt_view(local) == Some(target@) {
            Ok::<(), ErrorReply>(())
        } else {
            Err(error::error_reply(409, Message::Fixed(mismatch)))
        },
{
    let meant: bool = match local {
        Some(authority) => same(authority, target),
        None => false,
    };
    if meant {
        Ok(())
    } else {
        Err(error_response(409, Message::Fixed(mismatch)))
    }
}

/// A projection is asked of the authority that it names.
pub fn check_projection_target(target: &str, local: &str) -> (r: Result<(), ErrorReply>)
    ensures
        r == if local@ == target@ {
            Ok::<(), ErrorReply>(())
        } else {
            Err(error::error_reply(409, Message::Fixed("projection target Authority mismatch")))
        },
{
    check_target_authority(target, Some(local), "projection target Authority mismatch")
}

/// A cancellation is asked of the authority that it names; a runtime without one is never meant.
pub fn check_cancellation_target(target: &str, local: Option<&str>) -> (r: Result<(), ErrorReply>)
    ensures
        r == if headers::opt_view(local) == Some(target@) {
            Ok::<(), ErrorReply>(())
        } else {
            Err(error::error_reply(409, Message::Fixed("cancellation target Authority mismatch")))
        },
{
    check_target_authority(target, local, "cancellation target Authority mismatch")
}

pub open spec fn handshake_fits(
    expected_authority: Seq<char>,
    local_authority: Seq<char>,
    mesh_enabled: bool,
    version: Seq<char>,
    local_version: Seq<char>,
) -> bool {
    &&& expected_authority == local_authority || (mesh_enabled && expected_authority.len() == 0)
    &&& version == local_version
}

/// A handshake must be meant for this authority, or within a mesh for any, and speak this version
/// of the protocol.
pub fn check_handshake(
    expected_authority: &str,
    local_authority: &str,
    mesh_enabled: bool,
    version: &str,
    local_version: &str,
) -> (r: Result<(), ErrorReply>)
    ensures
        r == if handshake_fits(
            expected_authority@,
            local_authority@,
            mesh_enabled,
            version@,
            local_version@,
        ) {
            Ok::<(), ErrorReply>(())
        } else {
            Err(
                error::error_reply(
                    409,
                    Message::Fixed(
                        "Cognitive Coordination target Authority or protocol version mismatch",
                    ),
                ),
            )
        },
{
    if (same(expected_authority, local_authority) || (mesh_enabled
        && expected_authority.is_empty())) && same(version, local_version) {
        Ok(())
    } else {
        Err(
            error_response(
                409,
                Message::Fixed(
                    "Cognitive Coordination target Authority or protocol version mismatch",
                ),
            ),
        )
    }
}

/// Whether the runtime runs as the participant that is configured.
pub fn check_participant_identity(
    runtime_agent: &str,
    runtime_context: &str,
    participant: &Participant,
) -> (r: Result<(), &'static str>)
    ensures
        r == if runtime_agent@ == participant.agent_id@ && runtime_context@
            == participant.context_id@ {
            Ok::<(), &'static str>(())
        } else {
            Err("configured participant Agent/Context identity is inconsistent")
        },
{
    if same(runtime_agent, participant.agent_id.as_str()) && same(
        runtime_context,
        participant.context_id.as_str(),
    ) {
        Ok(())
    } else {
        Err("configured participant Agent/Context identity is inconsistent")
    }
}

/// Whether a model route is advertised: it is allowed, or the default one.
pub open spec fn is_advertised(
    option: ModelOption,
    allowed: Set<Seq<char>>,
    default_model: Seq<char>,
) -> bool {
    allowed.contains(option.id@) || option.id@ == default_model
}

/// The positions of the model routes that a participant advertises, in order.
pub fn advertised_models(
    options: &Vec<ModelOption>,
    allowed: &StringHashSet,
    default_model: &str,
) -> (r: Vec<usize>)
    ensures
        forall|k: int|
            0 <= k < r.len() ==> (#[trigger] r[k]) < options.len() && is_advertised(
                options[r[k] as int],
                allowed@,
                default_model@,
            ),
        forall|i: int|
            0 <= i < options.len() && is_advertised(#[trigger] options[i], allowed@, default_model@)
                ==> r@.contains(i as usize),
        forall|a: int, b: int| 0 <= a < b < r.len() ==> r[a] < r[b],
{
    let mut kept: Vec<usize> = Vec::new();
    let mut i: usize = 0;
    while i < options.len()
        invariant
            0 <= i <= options.len(),
            forall|k: int|
                0 <= k < kept.len() ==> (#[trigger] kept[k]) < i && is_advertised(
                    options[kept[k] as int],
                    allowed@,
                    default_model@,
                ),
            forall|j: int|
                0 <= j < i && is_advertised(#[trigger] options[j], allowed@, default_model@)
                    ==> kept@.contains(j as usize),
            forall|a: int, b: int| 0 <= a < b < kept.len() ==> kept[a] < kept[b],
        decreases options.len() - i,
    {
        let ghost before = kept@;
        if allowed.contains(options[i].id.as_str()) || same(options[i].id.as_str(), default_model) {
            kept.push(i);
            proof {
                assert(kept@[kept@.len() - 1] == i);
                assert forall|j: int|
                    0 <= j < i + 1 && is_advertised(
                        #[trigger] options[j],
                        allowed@,
                        default_model@,
                    ) implies kept@.contains(j as usize) by {
                    if j < i {
                        let k = choose|k: int| 0 <= k < before.len() && before[k] == j as usize;
                        assert(kept@[k] == j as usize);
                    }
                }
            }
        }
        i = i + 1;
    }
    kept
}

/// When an advertisement ends, `None` where its lifetime is no number of seconds.
pub fn advertisement_expiry(issued_at: Timestamp, ttl_seconds: u64) -> (r: Option<Timestamp>)
    requires
        ttl_seconds <= i64::MAX ==> issued_at.seconds + ttl_seconds <= i64::MAX,
    ensures
        r == if ttl_seconds <= i64::MAX {
            Some(
                Timestamp {
                    seconds: (issued_at.seconds + ttl_seconds) as i64,
                    nanos: issued_at.nanos,
                },
            )
        } else {
            None
        },
{
    if ttl_seconds <= 9223372036854775807 {
        Some(
            Timestamp {
                seconds: issued_at.seconds + ttl_seconds as i64,
                nanos: issued_at.nanos,
            },
        )
    } else {
        None
    }
}

/// The recent assignments that are not shown yet, in order and each once.
pub open spec fn newly_shown(active: Set<Seq<char>>, recent: Seq<String>) -> Seq<int>
    decreases recent.len(),
{
    if recent.len() == 0 {
        Seq::empty()
    } else {
        let before = newly_shown(active, recent.drop_last());
        if active.contains(recent.last()@) || text::texts_of(recent.drop_last()).contains(recent.last()@) {
            before
        } else {
            before.push(recent.len() - 1)
        }
    }
}

/// The positions of the recent assignments that are shown besides the active ones.
pub fn merge_assignments(active: &Vec<String>, recent: &Vec<String>) -> (r: Vec<usize>)
    ensures
        r@.map_values(|i: usize| i as int) == newly_shown(text::texts_of(active@), recent@),
{
    let mut shown = text_set(active);
    proof {
        assert(recent@.subrange(0, 0) =~= Seq::<String>::empty());
    }
    let ghost first = text::texts_of(active@);
    let mut kept: Vec<usize> = Vec::new();
    let mut k: usize = 0;
    proof {
        assert(shown@ =~= first.union(text::texts_of(recent@.subrange(0, 0))));
        assert(kept@.map_values(|i: usize| i as int) =~= newly_shown(
            first,
            recent@.subrange(0, 0),
        ));
    }
    while k < recent.len()
        invariant
            0 <= k <= recent.len(),
            first == text::texts_of(active@),
            shown@ == first.union(text::texts_of(recent@.subrange(0, k as int))),
            kept@.map_values(|i: usize| i as int) == newly_shown(
                first,
                recent@.subrange(0, k as int),
            ),
        decreases recent.len() - k,
    {
        proof {
            assert(recent@.subrange(0, k + 1).drop_last() =~= recent@.subrange(0, k as int));
            assert(recent@.subrange(0, k + 1).last() == recent@[k as int]);
        }
        let ghost before = kept@.map_values(|i: usize| i as int);
        let ghost shown_before = shown@;
        if shown.insert(recent[k].clone()) {
            kept.push(k);
            proof {
                assert(kept@.map_values(|i: usize| i as int) =~= before.push(k as int));
            }
        }
        proof {
            assert(shown@ =~= first.union(text::texts_of(recent@.subrange(0, k + 1))));
        }
        k = k + 1;
    }
    proof {
        assert(recent@.subrange(0, recent@.len() as int) =~= recent@);
    }
    kept
}

/// What the status of an assignment shows.
pub open spec fn summary_members() -> Seq<&'static str> {
    seq![
        "id",
        "kind",
        "external_id",
        "context_id",
        "session_id",
        "role",
        "request_id",
        "objective_id",
        "counterparty_id",
        "summary",
        "status",
        "status_reason",
        "lease_expires_at",
        "updated_at",
    ]
}

/// An assignment as the control surface shows it: how far it is and where it belongs, without what
/// was sent and received for it.
pub fn assignment_summary<'a>(assignment: &'a Vec<Field>) -> (r: Vec<Shown<'a>>)
    ensures
        json::is_projection(r@, assignment@, summary_members()),
{
    let names: Vec<&'static str> = vec![
        "id",
        "kind",
        "external_id",
        "context_id",
        "session_id",
        "role",
        "request_id",
        "objective_id",
        "counterparty_id",
        "summary",
        "status",
        "status_reason",
        "lease_expires_at",
        "updated_at",
    ];
    assert(names@ =~= summary_members());
    project(assignment, &names)
}

/// A recent assignment that is shown besides the active ones is none of them.
proof fn lemma_shown_are_new(active: Set<Seq<char>>, recent: Seq<String>, i: int)
    requires
        0 <= i < newly_shown(active, recent).len(),
    ensures
        0 <= newly_shown(active, recent)[i] < recent.len(),
        !active.contains(recent[newly_shown(active, recent)[i]]@),
    decreases recent.len(),
{
    let shown = newly_shown(active, recent.drop_last());
    if i < shown.len() {
        lemma_shown_are_new(active, recent.drop_last(), i);
    }
}

proof fn lemma_shown_are_distinct(active: Set<Seq<char>>, recent: Seq<String>, i: int, j: int)
    requires
        0 <= i < j < newly_shown(active, recent).len(),
    ensures
        recent[newly_shown(active, recent)[i]]@ != recent[newly_shown(active, recent)[j]]@,
    decreases recent.len(),
{
    let before = recent.drop_last();
    let shown = newly_shown(active, before);
    lemma_shown_are_new(active, before, i);
    if j < shown.len() {
        lemma_shown_are_new(active, before, j);
        lemma_shown_are_distinct(active, before, i, j);
    } else {
        lemma_texts_of(before, before[shown[i]]@);
        assert(before[shown[i]]@ == recent[shown[i]]@);
    }
}

/// Where a recent assignment is shown, unless it is an active one.
proof fn lemma_recent_are_shown(active: Set<Seq<char>>, recent: Seq<String>, k: int) -> (i: int)
    requires
        0 <= k < recent.len(),
        !active.contains(recent[k]@),
    ensures
        0 <= i < newly_shown(active, recent).len(),
        recent[newly_shown(active, recent)[i]]@ == recent[k]@,
    decreases recent.len(),
{
    let before = recent.drop_last();
    let shown = newly_shown(active, before);
    if k < before.len() {
        let i = lemma_recent_are_shown(active, before, k);
        lemma_shown_are_new(active, before, i);
        i
    } else if text::texts_of(before).contains(recent.last()@) {
        lemma_texts_of(before, recent.last()@);
        let p = choose|p: int| 0 <= p < before.len() && (#[trigger] before[p])@ == recent.last()@;
        let i = lemma_recent_are_shown(active, before, p);
        lemma_shown_are_new(active, before, i);
        i
    } else {
        shown.len() as int
    }
}

/// An assignment is shown once: a recent one that is shown besides the active ones is none of
/// them, and no two have the same identifier. Every recent one is shown.
pub proof fn law_assignments_are_shown_once(active: Set<Seq<char>>, recent: Seq<String>)
    ensures
        forall|i: int|
            #![trigger newly_shown(active, recent)[i]]
            0 <= i < newly_shown(active, recent).len() ==> {
                &&& 0 <= newly_shown(active, recent)[i] < recent.len()
                &&& !active.contains(recent[newly_shown(active, recent)[i]]@)
            },
        forall|i: int, j: int|
            #![trigger newly_shown(active, recent)[i], newly_shown(active, recent)[j]]
            0 <= i < j < newly_shown(active, recent).len()
                ==> recent[newly_shown(active, recent)[i]]@ != recent[newly_shown(
                active,
                recent,
            )[j]]@,
        forall|k: int|
            0 <= k < recent.len() ==> active.contains((#[trigger] recent[k])@) || exists|i: int|
                0 <= i < newly_shown(active, recent).len() && recent[#[trigger] newly_shown(
                    active,
                    recent,
                )[i]]@ == recent[k]@,
{
    let all = newly_shown(active, recent);
    assert forall|i: int| #![trigger all[i]] 0 <= i < all.len() implies 0 <= all[i] < recent.len()
        && !active.contains(recent[all[i]]@) by {
        lemma_shown_are_new(active, recent, i);
    }
    assert forall|i: int, j: int| #![trigger all[i], all[j]] 0 <= i < j < all.len() implies
        recent[all[i]]@ != recent[all[j]]@ by {
        lemma_shown_are_distinct(active, recent, i, j);
    }
    assert forall|k: int| 0 <= k < recent.len() implies active.contains((#[trigger] recent[k])@)
        || exists|i: int| 0 <= i < all.len() && recent[#[trigger] all[i]]@ == recent[k]@ by {
        if !active.contains(recent[k]@) {
            let i = lemma_recent_are_shown(active, recent, k);
            assert(recent[all[i]]@ == recent[k]@);
        }
    }
}

proof fn lemma_texts_of(items: Seq<String>, text: Seq<char>)
    ensures
        text::texts_of(items).contains(text) == exists|p: int|
            0 <= p < items.len() && (#[trigger] items[p])@ == text,
    decreases items.len(),
{
    if items.len() > 0 {
        let before = items.drop_last();
        lemma_texts_of(before, text);
        if text::texts_of(before).contains(text) {
            let p = choose|p: int| 0 <= p < before.len() && (#[trigger] before[p])@ == text;
            assert(items[p]@ == text);
        }
        if items.last()@ == text {
            assert(items[items.len() - 1]@ == text);
        }
        if exists|p: int| 0 <= p < items.len() && (#[trigger] items[p])@ == text {
            let p = choose|p: int| 0 <= p < items.len() && (#[trigger] items[p])@ == text;
            if p < before.len() {
                assert(before[p]@ == text);
            }
        }
    }
}

/// What a coordination route says where the runtime takes no part in coordination.
pub open spec fn unconfigured_text(route: CoordinationRoute) -> &'static str {
    match route {
        CoordinationRoute::Status => "Cognitive Coordination has no configured local participant",
        CoordinationRoute::Identity => "Coordination Mesh is not configured",
        CoordinationRoute::Handshake => "Cognitive Coordination participant is not configured",
        CoordinationRoute::Projection | CoordinationRoute::Evaluate | CoordinationRoute::Cancel => {
            "participant is not configured"
        },
    }
}

/// Coordination is there where it is part of the build and the runtime has a participant.
pub fn check_coordination(route: CoordinationRoute, compiled: bool, configured: bool) -> (r: Result<
    (),
    ErrorReply,
>)
    ensures
        r == if !compiled {
            Err::<(), ErrorReply>(
                error::error_reply(
                    501,
                    Message::Fixed("Cognitive Coordination was not compiled into this Runtime"),
                ),
            )
        } else if !configured {
            Err(error::error_reply(503, Message::Fixed(unconfigured_text(route))))
        } else {
            Ok(())
        },
{
    if !compiled {
        return Err(
            error_response(
                501,
                Message::Fixed("Cognitive Coordination was not compiled into this Runtime"),
            ),
        );
    }
    if configured {
        return Ok(());
    }
    let text: &'static str = match route {
        CoordinationRoute::Status => "Cognitive Coordination has no configured local participant",
        CoordinationRoute::Identity => "Coordination Mesh is not configured",
        CoordinationRoute::Handshake => "Cognitive Coordination participant is not configured",
        CoordinationRoute::Projection | CoordinationRoute::Evaluate | CoordinationRoute::Cancel => {
            "participant is not configured"
        },
    };
    Err(error_response(503, Message::Fixed(text)))
}

/// An assignment that was stored before never runs again.
pub proof fn law_assignments_run_at_most_once(existing: AssignmentRecord)
    ensures
        !(evaluation_start(Ok(Some(existing))) is Execute),
{
}

/// A session is only cancelled where the cancellation of its assignment won.
pub proof fn law_lost_cancellation_leaves_the_session_alone(
    transitioned: Option<WorkAssignmentStatus>,
    active_session: Option<String>,
    record: Option<AssignmentRecord>,
)
    requires
        transitioned != Some(WorkAssignmentStatus::Cancelled),
    ensures
        cancel_plan(transitioned, active_session, record).cancel_session is None,
        !cancel_plan(transitioned, active_session, record).cancelled,
{
}

/// A request for a model is refused for cause only: one that asks for nothing is fine, and one that
/// asks for a route or a level is fine where one advertised profile has what it asks for.
pub proof fn law_model_requests_are_refused_for_cause_only(
    request: EvaluationModelRequest,
    profiles: Seq<ModelExecutionProfile>,
)
    ensures
        model_request_fault(request, profiles) is None <==> {
            ||| request.route is None && request.reasoning_effort is None
            ||| exists|i: int|
                {
                    &&& 0 <= i < profiles.len()
                    &&& request.route matches Some(route) ==> (#[trigger] profiles[i]).route@
                        == route@
                    &&& request.reasoning_effort matches Some(level) ==> (
                    profiles[i].supported_reasoning_efforts matches Some(levels) && exists|k: int|
                        0 <= k < levels@.len() && (#[trigger] levels@[k])@ == level@)
                }
        },
{
    if exists|i: int|
        {
            &&& 0 <= i < profiles.len()
            &&& request.route matches Some(route) ==> (#[trigger] profiles[i]).route@ == route@
            &&& request.reasoning_effort matches Some(level) ==> (
            profiles[i].supported_reasoning_efforts matches Some(levels) && exists|k: int|
                0 <= k < levels@.len() && (#[trigger] levels@[k])@ == level@)
        } {
        let i = choose|i: int|
            {
                &&& 0 <= i < profiles.len()
                &&& request.route matches Some(route) ==> (#[trigger] profiles[i]).route@ == route@
                &&& request.reasoning_effort matches Some(level) ==> (
                profiles[i].supported_reasoning_efforts matches Some(levels) && exists|k: int|
                    0 <= k < levels@.len() && (#[trigger] levels@[k])@ == level@)
            };
        assert(serves_route(profiles[i], request));
        if request.reasoning_effort is Some {
            assert(declares_level(profiles[i], request.reasoning_effort->0@));
        }
    }
    if model_request_fault(request, profiles) is None && (request.route is Some
        || request.reasoning_effort is Some) {
        if request.reasoning_effort is Some {
            let level = request.reasoning_effort->0@;
            let i = choose|i: int|
                0 <= i < profiles.len() && serves_route(#[trigger] profiles[i], request)
                    && declares_level(profiles[i], level);
            assert(serves_route(profiles[i], request) && declares_level(profiles[i], level));
        } else {
            let i = choose|i: int|
                0 <= i < profiles.len() && serves_route(#[trigger] profiles[i], request);
            assert(serves_route(profiles[i], request));
        }
    }
}

/// Which refusal a request for a model gets: an unknown route comes before an unknown level.
pub proof fn law_unknown_routes_are_told_before_unknown_levels(
    request: EvaluationModelRequest,
    profiles: Seq<ModelExecutionProfile>,
)
    ensures
        model_request_fault(request, profiles) matches Some(words) ==> {
            let unknown = request.route matches Some(route) && forall|i: int|
                0 <= i < profiles.len() ==> (#[trigger] profiles[i]).route@ != route@;
            &&& unknown || profiles.len() == 0 ==> words
                == "requested model route is not advertised by this participant"@
            &&& !unknown && profiles.len() > 0 ==> request.reasoning_effort is Some && words
                == "reasoning effort '"@ + request.reasoning_effort->0@
                + "' is not advertised by the requested model route"@
        },
{
    if request.route is Some {
        let route = request.route->0;
        if exists|i: int| 0 <= i < profiles.len() && (#[trigger] profiles[i]).route@ == route@ {
            let i = choose|i: int|
                0 <= i < profiles.len() && (#[trigger] profiles[i]).route@ == route@;
            assert(serves_route(profiles[i], request));
        }
        if some_profile_serves(profiles, request) {
            let i = choose|i: int|
                0 <= i < profiles.len() && serves_route(#[trigger] profiles[i], request);
            assert(profiles[i].route@ == route@);
        }
    } else if profiles.len() > 0 {
        assert(serves_route(profiles[0], request));
    }
}

proof fn lemma_utf8_of_joined_texts(a: Seq<char>, b: Seq<char>)
    ensures
        vstd::utf8::encode_utf8(a + b) == vstd::utf8::encode_utf8(a) + vstd::utf8::encode_utf8(b),
    decreases a.len(),
{
    if a.len() == 0 {
        assert(a + b =~= b);
    } else {
        assert((a + b).drop_first() =~= a.drop_first() + b);
        assert((a + b)[0] == a[0]);
        lemma_utf8_of_joined_texts(a.drop_first(), b);
    }
}

/// The session of an evaluation is named after the request and the authority that answers it: after
/// the digest of their bytes with a zero byte between them.
pub proof fn law_evaluation_sessions_are_named_after_request_and_authority(
    request_id: Seq<char>,
    authority_id: Seq<char>,
)
    ensures
        ({
            let bytes = vstd::utf8::encode_utf8(request_id) + seq![0u8] + vstd::utf8::encode_utf8(
                authority_id,
            );
            evaluation_session(request_id, authority_id) == "coord-eval-"@ + session_io::base64_url(
                digest::sha256(bytes).subrange(0, 18),
            )
        }),
{
    let nul = seq!['\0'];
    lemma_utf8_of_joined_texts(request_id + nul, authority_id);
    lemma_utf8_of_joined_texts(request_id, nul);
    vstd::utf8::is_ascii_chars_encode_utf8(nul);
    assert(vstd::utf8::encode_utf8(nul) =~= seq![0u8]);
}

/// An assignment is executed exactly where it is addressed to this participant in every part, asks for
/// a model that is advertised, and names the session that its request belongs to; it is told which of
/// these fails first.
pub proof fn law_assignments_are_refused_for_cause_only(
    assignment: EvaluationAssignment,
    participant: Participant,
    model: EvaluationModelRequest,
    profiles: Seq<ModelExecutionProfile>,
)
    ensures
        ({
            let fault = evaluation_fault(assignment, participant, model, profiles);
            let session = evaluation_session(assignment.request_id@, participant.authority_id@);
            let addressed = assignment.authority_id@ == participant.authority_id@
                && assignment.agent_id@ == participant.agent_id@ && assignment.context_id@
                == participant.context_id@;
            let scoped = assignment.session_id@ == session && assignment.projection_session_id@
                == session && assignment.projection_context_id@ == participant.context_id@;
            let offered = model_request_fault(model, profiles) is None;
            &&& fault is None <==> addressed && offered && scoped
            &&& !addressed ==> fault == Some(
                (
                    409u16,
                    "Evaluation Assignment does not match this participant's advertised identity"@,
                ),
            )
            &&& addressed && !offered ==> fault == Some(
                (400u16, model_request_fault(model, profiles)->0),
            )
            &&& addressed && offered && !scoped ==> fault == Some(
                (
                    409u16,
                    "Evaluation Assignment does not match its request-scoped execution Session"@,
                ),
            )
        }),
{
}

/// What becomes of an assignment that is begun: a new one is executed, one that succeeded with an
/// output is answered again, and every other one is a conflict.
pub proof fn law_begun_assignments_are_told_apart(
    begun: Result<Option<AssignmentRecord>, String>,
)
    ensures
        evaluation_start(begun) is Execute <==> begun matches Ok(None),
        evaluation_start(begun) is Replay <==> (begun matches Ok(Some(record)) && record.status
            == WorkAssignmentStatus::Succeeded && record.has_output),
        begun is Err ==> (evaluation_start(begun) matches EvaluationStart::Refuse(reply)
            && reply.status == 500),
        begun matches Ok(Some(record)) ==> (!(record.status == WorkAssignmentStatus::Succeeded
            && record.has_output) ==> (evaluation_start(begun) matches EvaluationStart::Refuse(
            reply,
        ) && reply.status == 409 && reply.message@ == "Evaluation Assignment '"@
            + record.external_id@ + "' already has status '"@ + record.status_text@
            + "' and cannot execute twice"@)),
{
}

/// A cancellation that took effect stops the session that runs the assignment, or the one that an
/// open assignment names; a closed assignment has none to stop.
pub proof fn law_cancellations_stop_the_running_session(
    active_session: Option<String>,
    record: Option<AssignmentRecord>,
)
    ensures
        ({
            let plan = cancel_plan(
                Some(WorkAssignmentStatus::Cancelled),
                active_session,
                record,
            );
            &&& plan.cancelled
            &&& active_session is Some ==> plan.cancel_session == active_session
            &&& active_session is None ==> (record matches Some(found) ==> (found.status
                == WorkAssignmentStatus::Open ==> plan.cancel_session == Some(found.session_id)))
            &&& active_session is None && !(record matches Some(found) && found.status
                == WorkAssignmentStatus::Open) ==> plan.cancel_session is None
        }),
{
}

/// Two participants shake hands where they speak the same version and the one names the other; only
/// in a mesh the name may be left out.
pub proof fn law_handshakes_need_version_and_name(
    expected: Seq<char>,
    local: Seq<char>,
    mesh_enabled: bool,
    version: Seq<char>,
    local_version: Seq<char>,
)
    ensures
        version != local_version ==> !handshake_fits(
            expected,
            local,
            mesh_enabled,
            version,
            local_version,
        ),
        expected == local ==> handshake_fits(expected, local, mesh_enabled, version, version),
        expected != local && expected.len() > 0 ==> !handshake_fits(
            expected,
            local,
            mesh_enabled,
            version,
            version,
        ),
        handshake_fits(Seq::empty(), local, true, version, version),
        local.len() > 0 ==> !handshake_fits(Seq::empty(), local, false, version, version),
{
}

/// The models that are advertised are the allowed ones and the default one.
pub proof fn law_allowed_models_are_advertised(
    option: ModelOption,
    allowed: Set<Seq<char>>,
    default_model: Seq<char>,
)
    ensures
        allowed.contains(option.id@) ==> is_advertised(option, allowed, default_model),
        option.id@ == default_model ==> is_advertised(option, allowed, default_model),
        is_advertised(option, allowed, default_model) && option.id@ != default_model
            ==> allowed.contains(option.id@),
{
}

/// Of several recent assignments with one name the first is shown, and they are shown in order.
pub proof fn law_first_of_equal_assignments_is_shown(active: Set<Seq<char>>, recent: Seq<String>)
    ensures
        forall|i: int, j: int|
            0 <= i < j < newly_shown(active, recent).len() ==> #[trigger] newly_shown(
                active,
                recent,
            )[i] < #[trigger] newly_shown(active, recent)[j],
        forall|i: int, k: int|
            0 <= i < newly_shown(active, recent).len() && 0 <= k < (#[trigger] newly_shown(
                active,
                recent,
            )[i]) ==> (#[trigger] recent[k])@ != recent[newly_shown(active, recent)[i]]@,
    decreases recent.len(),
{
    if recent.len() > 0 {
        let front = recent.drop_last();
        let before = newly_shown(active, front);
        let all = newly_shown(active, recent);
        law_first_of_equal_assignments_is_shown(active, front);
        law_assignments_are_shown_once(active, front);
        let last = recent.last()@;
        assert forall|i: int, j: int| 0 <= i < j < all.len() implies #[trigger] all[i]
            < #[trigger] all[j] by {
            assert(all[i] == before[i]);
            if j < before.len() {
                assert(all[j] == before[j]);
            }
        }
        assert forall|i: int, k: int|
            0 <= i < all.len() && 0 <= k < (#[trigger] all[i]) implies (#[trigger] recent[k])@
            != recent[all[i]]@ by {
            if i < before.len() {
                assert(all[i] == before[i]);
                assert(before[i] < front.len());
                assert(front[k] == recent[k]);
                assert(front[before[i]] == recent[all[i]]);
            } else {
                assert(all[i] == recent.len() - 1);
                assert(front[k] == recent[k]);
                lemma_texts_of(front, last);
                if front[k]@ == last {
                    assert(exists|m: int| 0 <= m < front.len() && (#[trigger] front[m])@ == last);
                }
            }
        }
    }
}

/// A summary of an assignment tells these members.
pub proof fn law_summaries_tell_these_members(i: int)
    ensures
        summary_members().len() == 14,
        0 <= i < 14 ==> ({
            let name = summary_members()[i]@;
            ||| name == "id"@
            ||| name == "kind"@
            ||| name == "external_id"@
            ||| name == "context_id"@
            ||| name == "session_id"@
            ||| name == "role"@
            ||| name == "request_id"@
            ||| name == "objective_id"@
            ||| name == "counterparty_id"@
            ||| name == "summary"@
            ||| name == "status"@
            ||| name == "status_reason"@
            ||| name == "lease_expires_at"@
            ||| name == "updated_at"@
        }),
{
}

/// A participant that is not set up says so on every route, each in its own words.
pub proof fn law_unconfigured_routes_say_so(route: CoordinationRoute)
    ensures
        unconfigured_text(route)@ == if route == CoordinationRoute::Status {
            "Cognitive Coordination has no configured local participant"@
        } else if route == CoordinationRoute::Identity {
            "Coordination Mesh is not configured"@
        } else if route == CoordinationRoute::Handshake {
            "Cognitive Coordination participant is not configured"@
        } else {
            "participant is not configured"@
        },
{
}

} // verus!
