use crate::auth;
use crate::auth::{is_operator_authorized, request_principal, AppState, PrincipalAssertion};
use crate::error;
use crate::error::{error_response, sdk_error_response, ErrorReply, Message, SdkError};
use crate::headers::HeaderMap;
use crate::json::Json;
use crate::mount;
use crate::mount::refuse_identifier;
use crate::reply;
use crate::reply::{bounded_limit, internal_response, reason_or, Body, Reply};
use crate::text;
use crate::text::{ascii_lowercase, find, same, trim, Text};
use vstd::prelude::*;

verus! {

/// What became of a change that names the revision it expects.
pub enum Mutation {
    Updated(Json),
    Conflict { current: Json },
    NotFound,
}

/// A change that is recorded with a reason.
#[derive(PartialEq, Eq, Structural, Clone, Copy, Debug)]
pub enum ReasonedAct {
    ControlThread,
    SupersedeThread,
    ResumeObjective,
    PauseObjective,
    DeleteObjective,
    RevokeGrant,
}

impl ReasonedAct {
    /// What is recorded where the caller gives no reason.
    pub open spec fn usual_reason(self) -> &'static str {
        match self {
            ReasonedAct::ControlThread => "the user controlled the Thread through the Dashboard",
            ReasonedAct::SupersedeThread => "the user revised the Thread through the Dashboard",
            ReasonedAct::ResumeObjective => {
                "the user explicitly resumed the Objective through the Dashboard"
            },
            ReasonedAct::PauseObjective => {
                "the user explicitly paused the Objective through the Dashboard"
            },
            ReasonedAct::DeleteObjective => "the user deleted the Objective through the Dashboard",
            ReasonedAct::RevokeGrant => "revoked explicitly by the current Principal",
        }
    }

    pub fn reason(self, given: &Option<String>) -> (r: Text)
        ensures
            r@ == reply::reason_text(*given, self.usual_reason()),
    {
        let usual: &'static str = match self {
            ReasonedAct::ControlThread => "the user controlled the Thread through the Dashboard",
            ReasonedAct::SupersedeThread => "the user revised the Thread through the Dashboard",
            ReasonedAct::ResumeObjective => {
                "the user explicitly resumed the Objective through the Dashboard"
            },
            ReasonedAct::PauseObjective => {
                "the user explicitly paused the Objective through the Dashboard"
            },
            ReasonedAct::DeleteObjective => "the user deleted the Objective through the Dashboard",
            ReasonedAct::RevokeGrant => "revoked explicitly by the current Principal",
        };
        reason_or(given, usual)
    }
}

/// How far an objective has come, as far as its control cares.
#[derive(PartialEq, Eq, Structural, Clone, Copy, Debug)]
pub enum ObjectiveStatus {
    Active,
    Blocked,
    Paused,
    Other,
}

/// An objective, as far as its control reads it.
pub struct ObjectiveRef {
    pub status: ObjectiveStatus,
    pub status_text: String,
    pub coordinator_session_id: String,
}

/// Whether a caller may control an objective.
pub enum ObjectiveAccess {
    Granted(ObjectiveRef),
    /// Where this principal may see the objective's coordinator session.
    IfSessionVisible { objective: ObjectiveRef, principal: PrincipalAssertion },
    Refused(ErrorReply),
}

/// Whether a caller may control an objective: operators may, and the principals that see the
/// session which coordinates it.
pub fn authorize_objective_request(
    state: &AppState,
    headers: &HeaderMap,
    operator_token: Option<&str>,
    found: Result<Option<ObjectiveRef>, String>,
) -> (r: ObjectiveAccess)
    ensures
        match found {
            Err(_) => r == ObjectiveAccess::Refused(reply::internal_reply()),
            Ok(None) => r == ObjectiveAccess::Refused(
                error::error_reply(404, Message::Fixed("Objective does not exist")),
            ),
            Ok(Some(objective)) => if auth::is_operator(state, headers, operator_token) {
                r == ObjectiveAccess::Granted(objective)
            } else {
                match auth::principal_of(state, headers, None) {
                    Ok(view) => r matches ObjectiveAccess::IfSessionVisible {
                        objective: kept,
                        principal,
                    } && kept == objective && principal@ == view,
                    Err(refusal) => r == ObjectiveAccess::Refused(error::sdk_reply(refusal)),
                }
            },
        },
{
    let objective = match found {
        Err(_) => {
            return ObjectiveAccess::Refused(internal_response());
        },
        Ok(None) => {
            return ObjectiveAccess::Refused(
                error_response(404, Message::Fixed("Objective does not exist")),
            );
        },
        Ok(Some(objective)) => objective,
    };
    if is_operator_authorized(state, headers, operator_token) {
        return ObjectiveAccess::Granted(objective);
    }
    match request_principal(state, headers, None) {
        Ok(principal) => ObjectiveAccess::IfSessionVisible { objective, principal },
        Err(refusal) => ObjectiveAccess::Refused(sdk_error_response(refusal)),
    }
}

pub open spec fn can_resume(objective: ObjectiveRef) -> bool {
    objective.status == ObjectiveStatus::Blocked || objective.status == ObjectiveStatus::Paused
}

pub open spec fn can_pause(objective: ObjectiveRef) -> bool {
    objective.status == ObjectiveStatus::Active
}

/// Only a blocked or paused objective is resumed.
pub fn check_resume(objective: &ObjectiveRef) -> (r: Result<(), ErrorReply>)
    ensures
        r == if can_resume(*objective) {
            Ok::<(), ErrorReply>(())
        } else {
            Err(
                error::error_reply(
                    409,
                    Message::Around {
                        before: "Objective is currently '",
                        value: objective.status_text,
                        after:
                            "'; only blocked or paused Objectives can be resumed explicitly",
                    },
                ),
            )
        },
{
    if objective.status == ObjectiveStatus::Blocked || objective.status == ObjectiveStatus::Paused {
        return Ok(());
    }
    Err(
        error_response(
            409,
            Message::Around {
                before: "Objective is currently '",
                value: objective.status_text.clone(),
                after: "'; only blocked or paused Objectives can be resumed explicitly",
            },
        ),
    )
}

/// Only an active objective is paused.
pub fn check_pause(objective: &ObjectiveRef) -> (r: Result<(), ErrorReply>)
    ensures
        r == if can_pause(*objective) {
            Ok::<(), ErrorReply>(())
        } else {
            Err(
                error::error_reply(
                    409,
                    Message::Around {
                        before: "Objective is currently '",
                        value: objective.status_text,
                        after: "'; only active Objectives can be paused explicitly",
                    },
                ),
            )
        },
{
    if objective.status == ObjectiveStatus::Active {
        return Ok(());
    }
    Err(
        error_response(
            409,
            Message::Around {
                before: "Objective is currently '",
                value: objective.status_text.clone(),
                after: "'; only active Objectives can be paused explicitly",
            },
        ),
    )
}

/// What an objective is to achieve, in words, which must not be empty.
pub fn stated_objective(stated: &str) -> (r: Result<String, ErrorReply>)
    ensures
        if text::trimmed(stated@).len() == 0 {
            r == Err::<String, ErrorReply>(
                error::error_reply(400, Message::Fixed("stated_objective must not be empty")),
            )
        } else {
            r matches Ok(words) && words@ == text::trimmed(stated@)
        },
{
    let words = trim(stated);
    if words.is_empty() {
        Err(error_response(400, Message::Fixed("stated_objective must not be empty")))
    } else {
        Ok(words.to_owned())
    }
}

/// A token budget must leave room for something.
pub fn check_token_budget(budget: Option<u64>) -> (r: Result<(), ErrorReply>)
    ensures
        r == if budget == Some(0u64) {
            Err::<(), ErrorReply>(
                error::error_reply(400, Message::Fixed("token_budget must be greater than 0")),
            )
        } else {
            Ok(())
        },
{
    match budget {
        Some(0) => Err(error_response(400, Message::Fixed("token_budget must be greater than 0"))),
        _ => Ok(()),
    }
}

/// A session, as far as an objective reads it.
pub struct ObjectiveSession {
    pub id: String,
    pub agent_id: String,
    pub context_id: String,
}

/// The session to which the result of an objective is delivered: its coordinator unless another
/// one is named.
pub fn delivery_session(named: Option<String>, coordinator: &ObjectiveSession) -> (r: String)
    ensures
        r == match named {
            Some(id) => id,
            None => coordinator.id,
        },
{
    match named {
        Some(id) => id,
        None => coordinator.id.clone(),
    }
}

/// The identifier of a new objective, whose two sessions must share agent and context.
pub fn plan_objective(
    coordinator: &ObjectiveSession,
    delivery: &ObjectiveSession,
    id: Option<String>,
    fresh_id: String,
) -> (r: Result<String, ErrorReply>)
    ensures
        r == if delivery.context_id@ != coordinator.context_id@ || delivery.agent_id@
            != coordinator.agent_id@ {
            Err::<String, ErrorReply>(
                error::error_reply(
                    400,
                    Message::Fixed(
                        "coordinator and delivery Session must belong to the same Agent/Context",
                    ),
                ),
            )
        } else {
            match mount::identifier_refusal("objective_id", mount::id_or(id, fresh_id)@) {
                Some(refusal) => Err(refusal),
                None => Ok(mount::id_or(id, fresh_id)),
            }
        },
{
    if !same(delivery.context_id.as_str(), coordinator.context_id.as_str()) || !same(
        delivery.agent_id.as_str(),
        coordinator.agent_id.as_str(),
    ) {
        return Err(
            error_response(
                400,
                Message::Fixed(
                    "coordinator and delivery Session must belong to the same Agent/Context",
                ),
            ),
        );
    }
    let objective_id: String = match id {
        Some(given) => given,
        None => fresh_id,
    };
    match refuse_identifier("objective_id", objective_id.as_str()) {
        Some(refusal) => Err(refusal),
        None => Ok(objective_id),
    }
}

/// The answer to a change that names the revision it expects, and how a conflict and a missing
/// record are told.
pub open spec fn mutation_reply(
    mutation: Mutation,
    flag: &'static str,
    name: &'static str,
    conflict: &'static str,
    missing: &'static str,
) -> Result<Reply, ErrorReply> {
    match mutation {
        Mutation::Updated(value) => Ok(
            Reply { status: 200, body: Body::Flagged { flag, name, value } },
        ),
        Mutation::Conflict { current } => Ok(
            Reply {
                status: 409,
                body: Body::Conflict {
                    error: Text::Fixed(conflict),
                    outcome: None,
                    name: "current",
                    current,
                },
            },
        ),
        Mutation::NotFound => Err(error::error_reply(404, Message::Fixed(missing))),
    }
}

fn answer_mutation(
    mutation: Mutation,
    flag: &'static str,
    name: &'static str,
    conflict: &'static str,
    missing: &'static str,
) -> (r: Result<Reply, ErrorReply>)
    ensures
        r == mutation_reply(mutation, flag, name, conflict, missing),
{
    match mutation {
        Mutation::Updated(value) => Ok(
            Reply { status: 200, body: Body::Flagged { flag, name, value } },
        ),
        Mutation::Conflict { current } => Ok(
            Reply {
                status: 409,
                body: Body::Conflict {
                    error: Text::Fixed(conflict),
                    outcome: None,
                    name: "current",
                    current,
                },
            },
        ),
        Mutation::NotFound => Err(error_response(404, Message::Fixed(missing))),
    }
}

/// The answer to a change of an objective; the flag names the change.
pub fn objective_reply(flag: &'static str, outcome: Result<Mutation, String>) -> (r: Result<
    Reply,
    ErrorReply,
>)
    ensures
        r == match outcome {
            Err(_) => Err::<Reply, ErrorReply>(reply::internal_reply()),
            Ok(mutation) => mutation_reply(
                mutation,
                flag,
                "objective",
                "Objective revision conflict; refresh and retry",
                "Objective does not exist",
            ),
        },
{
    match outcome {
        Err(_) => Err(internal_response()),
        Ok(mutation) => answer_mutation(
            mutation,
            flag,
            "objective",
            "Objective revision conflict; refresh and retry",
            "Objective does not exist",
        ),
    }
}

/// The answer to deleting an objective, which cancels it.
pub fn objective_deleted_reply(outcome: Result<Mutation, String>) -> (r: Result<Reply, ErrorReply>)
    ensures
        r == match outcome {
            Ok(Mutation::Updated(objective)) => Ok::<Reply, ErrorReply>(
                Reply { status: 200, body: Body::Deleted { objective } },
            ),
            Ok(mutation) => mutation_reply(
                mutation,
                "deleted",
                "objective",
                "Objective revision conflict; refresh and retry",
                "Objective does not exist",
            ),
            Err(_) => Err(reply::internal_reply()),
        },
{
    match outcome {
        Ok(Mutation::Updated(objective)) => Ok(
            Reply { status: 200, body: Body::Deleted { objective } },
        ),
        other => objective_reply("deleted", other),
    }
}

/// The answer to a change of a thread.
pub fn thread_reply(outcome: Result<Mutation, SdkError>) -> (r: Result<Reply, ErrorReply>)
    ensures
        r == match outcome {
            Err(refusal) => Err::<Reply, ErrorReply>(error::sdk_reply(refusal)),
            Ok(mutation) => mutation_reply(
                mutation,
                "updated",
                "thread",
                "Thread revision conflict; refresh and retry",
                "Thread does not exist",
            ),
        },
{
    match outcome {
        Err(refusal) => Err(sdk_error_response(refusal)),
        Ok(mutation) => answer_mutation(
            mutation,
            "updated",
            "thread",
            "Thread revision conflict; refresh and retry",
            "Thread does not exist",
        ),
    }
}

/// What is done to a schedule.
#[derive(PartialEq, Eq, Structural, Clone, Copy, Debug)]
pub enum ScheduleAction {
    Pause,
    Resume,
    Reschedule,
    Cancel,
}

pub open spec fn schedule_action_of(action: Seq<char>) -> Option<ScheduleAction> {
    let word = text::lowercase(text::trimmed(action));
    if word == "pause"@ {
        Some(ScheduleAction::Pause)
    } else if word == "resume"@ {
        Some(ScheduleAction::Resume)
    } else if word == "reschedule"@ {
        Some(ScheduleAction::Reschedule)
    } else if word == "cancel"@ {
        Some(ScheduleAction::Cancel)
    } else {
        None
    }
}

pub fn schedule_action(action: &str) -> (r: Result<ScheduleAction, ErrorReply>)
    ensures
        r == match schedule_action_of(action@) {
            Some(found) => Ok::<ScheduleAction, ErrorReply>(found),
            None => Err(
                error::error_reply(
                    400,
                    Message::Fixed("action supports only pause, resume, reschedule, or cancel"),
                ),
            ),
        },
{
    let lower = ascii_lowercase(trim(action));
    let word = lower.as_str();
    if same(word, "pause") {
        Ok(ScheduleAction::Pause)
    } else if same(word, "resume") {
        Ok(ScheduleAction::Resume)
    } else if same(word, "reschedule") {
        Ok(ScheduleAction::Reschedule)
    } else if same(word, "cancel") {
        Ok(ScheduleAction::Cancel)
    } else {
        Err(
            error_response(
                400,
                Message::Fixed("action supports only pause, resume, reschedule, or cancel"),
            ),
        )
    }
}

/// What became of a change of a schedule.
pub enum ScheduleMutation {
    Updated(Json),
    Conflict { current: Json },
    Rejected { current: Json, reason: String },
    NotFound,
}

/// The answer to a change of a schedule.
pub fn schedule_reply(outcome: Result<ScheduleMutation, String>) -> (r: Result<Reply, ErrorReply>)
    ensures
        r == match outcome {
            Err(_) => Err::<Reply, ErrorReply>(reply::internal_reply()),
            Ok(ScheduleMutation::Updated(value)) => Ok(
                Reply {
                    status: 200,
                    body: Body::Outcome { outcome: "updated", name: "schedule", value },
                },
            ),
            Ok(ScheduleMutation::Conflict { current }) => Ok(
                Reply {
                    status: 409,
                    body: Body::Conflict {
                        error: Text::Fixed("Schedule revision was updated by another writer"),
                        outcome: Some("conflict"),
                        name: "schedule",
                        current,
                    },
                },
            ),
            Ok(ScheduleMutation::Rejected { current, reason }) => Ok(
                Reply {
                    status: 409,
                    body: Body::Conflict {
                        error: Text::Owned(reason),
                        outcome: Some("rejected"),
                        name: "schedule",
                        current,
                    },
                },
            ),
            Ok(ScheduleMutation::NotFound) => Err(
                error::error_reply(404, Message::Fixed("Schedule does not exist")),
            ),
        },
{
    match outcome {
        Err(_) => Err(internal_response()),
        Ok(ScheduleMutation::Updated(value)) => Ok(
            Reply {
                status: 200,
                body: Body::Outcome { outcome: "updated", name: "schedule", value },
            },
        ),
        Ok(ScheduleMutation::Conflict { current }) => Ok(
            Reply {
                status: 409,
                body: Body::Conflict {
                    error: Text::Fixed("Schedule revision was updated by another writer"),
                    outcome: Some("conflict"),
                    name: "schedule",
                    current,
                },
            },
        ),
        Ok(ScheduleMutation::Rejected { current, reason }) => Ok(
            Reply {
                status: 409,
                body: Body::Conflict {
                    error: Text::Owned(reason),
                    outcome: Some("rejected"),
                    name: "schedule",
                    current,
                },
            },
        ),
        Ok(ScheduleMutation::NotFound) => Err(
            error_response(404, Message::Fixed("Schedule does not exist")),
        ),
    }
}

/// A snapshot of a scheduler that could not be taken: the runtime's words tell whether the context
/// is missing.
pub fn scheduler_refusal(detail: String) -> (r: ErrorReply)
    ensures
        r == if text::find_from(detail@, "does not exist"@, 0) is Some {
            error::error_reply(404, Message::Owned(detail))
        } else {
            reply::internal_reply()
        },
{
    if find(detail.as_str(), "does not exist").is_some() {
        error_response(404, Message::Owned(detail))
    } else {
        internal_response()
    }
}

/// How far a delegation has come, as far as cancelling it cares.
#[derive(PartialEq, Eq, Structural, Clone, Copy, Debug)]
pub enum DelegationStatus {
    Completed,
    Failed,
    Cancelled,
    Open,
}

/// Only an open delegation is cancelled.
pub fn check_delegation_cancel(
    found: Result<Option<DelegationStatus>, String>,
    status_text: String,
) -> (r: Result<(), ErrorReply>)
    ensures
        r == match found {
            Err(_) => Err::<(), ErrorReply>(reply::internal_reply()),
            Ok(None) => Err(error::error_reply(404, Message::Fixed("Delegation does not exist"))),
            Ok(Some(DelegationStatus::Open)) => Ok(()),
            Ok(Some(_)) => Err(
                error::error_reply(
                    409,
                    Message::Around {
                        before: "Delegation is already terminal with status '",
                        value: status_text,
                        after: "' and cannot be cancelled",
                    },
                ),
            ),
        },
{
    match found {
        Err(_) => Err(internal_response()),
        Ok(None) => Err(error_response(404, Message::Fixed("Delegation does not exist"))),
        Ok(Some(DelegationStatus::Open)) => Ok(()),
        Ok(Some(_)) => Err(
            error_response(
                409,
                Message::Around {
                    before: "Delegation is already terminal with status '",
                    value: status_text,
                    after: "' and cannot be cancelled",
                },
            ),
        ),
    }
}

/// How many delegations a page shows, and how many are asked for to see whether there are more.
pub struct DelegationLimits {
    pub shown: u64,
    pub asked: u64,
}

pub fn delegation_limits(limit: Option<u64>) -> (r: DelegationLimits)
    ensures
        r.shown == reply::clamped(
            match limit {
                Some(n) => n,
                None => 200,
            },
            1,
            500,
        ),
        r.asked == r.shown + 1,
{
    let shown: u64 = bounded_limit(limit, 200, 1, 500);
    DelegationLimits { shown, asked: shown + 1 }
}

/// A page of delegations out of those that were found, and whether there are more.
pub fn delegations_page(found: Vec<Json>, shown: u64) -> (r: (Vec<Json>, bool))
    ensures
        r.1 == (found@.len() > shown),
        r.0@ == if found@.len() > shown {
            found@.subrange(0, shown as int)
        } else {
            found@
        },
{
    let mut page = found;
    let has_more: bool = page.len() as u64 > shown;
    if has_more {
        page.truncate(shown as usize);
    }
    (page, has_more)
}

/// What is announced when a session was cancelled.
pub struct CancelNotice {
    pub was_running: bool,
    pub text: &'static str,
}

pub fn cancel_notice(cancelled_threads: u64) -> (r: CancelNotice)
    ensures
        r == (CancelNotice {
            was_running: cancelled_threads > 0,
            text: if cancelled_threads > 0 {
                "Current Session execution was cancelled."
            } else {
                "The Session has no running execution; subsequent background wakeups are paused until the next user message."
            },
        }),
{
    if cancelled_threads > 0 {
        CancelNotice { was_running: true, text: "Current Session execution was cancelled." }
    } else {
        CancelNotice {
            was_running: false,
            text:
                "The Session has no running execution; subsequent background wakeups are paused until the next user message.",
        }
    }
}

/// No objective can be both resumed and paused.
pub proof fn law_resume_and_pause_exclude_each_other(objective: ObjectiveRef)
    ensures
        !(can_resume(objective) && can_pause(objective)),
{
}

/// A change that met another revision is answered with the current record and never as done.
pub proof fn law_conflicts_are_never_successes(
    current: Json,
    flag: &'static str,
    name: &'static str,
    conflict: &'static str,
    missing: &'static str,
)
    ensures
        mutation_reply(Mutation::Conflict { current }, flag, name, conflict, missing) matches Ok(
            answer,
        ) && answer.status == 409,
{
}

/// Blocked and paused objectives can be resumed, active ones can be paused, and nothing else.
pub proof fn law_objectives_change_from_their_status(objective: ObjectiveRef)
    ensures
        objective.status == ObjectiveStatus::Blocked ==> can_resume(objective) && !can_pause(
            objective,
        ),
        objective.status == ObjectiveStatus::Paused ==> can_resume(objective) && !can_pause(
            objective,
        ),
        objective.status == ObjectiveStatus::Active ==> can_pause(objective) && !can_resume(
            objective,
        ),
        objective.status == ObjectiveStatus::Other ==> !can_pause(objective) && !can_resume(
            objective,
        ),
{
}

/// A change is answered with what was changed under its name; a conflict with what stands now, and
/// with 409; and what is not there with 404.
pub proof fn law_mutations_are_answered_with_what_stands(
    value: Json,
    flag: &'static str,
    name: &'static str,
    conflict: &'static str,
    missing: &'static str,
)
    ensures
        mutation_reply(Mutation::Updated(value), flag, name, conflict, missing) matches Ok(reply)
            && reply.status == 200 && reply.body == (Body::Flagged { flag, name, value }),
        mutation_reply(Mutation::Conflict { current: value }, flag, name, conflict, missing)
            matches Ok(reply) && reply.status == 409 && (reply.body matches Body::Conflict {
            error,
            outcome,
            name: shown,
            current,
        } && error@ == conflict@ && outcome is None && shown == "current" && current == value),
        mutation_reply(Mutation::NotFound, flag, name, conflict, missing) matches Err(reply)
            && reply.status == 404 && reply.message@ == missing@,
{
}

proof fn lemma_schedule_words_differ()
    ensures
        "pause"@ != "resume"@,
        "pause"@ != "reschedule"@,
        "pause"@ != "cancel"@,
        "resume"@ != "reschedule"@,
        "resume"@ != "cancel"@,
        "reschedule"@ != "cancel"@,
{
    reveal_strlit("pause");
    reveal_strlit("resume");
    reveal_strlit("reschedule");
    reveal_strlit("cancel");
    assert("pause"@.len() == 5);
    assert("resume"@.len() == 6);
    assert("reschedule"@.len() == 10);
    assert("cancel"@.len() == 6);
    assert("resume"@[0] == 'r');
    assert("cancel"@[0] == 'c');
}

/// A schedule is paused, resumed, rescheduled or cancelled by the word for it, in whatever case and
/// with spaces round it; no other word is understood.
pub proof fn law_schedules_obey_four_words(action: Seq<char>)
    ensures
        ({
            let word = text::lowercase(text::trimmed(action));
            &&& word == "pause"@ <==> schedule_action_of(action) == Some(ScheduleAction::Pause)
            &&& word == "resume"@ <==> schedule_action_of(action) == Some(ScheduleAction::Resume)
            &&& word == "reschedule"@ <==> schedule_action_of(action) == Some(
                ScheduleAction::Reschedule,
            )
            &&& word == "cancel"@ <==> schedule_action_of(action) == Some(ScheduleAction::Cancel)
        }),
{
    lemma_schedule_words_differ();
}

/// Without a reason of the user's own, each act is recorded with the words for it.
pub proof fn law_acts_have_their_usual_reason(act: ReasonedAct)
    ensures
        act == ReasonedAct::ControlThread ==> act.usual_reason()@
            == "the user controlled the Thread through the Dashboard"@,
        act == ReasonedAct::SupersedeThread ==> act.usual_reason()@
            == "the user revised the Thread through the Dashboard"@,
        act == ReasonedAct::ResumeObjective ==> act.usual_reason()@
            == "the user explicitly resumed the Objective through the Dashboard"@,
        act == ReasonedAct::PauseObjective ==> act.usual_reason()@
            == "the user explicitly paused the Objective through the Dashboard"@,
        act == ReasonedAct::DeleteObjective ==> act.usual_reason()@
            == "the user deleted the Objective through the Dashboard"@,
        act == ReasonedAct::RevokeGrant ==> act.usual_reason()@
            == "revoked explicitly by the current Principal"@,
{
}

} // verus!
