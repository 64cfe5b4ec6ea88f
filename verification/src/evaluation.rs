use crate::coordination;
use crate::coordination::{
    on_failure_stored, on_success_stored, start_evaluation, AssignmentRecord, EvaluationStart,
    WorkAssignmentStatus,
};
use crate::error;
use crate::error::{error_response, ErrorReply, Message};
use crate::reply;
use crate::reply::internal_response;
use vstd::prelude::*;

verus! {

/// What is to be done next for an evaluation that another runtime asks for.
pub enum EvaluationTask {
    /// Put together what this runtime advertises, and admit the evaluation by it.
    Admit,
    /// Make the session of the request, where it is missing.
    EnsureSession,
    /// Store the assignment.
    Begin,
    /// Note that the assignment runs.
    Register,
    /// Check that coordination is enabled.
    Permit,
    Run,
    /// Note that the assignment no longer runs. It failed with these words, or it succeeded.
    Finish(Option<String>),
    StoreSuccess,
    StoreFailure(String),
    /// Cancel the session in which the evaluation failed, and then refuse.
    CancelSession(ErrorReply),
    /// Answer the draft that was just made.
    AnswerDraft,
    /// Read the draft that was stored before.
    ReadStored,
    /// Answer the draft that was stored before.
    AnswerStored,
    Refuse(ErrorReply),
}

/// What came of a task.
pub enum EvaluationInput {
    Admitted(Result<(), ErrorReply>),
    /// A task that succeeds or fails, in words.
    Did(Result<(), String>),
    /// The assignment is stored; with the record that was there before.
    Begun(Result<Option<AssignmentRecord>, String>),
    /// The outcome is stored; with the record as it is now.
    Stored(Result<Option<AssignmentRecord>, String>),
}

/// The task that follows one. A task that cannot come to what is told of it ends the evaluation as
/// an internal failure.
pub open spec fn task_after(task: EvaluationTask, input: EvaluationInput) -> EvaluationTask {
    match (task, input) {
        (EvaluationTask::Admit, EvaluationInput::Admitted(Ok(_))) => EvaluationTask::EnsureSession,
        (EvaluationTask::Admit, EvaluationInput::Admitted(Err(refusal))) => EvaluationTask::Refuse(
            refusal,
        ),
        (EvaluationTask::EnsureSession, EvaluationInput::Did(Ok(_))) => EvaluationTask::Begin,
        (EvaluationTask::Begin, EvaluationInput::Begun(begun)) => match coordination::evaluation_start(
            begun,
        ) {
            EvaluationStart::Execute => EvaluationTask::Register,
            EvaluationStart::Replay => EvaluationTask::ReadStored,
            EvaluationStart::Refuse(refusal) => EvaluationTask::Refuse(refusal),
        },
        (EvaluationTask::ReadStored, EvaluationInput::Did(Ok(_))) => EvaluationTask::AnswerStored,
        (EvaluationTask::Register, EvaluationInput::Did(Ok(_))) => EvaluationTask::Permit,
        (EvaluationTask::Permit, EvaluationInput::Did(Ok(_))) => EvaluationTask::Run,
        (EvaluationTask::Permit, EvaluationInput::Did(Err(detail))) => EvaluationTask::Refuse(
            error::error_reply(503, Message::Owned(detail)),
        ),
        (EvaluationTask::Run, EvaluationInput::Did(Ok(_))) => EvaluationTask::Finish(None),
        (EvaluationTask::Run, EvaluationInput::Did(Err(detail))) => EvaluationTask::Finish(
            Some(detail),
        ),
        (EvaluationTask::Finish(None), EvaluationInput::Did(Ok(_))) => EvaluationTask::StoreSuccess,
        (EvaluationTask::Finish(Some(detail)), EvaluationInput::Did(Ok(_))) => {
            EvaluationTask::StoreFailure(detail)
        },
        (EvaluationTask::StoreSuccess, EvaluationInput::Stored(stored)) => match success_refusal(
            stored,
        ) {
            None => EvaluationTask::AnswerDraft,
            Some(refusal) => EvaluationTask::Refuse(refusal),
        },
        (EvaluationTask::StoreFailure(detail), EvaluationInput::Stored(Ok(_))) => {
            EvaluationTask::CancelSession(error::error_reply(502, Message::Owned(detail)))
        },
        (EvaluationTask::CancelSession(refusal), EvaluationInput::Did(_)) => EvaluationTask::Refuse(
            refusal,
        ),
        _ => EvaluationTask::Refuse(reply::internal_reply()),
    }
}

/// Why a draft that was made is not answered, once its success was to be stored.
pub open spec fn success_refusal(stored: Result<Option<AssignmentRecord>, String>) -> Option<
    ErrorReply,
> {
    match stored {
        Err(_) => Some(reply::internal_reply()),
        Ok(Some(record)) => if record.status != WorkAssignmentStatus::Succeeded {
            Some(
                error::error_reply(
                    409,
                    Message::Pair {
                        before: "Evaluation Assignment '",
                        first: record.external_id,
                        between: "' completed locally after its durable status became '",
                        second: record.status_text,
                        after: "'",
                    },
                ),
            )
        } else {
            None
        },
        Ok(None) => None,
    }
}

pub fn next_evaluation_task(task: EvaluationTask, input: EvaluationInput) -> (r: EvaluationTask)
    ensures
        r == task_after(task, input),
{
    match (task, input) {
        (EvaluationTask::Admit, EvaluationInput::Admitted(admitted)) => match admitted {
            Ok(()) => EvaluationTask::EnsureSession,
            Err(refusal) => EvaluationTask::Refuse(refusal),
        },
        (EvaluationTask::EnsureSession, EvaluationInput::Did(Ok(_))) => EvaluationTask::Begin,
        (EvaluationTask::Begin, EvaluationInput::Begun(begun)) => match start_evaluation(begun) {
            EvaluationStart::Execute => EvaluationTask::Register,
            EvaluationStart::Replay => EvaluationTask::ReadStored,
            EvaluationStart::Refuse(refusal) => EvaluationTask::Refuse(refusal),
        },
        (EvaluationTask::ReadStored, EvaluationInput::Did(Ok(_))) => EvaluationTask::AnswerStored,
        (EvaluationTask::Register, EvaluationInput::Did(Ok(_))) => EvaluationTask::Permit,
        (EvaluationTask::Permit, EvaluationInput::Did(permitted)) => match permitted {
            Ok(()) => EvaluationTask::Run,
            Err(detail) => EvaluationTask::Refuse(error_response(503, Message::Owned(detail))),
        },
        (EvaluationTask::Run, EvaluationInput::Did(ran)) => match ran {
            Ok(()) => EvaluationTask::Finish(None),
            Err(detail) => EvaluationTask::Finish(Some(detail)),
        },
        (EvaluationTask::Finish(failure), EvaluationInput::Did(Ok(_))) => match failure {
            None => EvaluationTask::StoreSuccess,
            Some(detail) => EvaluationTask::StoreFailure(detail),
        },
        (EvaluationTask::StoreSuccess, EvaluationInput::Stored(stored)) => match on_success_stored(
            stored,
        ) {
            Ok(()) => EvaluationTask::AnswerDraft,
            Err(refusal) => EvaluationTask::Refuse(refusal),
        },
        (EvaluationTask::StoreFailure(detail), EvaluationInput::Stored(stored)) => {
            let (refusal, cancels) = on_failure_stored(detail, stored.is_ok());
            if cancels {
                EvaluationTask::CancelSession(refusal)
            } else {
                EvaluationTask::Refuse(refusal)
            }
        },
        (EvaluationTask::CancelSession(refusal), EvaluationInput::Did(_)) => EvaluationTask::Refuse(
            refusal,
        ),
        _ => EvaluationTask::Refuse(internal_response()),
    }
}

/// Where an evaluation stands after a number of tasks.
pub open spec fn task_at(inputs: Seq<EvaluationInput>) -> EvaluationTask
    decreases inputs.len(),
{
    if inputs.len() == 0 {
        EvaluationTask::Admit
    } else {
        task_after(task_at(inputs.drop_last()), inputs.last())
    }
}

/// Whether the assignment was stored for the first time.
pub open spec fn began_fresh(inputs: Seq<EvaluationInput>) -> bool {
    exists|i: int|
        #![trigger inputs[i]]
        0 <= i < inputs.len() && inputs[i] == EvaluationInput::Begun(Ok(None))
}

/// Whether a task comes after the assignment was stored for the first time.
pub open spec fn is_under_way(task: EvaluationTask) -> bool {
    match task {
        EvaluationTask::Register
        | EvaluationTask::Permit
        | EvaluationTask::Run
        | EvaluationTask::Finish(_)
        | EvaluationTask::StoreSuccess
        | EvaluationTask::StoreFailure(_)
        | EvaluationTask::CancelSession(_)
        | EvaluationTask::AnswerDraft => true,
        _ => false,
    }
}

/// An evaluation runs, and its draft is answered, only where its assignment was stored for the
/// first time: what was stored before is answered again or refused.
pub proof fn law_evaluations_run_on_fresh_assignments(inputs: Seq<EvaluationInput>)
    ensures
        is_under_way(task_at(inputs)) ==> began_fresh(inputs),
    decreases inputs.len(),
{
    if inputs.len() > 0 {
        let before = inputs.drop_last();
        law_evaluations_run_on_fresh_assignments(before);
        if is_under_way(task_at(inputs)) {
            if is_under_way(task_at(before)) {
                let i = choose|i: int|
                    #![trigger before[i]]
                    0 <= i < before.len() && before[i] == EvaluationInput::Begun(Ok(None));
                assert(inputs[i] == EvaluationInput::Begun(Ok(None)));
            } else {
                assert(inputs[inputs.len() - 1] == EvaluationInput::Begun(Ok(None)));
            }
        }
    }
}

/// What a failed evaluation leaves behind is cleared up only once its failure is stored, and an
/// evaluation that ran is noted as ended before anything else happens.
pub proof fn law_evaluations_end_in_order(task: EvaluationTask, input: EvaluationInput)
    ensures
        task_after(task, input) is CancelSession ==> task is StoreFailure && (
        input matches EvaluationInput::Stored(stored) && stored is Ok),
        task is Run && input is Did ==> task_after(task, input) is Finish,
        task_after(task, input) is StoreSuccess || task_after(task, input) is StoreFailure
            ==> task is Finish,
{
}

/// An evaluation that meets no trouble is admitted, gets its session, is begun, registered and
/// permitted, runs, is finished and stored, and is answered with what it made.
pub proof fn law_evaluations_go_on_step_by_step()
    ensures
        task_after(EvaluationTask::Admit, EvaluationInput::Admitted(Ok(())))
            == EvaluationTask::EnsureSession,
        task_after(EvaluationTask::EnsureSession, EvaluationInput::Did(Ok(())))
            == EvaluationTask::Begin,
        task_after(EvaluationTask::Begin, EvaluationInput::Begun(Ok(None)))
            == EvaluationTask::Register,
        task_after(EvaluationTask::Register, EvaluationInput::Did(Ok(())))
            == EvaluationTask::Permit,
        task_after(EvaluationTask::Permit, EvaluationInput::Did(Ok(()))) == EvaluationTask::Run,
        task_after(EvaluationTask::Run, EvaluationInput::Did(Ok(())))
            == EvaluationTask::Finish(None),
        task_after(EvaluationTask::Finish(None), EvaluationInput::Did(Ok(())))
            == EvaluationTask::StoreSuccess,
        task_after(EvaluationTask::StoreSuccess, EvaluationInput::Stored(Ok(None)))
            == EvaluationTask::AnswerDraft,
        task_after(EvaluationTask::ReadStored, EvaluationInput::Did(Ok(())))
            == EvaluationTask::AnswerStored,
{
}

/// What an evaluation in trouble is answered with: a refused admission as it was refused, a missing
/// permit with 503, a failed run with 502 once it is stored and its session is stopped, and a
/// success that came too late with 409.
pub proof fn law_evaluations_in_trouble_are_answered(
    refusal: ErrorReply,
    detail: String,
    record: AssignmentRecord,
    done: Result<(), String>,
)
    ensures
        task_after(EvaluationTask::Admit, EvaluationInput::Admitted(Err(refusal)))
            == EvaluationTask::Refuse(refusal),
        task_after(EvaluationTask::Permit, EvaluationInput::Did(Err(detail))) matches
            EvaluationTask::Refuse(reply) && reply.status == 503 && reply.message@ == detail@,
        task_after(EvaluationTask::Run, EvaluationInput::Did(Err(detail)))
            == EvaluationTask::Finish(Some(detail)),
        task_after(EvaluationTask::Finish(Some(detail)), EvaluationInput::Did(Ok(())))
            == EvaluationTask::StoreFailure(detail),
        task_after(EvaluationTask::StoreFailure(detail), EvaluationInput::Stored(Ok(None))) matches
            EvaluationTask::CancelSession(reply) && reply.status == 502 && reply.message@
            == detail@,
        task_after(EvaluationTask::StoreFailure(detail), EvaluationInput::Stored(Err(detail)))
            matches EvaluationTask::Refuse(reply) && reply.status == 500,
        task_after(EvaluationTask::CancelSession(refusal), EvaluationInput::Did(done))
            == EvaluationTask::Refuse(refusal),
        record.status == WorkAssignmentStatus::Succeeded ==> task_after(
            EvaluationTask::StoreSuccess,
            EvaluationInput::Stored(Ok(Some(record))),
        ) == EvaluationTask::AnswerDraft,
        record.status != WorkAssignmentStatus::Succeeded ==> (task_after(
            EvaluationTask::StoreSuccess,
            EvaluationInput::Stored(Ok(Some(record))),
        ) matches EvaluationTask::Refuse(reply) && reply.status == 409 && reply.message@
            == "Evaluation Assignment '"@ + record.external_id@
            + "' completed locally after its durable status became '"@ + record.status_text@
            + "'"@),
        task_after(EvaluationTask::StoreSuccess, EvaluationInput::Stored(Err(detail))) matches
            EvaluationTask::Refuse(reply) && reply.status == 500,
        record.status == WorkAssignmentStatus::Succeeded && record.has_output ==> task_after(
            EvaluationTask::Begin,
            EvaluationInput::Begun(Ok(Some(record))),
        ) == EvaluationTask::ReadStored,
        !(record.status == WorkAssignmentStatus::Succeeded && record.has_output) ==> (task_after(
            EvaluationTask::Begin,
            EvaluationInput::Begun(Ok(Some(record))),
        ) matches EvaluationTask::Refuse(reply) && reply.status == 409),
{
}

} // verus!
