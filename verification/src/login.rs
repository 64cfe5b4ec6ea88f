use crate::error;
use crate::error::{error_response, sdk_error_response, ErrorReply, Message, SdkError};
use crate::json::Json;
use crate::reply;
use crate::reply::internal_response;
use vstd::prelude::*;

verus! {

/// What a login goes on with.
pub enum Completion {
    /// The address to which the authorization service sent the browser back.
    AuthorizationResponse { response: String },
    /// What the caller submits for a login that it names.
    Given(Json),
}

/// How far a login has come, with what is told of it.
pub enum LoginProgress {
    Pending(Json),
    /// The account has its credential.
    Complete { account_id: String, told: Json },
}

/// What is answered once a login went on. A login that was found by its redirect is named.
pub struct LoginAnswer {
    pub login_id: Option<String>,
    pub progress: Json,
}

/// What is to be done next for a login that goes on.
pub enum LoginTask {
    /// Read the callback state from the address to which a browser was sent back.
    ReadRedirect { redirect_url: String },
    /// Find the login that waits for a callback state.
    FindLogin { state: String, redirect_url: String },
    /// Hand the completion to the login.
    Continue { login_id: String, completion: Completion, by_redirect: bool },
    /// Bind the account to the default agent, where that exists.
    Bind { account_id: String, answer: LoginAnswer },
    Answer(Result<LoginAnswer, ErrorReply>),
}

/// How a task came out.
pub enum LoginInput {
    State(Result<String, String>),
    Login(Result<String, String>),
    Progress(Result<LoginProgress, String>),
    Bound(Result<(), SdkError>),
}

/// A login that is found by the redirect that its browser ended on.
pub fn begin_by_redirect(redirect_url: String) -> (r: LoginTask)
    ensures
        r == (LoginTask::ReadRedirect { redirect_url }),
{
    LoginTask::ReadRedirect { redirect_url }
}

/// A login that the caller names.
pub fn begin_by_name(login_id: String, completion: Json) -> (r: LoginTask)
    ensures
        r == (LoginTask::Continue {
            login_id,
            completion: Completion::Given(completion),
            by_redirect: false,
        }),
{
    LoginTask::Continue {
        login_id,
        completion: Completion::Given(completion),
        by_redirect: false,
    }
}

/// The task that follows another one. A task that gets what it did not ask for fails.
pub open spec fn task_after(task: LoginTask, input: LoginInput) -> LoginTask {
    match (task, input) {
        (LoginTask::ReadRedirect { redirect_url }, LoginInput::State(read)) => match read {
            Ok(state) => LoginTask::FindLogin { state, redirect_url },
            Err(detail) => refused(detail),
        },
        (LoginTask::FindLogin { redirect_url, .. }, LoginInput::Login(found)) => match found {
            Ok(login_id) => LoginTask::Continue {
                login_id,
                completion: Completion::AuthorizationResponse { response: redirect_url },
                by_redirect: true,
            },
            Err(detail) => refused(detail),
        },
        (
            LoginTask::Continue { login_id, by_redirect, .. },
            LoginInput::Progress(progress),
        ) => match progress {
            Ok(LoginProgress::Pending(told)) => LoginTask::Answer(
                Ok(answer_for(login_id, by_redirect, told)),
            ),
            Ok(LoginProgress::Complete { account_id, told }) => LoginTask::Bind {
                account_id,
                answer: answer_for(login_id, by_redirect, told),
            },
            Err(detail) => refused(detail),
        },
        (LoginTask::Bind { answer, .. }, LoginInput::Bound(bound)) => LoginTask::Answer(
            match bound {
                Ok(_) => Ok(answer),
                Err(refusal) => Err(error::sdk_reply(refusal)),
            },
        ),
        _ => LoginTask::Answer(Err(reply::internal_reply())),
    }
}

pub open spec fn refused(detail: String) -> LoginTask {
    LoginTask::Answer(Err(error::error_reply(400, Message::Owned(detail))))
}

pub open spec fn answer_for(login_id: String, by_redirect: bool, told: Json) -> LoginAnswer {
    LoginAnswer {
        login_id: if by_redirect {
            Some(login_id)
        } else {
            None
        },
        progress: told,
    }
}

fn refuse(detail: String) -> (r: LoginTask)
    ensures
        r == refused(detail),
{
    LoginTask::Answer(Err(error_response(400, Message::Owned(detail))))
}

fn answer_with(login_id: String, by_redirect: bool, told: Json) -> (r: LoginAnswer)
    ensures
        r == answer_for(login_id, by_redirect, told),
{
    LoginAnswer {
        login_id: if by_redirect {
            Some(login_id)
        } else {
            None
        },
        progress: told,
    }
}

pub fn next_login_task(task: LoginTask, input: LoginInput) -> (r: LoginTask)
    ensures
        r == task_after(task, input),
{
    match (task, input) {
        (LoginTask::ReadRedirect { redirect_url }, LoginInput::State(read)) => match read {
            Ok(state) => LoginTask::FindLogin { state, redirect_url },
            Err(detail) => refuse(detail),
        },
        (LoginTask::FindLogin { redirect_url, .. }, LoginInput::Login(found)) => match found {
            Ok(login_id) => LoginTask::Continue {
                login_id,
                completion: Completion::AuthorizationResponse { response: redirect_url },
                by_redirect: true,
            },
            Err(detail) => refuse(detail),
        },
        (
            LoginTask::Continue { login_id, by_redirect, .. },
            LoginInput::Progress(progress),
        ) => match progress {
            Ok(LoginProgress::Pending(told)) => LoginTask::Answer(
                Ok(answer_with(login_id, by_redirect, told)),
            ),
            Ok(LoginProgress::Complete { account_id, told }) => LoginTask::Bind {
                account_id,
                answer: answer_with(login_id, by_redirect, told),
            },
            Err(detail) => refuse(detail),
        },
        (LoginTask::Bind { answer, .. }, LoginInput::Bound(bound)) => match bound {
            Ok(_) => LoginTask::Answer(Ok(answer)),
            Err(refusal) => LoginTask::Answer(Err(sdk_error_response(refusal))),
        },
        _ => LoginTask::Answer(Err(internal_response())),
    }
}

/// Where a login stands after a number of tasks.
pub open spec fn task_at(first: LoginTask, inputs: Seq<LoginInput>) -> LoginTask
    decreases inputs.len(),
{
    if inputs.len() == 0 {
        first
    } else {
        task_after(task_at(first, inputs.drop_last()), inputs.last())
    }
}

/// A redirect goes on with the login that waits for the state which the redirect itself carries, and
/// with no other, and that login is handed this very redirect.
pub proof fn law_redirects_go_on_with_their_own_login(
    redirect_url: String,
    inputs: Seq<LoginInput>,
)
    ensures
        task_at(LoginTask::ReadRedirect { redirect_url }, inputs) matches LoginTask::FindLogin {
            state,
            redirect_url: kept,
        } ==> inputs == seq![LoginInput::State(Ok(state))] && kept == redirect_url,
        task_at(LoginTask::ReadRedirect { redirect_url }, inputs) matches LoginTask::Continue {
            login_id,
            completion,
            by_redirect,
        } ==> {
            &&& inputs.len() == 2
            &&& inputs[0] matches LoginInput::State(Ok(_))
            &&& inputs[1] == LoginInput::Login(Ok(login_id))
            &&& completion == (Completion::AuthorizationResponse { response: redirect_url })
            &&& by_redirect
        },
    decreases inputs.len(),
{
    let first = LoginTask::ReadRedirect { redirect_url };
    if inputs.len() > 0 {
        let before = inputs.drop_last();
        law_redirects_go_on_with_their_own_login(redirect_url, before);
        lemma_redirect_is_read_first(redirect_url, before);
        assert(task_at(first, inputs) == task_after(task_at(first, before), inputs.last()));
        if before.len() > 0 {
            assert(inputs[0] == before[0]);
        }
        if task_at(first, inputs) is FindLogin {
            assert(inputs =~= seq![inputs.last()]);
        }
    }
}

proof fn lemma_redirect_is_read_first(redirect_url: String, inputs: Seq<LoginInput>)
    ensures
        task_at(LoginTask::ReadRedirect { redirect_url }, inputs) matches LoginTask::ReadRedirect {
            redirect_url: kept,
        } ==> inputs.len() == 0 && kept == redirect_url,
    decreases inputs.len(),
{
    if inputs.len() > 0 {
        lemma_redirect_is_read_first(redirect_url, inputs.drop_last());
    }
}

/// An account is bound to the default agent when its login is complete, and not before.
pub proof fn law_accounts_are_bound_on_completion_only(task: LoginTask, input: LoginInput)
    ensures
        task_after(task, input) matches LoginTask::Bind { account_id, .. } ==> task is Continue && (
        input matches LoginInput::Progress(Ok(LoginProgress::Complete { account_id: done, .. }))
            && done == account_id),
        task is Continue && (input matches LoginInput::Progress(Ok(LoginProgress::Complete { .. })))
            ==> task_after(task, input) is Bind,
        task is Continue && (input matches LoginInput::Progress(Ok(LoginProgress::Pending(_)))) ==> (
        task_after(task, input) matches LoginTask::Answer(Ok(_))),
{
}

/// A login by redirect reads the state, finds its login and goes on with the very redirect that was
/// given; whatever fails on the way is a bad request with the words of the failure.
pub proof fn law_redirects_lead_to_their_login(
    redirect_url: String,
    state: String,
    login_id: String,
    detail: String,
)
    ensures
        task_after(LoginTask::ReadRedirect { redirect_url }, LoginInput::State(Ok(state))) == (
        LoginTask::FindLogin { state, redirect_url }),
        task_after(
            (LoginTask::FindLogin { state, redirect_url }),
            LoginInput::Login(Ok(login_id)),
        ) == (LoginTask::Continue {
            login_id,
            completion: (Completion::AuthorizationResponse { response: redirect_url }),
            by_redirect: true,
        }),
        task_after(LoginTask::ReadRedirect { redirect_url }, LoginInput::State(Err(detail)))
            matches LoginTask::Answer(Err(reply)) && reply.status == 400 && reply.message@
            == detail@,
        task_after((LoginTask::FindLogin { state, redirect_url }), LoginInput::Login(Err(detail)))
            matches LoginTask::Answer(Err(reply)) && reply.status == 400 && reply.message@
            == detail@,
{
}

/// A login that goes on is answered with what it told; a finished one binds its account first, and is
/// answered with what it told once that is done. Only a login by redirect is told its name.
pub proof fn law_logins_tell_their_progress(
    login_id: String,
    completion: Completion,
    by_redirect: bool,
    account_id: String,
    told: Json,
    answer: LoginAnswer,
    refusal: SdkError,
    detail: String,
)
    ensures
        ({
            let going_on = LoginTask::Continue { login_id, completion, by_redirect };
            let pending = task_after(going_on, LoginInput::Progress(Ok(LoginProgress::Pending(told))));
            let complete = task_after(
                going_on,
                LoginInput::Progress(Ok(LoginProgress::Complete { account_id, told })),
            );
            let failed = task_after(going_on, LoginInput::Progress(Err(detail)));
            &&& pending matches LoginTask::Answer(Ok(a)) && a.progress == told && (
            a.login_id is Some <==> by_redirect) && (by_redirect ==> a.login_id == Some(login_id))
            &&& complete matches LoginTask::Bind { account_id: bound, answer: a } && bound
                == account_id && a.progress == told && (a.login_id is Some <==> by_redirect) && (
            by_redirect ==> a.login_id == Some(login_id))
            &&& failed matches LoginTask::Answer(Err(reply)) && reply.status == 400
                && reply.message@ == detail@
        }),
        task_after((LoginTask::Bind { account_id, answer }), LoginInput::Bound(Ok(())))
            == LoginTask::Answer(Ok(answer)),
        task_after((LoginTask::Bind { account_id, answer }), LoginInput::Bound(Err(refusal)))
            == LoginTask::Answer(Err(error::sdk_reply(refusal))),
{
}

} // verus!
