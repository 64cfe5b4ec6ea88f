use crate::error;
use crate::error::{error_response, ErrorReply, Message};
use crate::headers;
use crate::inference;
use crate::inference::{find_option, holds_level, holds_model, ModelOption};
use crate::json::Json;
use crate::reply;
use crate::reply::{bounded_limit, internal_response, value_reply, Body, Reply};
use crate::text;
use crate::text::{same, take_chars, trim};
use vstd::prelude::*;

verus! {

#[derive(PartialEq, Eq, Structural, Clone, Copy, Debug)]
pub enum SessionStatus {
    Active,
    Archived,
}

/// What a session may do: a preset of the runtime, or a policy of its own.
pub enum PermissionMode {
    Custom,
    Preset(String),
}

/// A change of a session, as it is asked for. An empty text stands for the runtime's own value.
pub struct UpdateSessionRequest {
    pub title: Option<String>,
    pub status: Option<SessionStatus>,
    pub model_alias: Option<String>,
    pub reasoning_effort: Option<String>,
    pub permission_mode: Option<PermissionMode>,
    pub sandbox_mode: Option<String>,
    pub default_target_id: Option<String>,
    pub context_sharing: Option<String>,
}

/// A setting of a session: left alone, given back to the runtime, or set.
pub enum Setting {
    Keep,
    Inherit,
    Value(String),
}

/// The mathematical form of [`Setting`].
pub enum SettingView {
    Keep,
    Inherit,
    Value(Seq<char>),
}

impl Setting {
    pub open spec fn view(&self) -> SettingView {
        match self {
            Setting::Keep => SettingView::Keep,
            Setting::Inherit => SettingView::Inherit,
            Setting::Value(value) => SettingView::Value(value@),
        }
    }

    pub fn is_keep(&self) -> (r: bool)
        ensures
            r == (*self is Keep),
    {
        match self {
            Setting::Keep => true,
            _ => false,
        }
    }
}

/// The setting that a text stands for: an empty one inherits.
pub open spec fn setting_of(value: Option<String>) -> SettingView {
    match value {
        None => SettingView::Keep,
        Some(given) => if text::trimmed(given@).len() == 0 {
            SettingView::Inherit
        } else {
            SettingView::Value(text::trimmed(given@))
        },
    }
}

fn setting(value: &Option<String>) -> (r: Setting)
    ensures
        r@ == setting_of(*value),
{
    match value {
        None => Setting::Keep,
        Some(given) => {
            let rest = trim(given.as_str());
            if rest.is_empty() {
                Setting::Inherit
            } else {
                Setting::Value(rest.to_owned())
            }
        },
    }
}

/// The title that a session gets.
pub open spec fn new_title(title: Option<String>) -> Option<Seq<char>> {
    match title {
        Some(given) => Some(text::first_chars(text::trimmed(given@), 200)),
        None => None,
    }
}

/// A change of a session with its texts brought into form.
pub struct SessionChange {
    pub title: Option<String>,
    pub status: Option<SessionStatus>,
    pub model_alias: Setting,
    pub reasoning_effort: Setting,
    pub permission_mode: Option<PermissionMode>,
    pub sandbox_mode: Option<String>,
    pub default_target: Setting,
    pub context_sharing: Option<String>,
}

/// Whether a requested reasoning level means the model's own default.
pub open spec fn is_default_effort(value: Seq<char>) -> bool {
    let word = text::trimmed(value);
    word.len() == 0 || word == "provider_default"@ || word == "default"@
}

/// The reasoning level that a request leads to. `parsed` is what the runtime's parser made of it.
pub open spec fn effort_setting(value: Option<String>, parsed: Option<String>) -> Option<SettingView> {
    match value {
        None => Some(SettingView::Keep),
        Some(given) => if is_default_effort(given@) {
            Some(SettingView::Inherit)
        } else {
            match parsed {
                Some(level) => Some(SettingView::Value(level@)),
                None => None,
            }
        },
    }
}

/// Whether a model is offered; a request that names none needs no offer.
pub open spec fn model_is_offered(
    request: UpdateSessionRequest,
    options: Result<Seq<ModelOption>, String>,
) -> bool {
    match setting_of(request.model_alias) {
        SettingView::Value(model) => options matches Ok(list) && inference::offers_model(list, model),
        _ => true,
    }
}

/// What is refused about a change before the session is looked at.
pub open spec fn change_fault(
    request: UpdateSessionRequest,
    options: Result<Seq<ModelOption>, String>,
    parsed: Option<String>,
) -> Option<(u16, Seq<char>)> {
    if new_title(request.title) matches Some(title) && title.len() == 0 {
        Some((400, "title must not be empty"@))
    } else if request.permission_mode matches Some(PermissionMode::Custom) {
        Some(
            (
                400,
                "custom permission mode requires a complete Runtime policy and is not a Session preset"@,
            ),
        )
    } else if !model_is_offered(request, options) {
        if options is Err {
            Some((500, error::INTERNAL_MESSAGE@))
        } else {
            Some(
                (
                    400,
                    "model '"@ + setting_of(request.model_alias)->Value_0
                        + "' is not in the discovered and enabled model catalog"@,
                ),
            )
        }
    } else if effort_setting(request.reasoning_effort, parsed) is None {
        Some((400, "unsupported reasoning effort '"@ + request.reasoning_effort->0@ + "'"@))
    } else {
        None
    }
}

/// Whether a reply refuses with this status and these words.
pub open spec fn refuses_with(refusal: ErrorReply, fault: (u16, Seq<char>)) -> bool {
    &&& refusal.status == fault.0
    &&& refusal.code == error::code_for_status(fault.0)
    &&& refusal.message@ == fault.1
}

pub open spec fn is_change_of(
    change: SessionChange,
    request: UpdateSessionRequest,
    parsed: Option<String>,
) -> bool {
    &&& headers::opt_string(change.title) == new_title(request.title)
    &&& change.status == request.status
    &&& change.model_alias@ == setting_of(request.model_alias)
    &&& Some(change.reasoning_effort@) == effort_setting(request.reasoning_effort, parsed)
    &&& change.permission_mode == request.permission_mode
    &&& change.sandbox_mode == request.sandbox_mode
    &&& change.default_target@ == setting_of(request.default_target_id)
    &&& change.context_sharing == request.context_sharing
}

pub open spec fn listed(options: Result<Vec<ModelOption>, String>) -> Result<
    Seq<ModelOption>,
    String,
> {
    match options {
        Ok(list) => Ok(list@),
        Err(detail) => Err(detail),
    }
}

/// Brings a change into form and checks what can be checked without the session. `options` is the
/// model catalog, `parsed` what the runtime's parser made of the reasoning level.
pub fn check_session_change(
    request: UpdateSessionRequest,
    options: &Result<Vec<ModelOption>, String>,
    parsed: Option<String>,
) -> (r: Result<SessionChange, ErrorReply>)
    ensures
        match change_fault(request, listed(*options), parsed) {
            Some(fault) => r matches Err(refusal) && refuses_with(refusal, fault),
            None => r matches Ok(change) && is_change_of(change, request, parsed),
        },
{
    let title: Option<String> = match &request.title {
        Some(given) => Some(take_chars(trim(given.as_str()), 200).to_owned()),
        None => None,
    };
    match &title {
        Some(text) => {
            if text.as_str().is_empty() {
                return Err(error_response(400, Message::Fixed("title must not be empty")));
            }
        },
        None => {},
    }
    match &request.permission_mode {
        Some(PermissionMode::Custom) => {
            return Err(
                error_response(
                    400,
                    Message::Fixed(
                        "custom permission mode requires a complete Runtime policy and is not a Session preset",
                    ),
                ),
            );
        },
        _ => {},
    }
    let model_alias = setting(&request.model_alias);
    match &model_alias {
        Setting::Value(model) => match options {
            Err(_) => {
                return Err(internal_response());
            },
            Ok(list) => {
                if !holds_model(list, model.as_str()) {
                    return Err(
                        error_response(
                            400,
                            Message::Around {
                                before: "model '",
                                value: model.clone(),
                                after: "' is not in the discovered and enabled model catalog",
                            },
                        ),
                    );
                }
            },
        },
        _ => {},
    }
    let reasoning_effort: Setting = match &request.reasoning_effort {
        None => Setting::Keep,
        Some(value) => {
            let word = trim(value.as_str());
            if word.is_empty() || same(word, "provider_default") || same(word, "default") {
                Setting::Inherit
            } else {
                match parsed {
                    Some(level) => Setting::Value(level),
                    None => {
                        return Err(
                            error_response(
                                400,
                                Message::Around {
                                    before: "unsupported reasoning effort '",
                                    value: value.clone(),
                                    after: "'",
                                },
                            ),
                        );
                    },
                }
            }
        },
    };
    Ok(
        SessionChange {
            title,
            status: request.status,
            model_alias,
            reasoning_effort,
            permission_mode: request.permission_mode,
            sandbox_mode: request.sandbox_mode,
            default_target: setting(&request.default_target_id),
            context_sharing: request.context_sharing,
        },
    )
}

/// What a session has been set to so far.
pub struct SessionSettings {
    pub model_alias: Option<String>,
    pub reasoning_effort: Option<String>,
}

/// Whether a change touches how the session thinks, so that the two settings must fit.
pub open spec fn changes_thinking(change: SessionChange) -> bool {
    !(change.model_alias is Keep) || !(change.reasoning_effort is Keep)
}

/// The model that a session has after a change.
pub open spec fn effective_model(
    change: SessionChange,
    existing: SessionSettings,
    runtime_model: String,
) -> String {
    match change.model_alias {
        Setting::Value(model) => model,
        Setting::Inherit => runtime_model,
        Setting::Keep => match existing.model_alias {
            Some(model) => model,
            None => runtime_model,
        },
    }
}

/// The reasoning level that a session has after a change.
pub open spec fn effective_effort(change: SessionChange, existing: SessionSettings) -> Option<
    String,
> {
    match change.reasoning_effort {
        Setting::Value(level) => Some(level),
        Setting::Inherit => None,
        Setting::Keep => existing.reasoning_effort,
    }
}

/// Why the model and the reasoning level that a change leads to do not fit.
pub open spec fn thinking_fault(
    change: SessionChange,
    session_id: String,
    existing: Result<Option<SessionSettings>, String>,
    runtime_model: String,
    options: Result<Seq<ModelOption>, String>,
) -> Option<ErrorReply> {
    if !changes_thinking(change) {
        None
    } else {
        match existing {
            Err(_) => Some(reply::internal_reply()),
            Ok(None) => Some(
                error::error_reply(
                    404,
                    Message::Around {
                        before: "Session '",
                        value: session_id,
                        after: "' does not exist",
                    },
                ),
            ),
            Ok(Some(settings)) => match effective_effort(change, settings) {
                None => None,
                Some(level) => match options {
                    Err(_) => Some(reply::internal_reply()),
                    Ok(list) => {
                        let model = effective_model(change, settings, runtime_model);
                        match inference::refused_levels(list, model@, Some(level)) {
                            Some(_) => Some(
                                error::error_reply(
                                    400,
                                    Message::Pair {
                                        before: "reasoning effort '",
                                        first: level,
                                        between: "' is not supported by model '",
                                        second: model,
                                        after: "'",
                                    },
                                ),
                            ),
                            None => None,
                        }
                    },
                },
            },
        }
    }
}

/// Whether the declared levels of a model leave a level out.
fn leaves_out(options: &Vec<ModelOption>, model: &str, level: &String) -> (r: bool)
    ensures
        r == (inference::refused_levels(options@, model@, Some(*level)) is Some),
{
    match find_option(options, model) {
        Some(option) => match &option.supported_reasoning_efforts {
            Some(levels) => !holds_level(levels, level.as_str()),
            None => false,
        },
        None => false,
    }
}

/// Checks that the model and the reasoning level that a change leads to fit.
pub fn check_session_thinking(
    change: &SessionChange,
    session_id: &String,
    existing: Result<Option<SessionSettings>, String>,
    runtime_model: &String,
    options: &Result<Vec<ModelOption>, String>,
) -> (r: Result<(), ErrorReply>)
    ensures
        r == match thinking_fault(*change, *session_id, existing, *runtime_model, listed(*options)) {
            Some(refusal) => Err::<(), ErrorReply>(refusal),
            None => Ok(()),
        },
{
    if change.model_alias.is_keep() && change.reasoning_effort.is_keep() {
        return Ok(());
    }
    let settings = match existing {
        Err(_) => {
            return Err(internal_response());
        },
        Ok(None) => {
            return Err(
                error_response(
                    404,
                    Message::Around {
                        before: "Session '",
                        value: session_id.clone(),
                        after: "' does not exist",
                    },
                ),
            );
        },
        Ok(Some(settings)) => settings,
    };
    let model: String = match &change.model_alias {
        Setting::Value(model) => model.clone(),
        Setting::Inherit => runtime_model.clone(),
        Setting::Keep => match settings.model_alias {
            Some(model) => model,
            None => runtime_model.clone(),
        },
    };
    let level: String = match &change.reasoning_effort {
        Setting::Value(level) => level.clone(),
        Setting::Inherit => {
            return Ok(());
        },
        Setting::Keep => match settings.reasoning_effort {
            Some(level) => level,
            None => {
                return Ok(());
            },
        },
    };
    match options {
        Err(_) => Err(internal_response()),
        Ok(list) => if leaves_out(list, model.as_str(), &level) {
            Err(
                error_response(
                    400,
                    Message::Pair {
                        before: "reasoning effort '",
                        first: level,
                        between: "' is not supported by model '",
                        second: model,
                        after: "'",
                    },
                ),
            )
        } else {
            Ok(())
        },
    }
}

/// The actions of an operator on a session, in the order in which they are done.
#[derive(PartialEq, Eq, Structural, Clone, Copy, Debug)]
pub enum OperatorAction {
    /// Set where the session works, in the operator's own name.
    SetTarget,
    /// Set how the session thinks.
    SetEvaluation,
    /// Set what the session may do.
    SetPermissions,
    /// Set how the session shares its context, and answer with the session.
    SetSharing,
    /// Answer with the session.
    Read,
}

/// Who carries out a change of a session.
pub enum UpdateRoute {
    /// The operator, starting with this action.
    Operator(OperatorAction),
    /// The principal, as one change.
    Participant,
}

/// Whether a change is only about settings that an operator keeps.
pub open spec fn is_operator_change(change: SessionChange) -> bool {
    &&& change.title is None
    &&& change.status is None
    &&& !(change.model_alias is Keep) || !(change.reasoning_effort is Keep)
        || change.permission_mode is Some || change.sandbox_mode is Some || !(
    change.default_target is Keep) || change.context_sharing is Some
}

/// The operator's action at or after this one that a change calls for.
pub open spec fn action_from(change: SessionChange, action: OperatorAction) -> OperatorAction {
    match action {
        OperatorAction::SetTarget => if !(change.default_target is Keep) {
            OperatorAction::SetTarget
        } else {
            evaluation_action(change)
        },
        OperatorAction::SetEvaluation => evaluation_action(change),
        OperatorAction::SetPermissions => permission_action(change),
        _ => last_action(change),
    }
}

pub open spec fn evaluation_action(change: SessionChange) -> OperatorAction {
    if changes_thinking(change) {
        OperatorAction::SetEvaluation
    } else {
        permission_action(change)
    }
}

pub open spec fn permission_action(change: SessionChange) -> OperatorAction {
    if change.permission_mode is Some || change.sandbox_mode is Some {
        OperatorAction::SetPermissions
    } else {
        last_action(change)
    }
}

pub open spec fn last_action(change: SessionChange) -> OperatorAction {
    if change.context_sharing is Some {
        OperatorAction::SetSharing
    } else {
        OperatorAction::Read
    }
}

/// The operator's action that follows one that succeeded.
pub open spec fn action_after(change: SessionChange, action: OperatorAction) -> OperatorAction {
    match action {
        OperatorAction::SetTarget => evaluation_action(change),
        OperatorAction::SetEvaluation => permission_action(change),
        OperatorAction::SetPermissions => last_action(change),
        OperatorAction::SetSharing => OperatorAction::SetSharing,
        OperatorAction::Read => OperatorAction::Read,
    }
}

/// Who carries out a change. Only an operator changes how a session shares its context, and not
/// together with what its participants own.
pub open spec fn update_route(change: SessionChange, operator: bool) -> Result<
    UpdateRoute,
    ErrorReply,
> {
    if change.context_sharing is Some && (change.title is Some || change.status is Some) {
        Err(
            error::error_reply(
                400,
                Message::Fixed(
                    "context_sharing cannot be combined with participant-owned title or status changes",
                ),
            ),
        )
    } else if operator && is_operator_change(change) {
        Ok(UpdateRoute::Operator(action_from(change, OperatorAction::SetTarget)))
    } else if change.context_sharing is Some {
        Err(
            error::error_reply(
                403,
                Message::Fixed("only the Operator may change Session context sharing"),
            ),
        )
    } else {
        Ok(UpdateRoute::Participant)
    }
}

fn evaluation_step(change: &SessionChange) -> (r: OperatorAction)
    ensures
        r == evaluation_action(*change),
{
    if !change.model_alias.is_keep() || !change.reasoning_effort.is_keep() {
        OperatorAction::SetEvaluation
    } else {
        permission_step(change)
    }
}

fn permission_step(change: &SessionChange) -> (r: OperatorAction)
    ensures
        r == permission_action(*change),
{
    if change.permission_mode.is_some() || change.sandbox_mode.is_some() {
        OperatorAction::SetPermissions
    } else {
        last_step(change)
    }
}

fn last_step(change: &SessionChange) -> (r: OperatorAction)
    ensures
        r == last_action(*change),
{
    if change.context_sharing.is_some() {
        OperatorAction::SetSharing
    } else {
        OperatorAction::Read
    }
}

pub fn route_session_update(change: &SessionChange, operator: bool) -> (r: Result<
    UpdateRoute,
    ErrorReply,
>)
    ensures
        r == update_route(*change, operator),
{
    if change.context_sharing.is_some() && (change.title.is_some() || change.status.is_some()) {
        return Err(
            error_response(
                400,
                Message::Fixed(
                    "context_sharing cannot be combined with participant-owned title or status changes",
                ),
            ),
        );
    }
    if operator && change.title.is_none() && change.status.is_none() && (
    !change.model_alias.is_keep() || !change.reasoning_effort.is_keep()
        || change.permission_mode.is_some() || change.sandbox_mode.is_some()
        || !change.default_target.is_keep() || change.context_sharing.is_some()) {
        let first = if !change.default_target.is_keep() {
            OperatorAction::SetTarget
        } else {
            evaluation_step(change)
        };
        return Ok(UpdateRoute::Operator(first));
    }
    if change.context_sharing.is_some() {
        return Err(
            error_response(
                403,
                Message::Fixed("only the Operator may change Session context sharing"),
            ),
        );
    }
    Ok(UpdateRoute::Participant)
}

/// The operator's action that follows one that succeeded.
pub fn next_operator_action(change: &SessionChange, action: OperatorAction) -> (r: OperatorAction)
    ensures
        r == action_after(*change, action),
{
    match action {
        OperatorAction::SetTarget => evaluation_step(change),
        OperatorAction::SetEvaluation => permission_step(change),
        OperatorAction::SetPermissions => last_step(change),
        OperatorAction::SetSharing => OperatorAction::SetSharing,
        OperatorAction::Read => OperatorAction::Read,
    }
}

/// What is told of a session once the operator's changes are made.
pub fn session_reply(session_id: String, found: Result<Option<Json>, String>) -> (r: Result<
    Reply,
    ErrorReply,
>)
    ensures
        r == match found {
            Ok(Some(session)) => Ok::<Reply, ErrorReply>(
                Reply { status: 200, body: Body::Value(session) },
            ),
            Ok(None) => Err(
                error::error_reply(
                    404,
                    Message::Around {
                        before: "Session '",
                        value: session_id,
                        after: "' does not exist",
                    },
                ),
            ),
            Err(_) => Err(reply::internal_reply()),
        },
{
    match found {
        Ok(Some(session)) => Ok(value_reply(200, session)),
        Ok(None) => Err(
            error_response(
                404,
                Message::Around {
                    before: "Session '",
                    value: session_id,
                    after: "' does not exist",
                },
            ),
        ),
        Err(_) => Err(internal_response()),
    }
}

/// A target that a session may work on.
pub struct TargetRef {
    pub id: String,
    pub accepts_jobs: bool,
    pub in_process: bool,
}

/// Where the target of a session comes from.
#[derive(PartialEq, Eq, Structural, Clone, Copy, Debug)]
pub enum TargetSource {
    Session,
    RuntimeLocal,
    Nowhere,
}

/// Whether a session can work, or why not.
#[derive(PartialEq, Eq, Structural, Clone, Copy, Debug)]
pub enum TargetReason {
    Ready,
    SelectedTargetOffline,
    SelectedTargetUnavailable,
    LocalTargetUnavailable,
    ExecutionTargetRequired,
    TargetSelectionRequired,
}

impl TargetSource {
    pub open spec fn spec_as_str(self) -> &'static str {
        match self {
            TargetSource::Session => "session",
            TargetSource::RuntimeLocal => "runtime_local",
            TargetSource::Nowhere => "none",
        }
    }

    pub fn as_str(self) -> (r: &'static str)
        ensures
            r == self.spec_as_str(),
    {
        match self {
            TargetSource::Session => "session",
            TargetSource::RuntimeLocal => "runtime_local",
            TargetSource::Nowhere => "none",
        }
    }
}

impl TargetReason {
    pub open spec fn spec_as_str(self) -> &'static str {
        match self {
            TargetReason::Ready => "ready",
            TargetReason::SelectedTargetOffline => "selected_target_offline",
            TargetReason::SelectedTargetUnavailable => "selected_target_unavailable",
            TargetReason::LocalTargetUnavailable => "local_target_unavailable",
            TargetReason::ExecutionTargetRequired => "execution_target_required",
            TargetReason::TargetSelectionRequired => "target_selection_required",
        }
    }

    pub fn as_str(self) -> (r: &'static str)
        ensures
            r == self.spec_as_str(),
    {
        match self {
            TargetReason::Ready => "ready",
            TargetReason::SelectedTargetOffline => "selected_target_offline",
            TargetReason::SelectedTargetUnavailable => "selected_target_unavailable",
            TargetReason::LocalTargetUnavailable => "local_target_unavailable",
            TargetReason::ExecutionTargetRequired => "execution_target_required",
            TargetReason::TargetSelectionRequired => "target_selection_required",
        }
    }
}

/// Where a session works.
pub struct TargetSelection {
    pub effective_target_id: Option<String>,
    pub source: TargetSource,
    pub ready: bool,
    pub reason: TargetReason,
    /// Whether the user has to install a target first.
    pub onboarding_required: bool,
}

/// Whether the target with an identifier takes jobs, `None` where there is none.
pub open spec fn target_accepts(targets: Seq<TargetRef>, id: Seq<char>) -> Option<bool>
    decreases targets.len(),
{
    if targets.len() == 0 {
        None
    } else if targets[0].id@ == id {
        Some(targets[0].accepts_jobs)
    } else {
        target_accepts(targets.drop_first(), id)
    }
}

pub open spec fn has_user_target(targets: Seq<TargetRef>) -> bool {
    exists|i: int| 0 <= i < targets.len() && !(#[trigger] targets[i]).in_process
}

/// Where a session works: on the target that was selected for it, else locally where that is
/// enabled, else nowhere until one is selected or installed.
pub open spec fn target_selection(
    selected: Option<String>,
    local_enabled: bool,
    local_target_id: String,
    targets: Seq<TargetRef>,
) -> TargetSelection {
    let (effective_target_id, source, reason) = match selected {
        Some(id) => (
            Some(id),
            TargetSource::Session,
            match target_accepts(targets, id@) {
                Some(true) => TargetReason::Ready,
                Some(false) => TargetReason::SelectedTargetOffline,
                None => TargetReason::SelectedTargetUnavailable,
            },
        ),
        None => if local_enabled {
            (
                Some(local_target_id),
                TargetSource::RuntimeLocal,
                if target_accepts(targets, local_target_id@) == Some(true) {
                    TargetReason::Ready
                } else {
                    TargetReason::LocalTargetUnavailable
                },
            )
        } else if has_user_target(targets) {
            (None, TargetSource::Nowhere, TargetReason::TargetSelectionRequired)
        } else {
            (None, TargetSource::Nowhere, TargetReason::ExecutionTargetRequired)
        },
    };
    TargetSelection {
        effective_target_id,
        source,
        ready: reason == TargetReason::Ready,
        reason,
        onboarding_required: reason == TargetReason::ExecutionTargetRequired,
    }
}

fn accepts(targets: &Vec<TargetRef>, id: &str) -> (r: Option<bool>)
    ensures
        r == target_accepts(targets@, id@),
{
    let mut i: usize = 0;
    proof {
        assert(targets@.subrange(0, targets@.len() as int) =~= targets@);
    }
    while i < targets.len()
        invariant
            0 <= i <= targets.len(),
            target_accepts(targets@, id@) == target_accepts(
                targets@.subrange(i as int, targets@.len() as int),
                id@,
            ),
        decreases targets.len() - i,
    {
        proof {
            assert(targets@.subrange(i as int, targets@.len() as int).drop_first()
                =~= targets@.subrange(i + 1, targets@.len() as int));
        }
        if same(targets[i].id.as_str(), id) {
            return Some(targets[i].accepts_jobs);
        }
        i = i + 1;
    }
    None
}

fn user_target_exists(targets: &Vec<TargetRef>) -> (r: bool)
    ensures
        r == has_user_target(targets@),
{
    let mut i: usize = 0;
    while i < targets.len()
        invariant
            0 <= i <= targets.len(),
            forall|j: int| 0 <= j < i ==> (#[trigger] targets@[j]).in_process,
        decreases targets.len() - i,
    {
        if !targets[i].in_process {
            proof {
                assert(!targets@[i as int].in_process);
            }
            return true;
        }
        i = i + 1;
    }
    false
}

pub fn select_session_target(
    selected: Option<String>,
    local_enabled: bool,
    local_target_id: String,
    targets: &Vec<TargetRef>,
) -> (r: TargetSelection)
    ensures
        r == target_selection(selected, local_enabled, local_target_id, targets@),
{
    let (effective_target_id, source, reason) = match selected {
        Some(id) => {
            let reason = match accepts(targets, id.as_str()) {
                Some(true) => TargetReason::Ready,
                Some(false) => TargetReason::SelectedTargetOffline,
                None => TargetReason::SelectedTargetUnavailable,
            };
            (Some(id), TargetSource::Session, reason)
        },
        None => if local_enabled {
            let reason = match accepts(targets, local_target_id.as_str()) {
                Some(true) => TargetReason::Ready,
                _ => TargetReason::LocalTargetUnavailable,
            };
            (Some(local_target_id), TargetSource::RuntimeLocal, reason)
        } else if user_target_exists(targets) {
            (None, TargetSource::Nowhere, TargetReason::TargetSelectionRequired)
        } else {
            (None, TargetSource::Nowhere, TargetReason::ExecutionTargetRequired)
        },
    };
    TargetSelection {
        effective_target_id,
        source,
        ready: reason == TargetReason::Ready,
        reason,
        onboarding_required: reason == TargetReason::ExecutionTargetRequired,
    }
}

/// How many events a page of a session's history holds. A page goes forward or back, not both.
pub fn check_events_query(
    limit: Option<u64>,
    after_sequence: Option<u64>,
    before_sequence: Option<u64>,
) -> (r: Result<u64, ErrorReply>)
    ensures
        r == if after_sequence is Some && before_sequence is Some {
            Err::<u64, ErrorReply>(
                error::error_reply(
                    400,
                    Message::Fixed("after_sequence and before_sequence cannot be used together"),
                ),
            )
        } else {
            Ok(
                reply::clamped(
                    match limit {
                        Some(n) => n,
                        None => 100,
                    },
                    1,
                    1000,
                ),
            )
        },
{
    if after_sequence.is_some() && before_sequence.is_some() {
        return Err(
            error_response(
                400,
                Message::Fixed("after_sequence and before_sequence cannot be used together"),
            ),
        );
    }
    Ok(bounded_limit(limit, 100, 1, 1000))
}

/// The largest of the sequence numbers that are there.
pub open spec fn latest_of(sequences: Seq<Option<u64>>) -> Option<u64>
    decreases sequences.len(),
{
    if sequences.len() == 0 {
        None
    } else {
        match (latest_of(sequences.drop_last()), sequences.last()) {
            (None, newest) => newest,
            (Some(n), None) => Some(n),
            (Some(n), Some(m)) => Some(
                if m > n {
                    m
                } else {
                    n
                },
            ),
        }
    }
}

/// The ends of a page of events: where an older page goes on, and the newest event of this one.
pub struct EventsWindow {
    pub next_before_sequence: Option<u64>,
    pub latest_sequence: Option<u64>,
}

/// The ends of a page, given the sequence numbers of its events in order. A page that is not full
/// has nothing older behind it.
pub fn events_window(sequences: &Vec<Option<u64>>, limit: u64) -> (r: EventsWindow)
    ensures
        r.next_before_sequence == if sequences@.len() == limit && sequences@.len() > 0 {
            sequences@[0]
        } else {
            None
        },
        r.latest_sequence == latest_of(sequences@),
{
    let mut latest: Option<u64> = None;
    let mut i: usize = 0;
    proof {
        assert(sequences@.subrange(0, 0) =~= Seq::<Option<u64>>::empty());
    }
    while i < sequences.len()
        invariant
            0 <= i <= sequences.len(),
            latest == latest_of(sequences@.subrange(0, i as int)),
        decreases sequences.len() - i,
    {
        proof {
            assert(sequences@.subrange(0, i + 1).drop_last() =~= sequences@.subrange(0, i as int));
        }
        match (latest, sequences[i]) {
            (None, newest) => {
                latest = newest;
            },
            (Some(n), Some(m)) => {
                if m > n {
                    latest = Some(m);
                }
            },
            (Some(_), None) => {},
        }
        i = i + 1;
    }
    proof {
        assert(sequences@.subrange(0, sequences@.len() as int) =~= sequences@);
    }
    let next_before_sequence: Option<u64> = if sequences.len() as u64 == limit && sequences.len()
        > 0 {
        sequences[0]
    } else {
        None
    };
    EventsWindow { next_before_sequence, latest_sequence: latest }
}

/// How a session shares its context is only ever changed by an operator.
pub proof fn law_only_operators_change_context_sharing(change: SessionChange)
    requires
        change.context_sharing is Some,
    ensures
        update_route(change, false) is Err,
        update_route(change, true) matches Ok(route) ==> route is Operator,
{
}

/// An operator never renames or archives a session in a participant's place.
pub proof fn law_operators_leave_title_and_status_to_participants(change: SessionChange)
    requires
        change.title is Some || change.status is Some,
    ensures
        !(update_route(change, true) matches Ok(UpdateRoute::Operator(_))),
{
}

/// The actions of an operator end with an answer after at most three others.
pub proof fn law_operator_actions_end_with_an_answer(change: SessionChange)
    ensures
        ({
            let a = action_from(change, OperatorAction::SetTarget);
            let b = action_after(change, a);
            let c = action_after(change, b);
            let d = action_after(change, c);
            d == OperatorAction::Read || d == OperatorAction::SetSharing
        }),
{
}

/// A session that is ready works on a target that takes jobs.
pub proof fn law_ready_session_has_a_working_target(
    selected: Option<String>,
    local_enabled: bool,
    local_target_id: String,
    targets: Seq<TargetRef>,
)
    requires
        target_selection(selected, local_enabled, local_target_id, targets).ready,
    ensures
        target_selection(
            selected,
            local_enabled,
            local_target_id,
            targets,
        ).effective_target_id matches Some(id) && target_accepts(targets, id@) == Some(true),
{
}

/// An accepted change holds what the request asks for, field by field, and nothing that it does not
/// ask for. Texts are trimmed, a title is cut after 200 characters, and an empty text gives a setting
/// back to the runtime.
pub proof fn law_accepted_changes_are_what_was_asked(
    change: SessionChange,
    request: UpdateSessionRequest,
    parsed: Option<String>,
)
    requires
        is_change_of(change, request, parsed),
    ensures
        change.status == request.status,
        change.permission_mode == request.permission_mode,
        change.sandbox_mode == request.sandbox_mode,
        change.context_sharing == request.context_sharing,
        change.title is Some <==> request.title is Some,
        request.title matches Some(given) ==> change.title->0@ == text::first_chars(
            text::trimmed(given@),
            200,
        ),
        change.model_alias is Keep <==> request.model_alias is None,
        request.model_alias matches Some(given) ==> if text::trimmed(given@).len() == 0 {
            change.model_alias is Inherit
        } else {
            change.model_alias matches Setting::Value(model) && model@ == text::trimmed(given@)
        },
        change.default_target is Keep <==> request.default_target_id is None,
        request.default_target_id matches Some(given) ==> if text::trimmed(given@).len() == 0 {
            change.default_target is Inherit
        } else {
            change.default_target matches Setting::Value(target) && target@ == text::trimmed(given@)
        },
        change.reasoning_effort is Keep <==> request.reasoning_effort is None,
        request.reasoning_effort matches Some(given) ==> if text::trimmed(given@).len() == 0
            || text::trimmed(given@) == "provider_default"@ || text::trimmed(given@)
            == "default"@ {
            change.reasoning_effort is Inherit
        } else {
            parsed matches Some(level) && (change.reasoning_effort matches Setting::Value(set)
                && set@ == level@)
        },
{
}

/// A change is refused for an empty title, for a permission mode that is no preset, for a model that
/// is not offered, and for a reasoning level that the runtime does not know; in that order, and for
/// nothing else.
pub proof fn law_changes_are_refused_for_cause_only(
    request: UpdateSessionRequest,
    options: Result<Seq<ModelOption>, String>,
    parsed: Option<String>,
)
    ensures
        ({
            let empty_title = request.title matches Some(given) && text::first_chars(
                text::trimmed(given@),
                200,
            ).len() == 0;
            let custom = request.permission_mode matches Some(PermissionMode::Custom);
            let names_model = request.model_alias matches Some(given) && text::trimmed(
                given@,
            ).len() > 0;
            let unoffered = names_model && !(options matches Ok(list) && exists|i: int|
                0 <= i < list.len() && (#[trigger] list[i]).id@ == text::trimmed(
                    request.model_alias->0@,
                ));
            let unknown_level = parsed is None && (request.reasoning_effort matches Some(given)
                && text::trimmed(given@).len() > 0 && text::trimmed(given@) != "provider_default"@
                && text::trimmed(given@) != "default"@);
            match change_fault(request, options, parsed) {
                None => !empty_title && !custom && !unoffered && !unknown_level,
                Some((status, words)) => if empty_title {
                    status == 400 && words == "title must not be empty"@
                } else if custom {
                    status == 400 && words
                        == "custom permission mode requires a complete Runtime policy and is not a Session preset"@
                } else if unoffered {
                    if options is Err {
                        status == 500
                    } else {
                        status == 400 && words == "model '"@ + text::trimmed(
                            request.model_alias->0@,
                        ) + "' is not in the discovered and enabled model catalog"@
                    }
                } else {
                    unknown_level && status == 400 && words == "unsupported reasoning effort '"@
                        + request.reasoning_effort->0@ + "'"@
                },
            }
        }),
{
    if options is Ok && request.model_alias is Some {
        let list = options->Ok_0;
        let model = text::trimmed(request.model_alias->0@);
        assert(inference::offers_model(list, model) <==> exists|i: int|
            0 <= i < list.len() && (#[trigger] list[i]).id@ == model);
    }
}

/// What a session thinks with after a change: what the change sets, the runtime's own where it gives
/// a setting back, and what the session had where it leaves it alone.
pub proof fn law_settings_take_effect(
    change: SessionChange,
    existing: SessionSettings,
    runtime_model: String,
)
    ensures
        change.model_alias matches Setting::Value(model) ==> effective_model(
            change,
            existing,
            runtime_model,
        ) == model,
        change.model_alias is Inherit ==> effective_model(change, existing, runtime_model)
            == runtime_model,
        change.model_alias is Keep && existing.model_alias is Some ==> Some(
            effective_model(change, existing, runtime_model),
        ) == existing.model_alias,
        change.model_alias is Keep && existing.model_alias is None ==> effective_model(
            change,
            existing,
            runtime_model,
        ) == runtime_model,
        change.reasoning_effort matches Setting::Value(level) ==> effective_effort(
            change,
            existing,
        ) == Some(level),
        change.reasoning_effort is Inherit ==> effective_effort(change, existing) is None,
        change.reasoning_effort is Keep ==> effective_effort(change, existing)
            == existing.reasoning_effort,
{
}

/// A change that touches neither model nor reasoning level is not held against the session. One that
/// does is refused where the session is unknown or unreadable, and where the model that the session
/// then has declares its levels and leaves out the one that the session then has; a session without
/// a level, and a model that declares none, take any.
pub proof fn law_thinking_settings_fit_each_other(
    change: SessionChange,
    session_id: String,
    existing: Result<Option<SessionSettings>, String>,
    runtime_model: String,
    list: Seq<ModelOption>,
)
    ensures
        ({
            let fault = thinking_fault(change, session_id, existing, runtime_model, Ok(list));
            let touched = !(change.model_alias is Keep) || !(change.reasoning_effort is Keep);
            &&& !touched ==> fault is None
            &&& touched && existing is Err ==> (fault matches Some(reply) && reply.status == 500)
            &&& touched && (existing matches Ok(None)) ==> (fault matches Some(reply)
                && reply.status == 404 && reply.message@ == "Session '"@ + session_id@
                + "' does not exist"@)
            &&& touched && (existing matches Ok(Some(settings))) ==> {
                let settings = existing->Ok_0->0;
                let model = effective_model(change, settings, runtime_model);
                match effective_effort(change, settings) {
                    None => fault is None,
                    Some(level) => fault is Some <==> inference::refused_levels(
                        list,
                        model@,
                        Some(level),
                    ) is Some,
                }
            }
            &&& touched && (existing matches Ok(Some(_))) ==> (fault matches Some(reply)
                ==> reply.status == 400)
        }),
{
}

/// An operator's change makes every setting that it holds, each by its own action and in order, and
/// no other; it ends with the session as it then is, or with the change of how it shares its context.
pub proof fn law_operators_make_every_change(change: SessionChange)
    ensures
        ({
            let a = action_from(change, OperatorAction::SetTarget);
            let b = action_after(change, a);
            let c = action_after(change, b);
            let d = action_after(change, c);
            let target = !(change.default_target is Keep);
            let thinking = !(change.model_alias is Keep) || !(change.reasoning_effort is Keep);
            let permissions = change.permission_mode is Some || change.sandbox_mode is Some;
            &&& target <==> a == OperatorAction::SetTarget
            &&& thinking <==> (a == OperatorAction::SetEvaluation || b
                == OperatorAction::SetEvaluation)
            &&& permissions <==> (a == OperatorAction::SetPermissions || b
                == OperatorAction::SetPermissions || c == OperatorAction::SetPermissions)
            &&& b != OperatorAction::SetTarget && c != OperatorAction::SetEvaluation && d
                != OperatorAction::SetPermissions
            &&& d == if change.context_sharing is Some {
                OperatorAction::SetSharing
            } else {
                OperatorAction::Read
            }
        }),
{
}

/// Who makes a change. An operator does where it leaves title and status alone and changes something;
/// a participant makes any other change that leaves the sharing alone. Sharing is refused together
/// with title or status, and to anybody who is no operator.
pub proof fn law_changes_are_made_by_those_who_may(change: SessionChange, operator: bool)
    ensures
        ({
            let owned = change.title is Some || change.status is Some;
            let shares = change.context_sharing is Some;
            let settings = !(change.model_alias is Keep) || !(change.reasoning_effort is Keep)
                || change.permission_mode is Some || change.sandbox_mode is Some || !(
            change.default_target is Keep) || shares;
            let route = update_route(change, operator);
            &&& shares && owned ==> (route matches Err(reply) && reply.status == 400)
            &&& shares && !owned && !operator ==> (route matches Err(reply) && reply.status == 403)
            &&& operator && !owned && settings ==> (route matches Ok(UpdateRoute::Operator(_)))
            &&& !shares && (!operator || owned || !settings) ==> (route matches Ok(
                UpdateRoute::Participant,
            ))
        }),
{
}

/// A target is the first one with its identifier.
pub proof fn law_targets_are_found_by_identifier(targets: Seq<TargetRef>, id: Seq<char>)
    ensures
        match target_accepts(targets, id) {
            Some(accepts) => exists|i: int|
                0 <= i < targets.len() && (#[trigger] targets[i]).id@ == id
                    && targets[i].accepts_jobs == accepts && forall|j: int|
                    0 <= j < i ==> (#[trigger] targets[j]).id@ != id,
            None => forall|j: int| 0 <= j < targets.len() ==> (#[trigger] targets[j]).id@ != id,
        },
    decreases targets.len(),
{
    if targets.len() > 0 && targets[0].id@ != id {
        let rest = targets.drop_first();
        law_targets_are_found_by_identifier(rest, id);
        assert forall|j: int| 0 < j < targets.len() implies #[trigger] targets[j] == rest[j - 1] by {}
        if target_accepts(rest, id) is Some {
            let accepts = target_accepts(rest, id)->0;
            let i = choose|i: int|
                0 <= i < rest.len() && (#[trigger] rest[i]).id@ == id && rest[i].accepts_jobs
                    == accepts && forall|j: int| 0 <= j < i ==> (#[trigger] rest[j]).id@ != id;
            assert(targets[i + 1].id@ == id);
            assert forall|j: int| 0 <= j < i + 1 implies (#[trigger] targets[j]).id@ != id by {
                if j > 0 {
                    assert(rest[j - 1].id@ != id);
                }
            }
        }
    }
}

/// Where a session works. The target that was selected for it is its target, whether it can work or
/// not, and local work never takes its place. Without one it works locally where that is enabled; else
/// nowhere, until the user selects one of their targets, or installs one where there is none.
pub proof fn law_sessions_work_where_they_are_told(
    selected: Option<String>,
    local_enabled: bool,
    local_target_id: String,
    targets: Seq<TargetRef>,
)
    ensures
        ({
            let found = target_selection(selected, local_enabled, local_target_id, targets);
            let owned = exists|i: int| 0 <= i < targets.len() && !(#[trigger] targets[i]).in_process;
            &&& selected is Some ==> found.effective_target_id == selected && found.source
                == TargetSource::Session
            &&& selected is Some && target_accepts(targets, selected->0@) == Some(false)
                ==> found.reason == TargetReason::SelectedTargetOffline
            &&& selected is Some && target_accepts(targets, selected->0@) is None ==> found.reason
                == TargetReason::SelectedTargetUnavailable
            &&& selected is Some && target_accepts(targets, selected->0@) == Some(true)
                ==> found.ready
            &&& selected is None && local_enabled ==> found.effective_target_id == Some(
                local_target_id,
            ) && found.source == TargetSource::RuntimeLocal && (found.ready <==> target_accepts(
                targets,
                local_target_id@,
            ) == Some(true)) && (!found.ready ==> found.reason
                == TargetReason::LocalTargetUnavailable)
            &&& selected is None && !local_enabled ==> found.effective_target_id is None
                && found.source == TargetSource::Nowhere && !found.ready && found.reason == if owned {
                TargetReason::TargetSelectionRequired
            } else {
                TargetReason::ExecutionTargetRequired
            }
            &&& found.ready <==> found.reason == TargetReason::Ready
            &&& found.onboarding_required <==> selected is None && !local_enabled && !owned
        }),
{
}

/// The newest sequence number of a page is one of its numbers, and none of them is larger.
pub proof fn law_the_newest_event_has_the_largest_number(sequences: Seq<Option<u64>>)
    ensures
        match latest_of(sequences) {
            Some(n) => sequences.contains(Some(n)) && forall|i: int|
                0 <= i < sequences.len() ==> (#[trigger] sequences[i] matches Some(m) ==> m <= n),
            None => forall|i: int| 0 <= i < sequences.len() ==> #[trigger] sequences[i] is None,
        },
    decreases sequences.len(),
{
    if sequences.len() > 0 {
        let front = sequences.drop_last();
        law_the_newest_event_has_the_largest_number(front);
        assert forall|i: int| 0 <= i < front.len() implies #[trigger] sequences[i] == front[i] by {}
        assert(sequences[sequences.len() - 1] == sequences.last());
        if latest_of(sequences) is Some && latest_of(sequences) == latest_of(front) {
            let i = choose|i: int| 0 <= i < front.len() && front[i] == latest_of(front);
            assert(sequences[i] == latest_of(sequences));
        }
    }
}

/// Sources and reasons have these names.
pub proof fn law_target_words_are_fixed(source: TargetSource, reason: TargetReason)
    ensures
        source == TargetSource::Session ==> source.spec_as_str() == "session",
        source == TargetSource::RuntimeLocal ==> source.spec_as_str() == "runtime_local",
        source == TargetSource::Nowhere ==> source.spec_as_str() == "none",
        reason == TargetReason::Ready ==> reason.spec_as_str() == "ready",
        reason == TargetReason::SelectedTargetOffline ==> reason.spec_as_str()
            == "selected_target_offline",
        reason == TargetReason::SelectedTargetUnavailable ==> reason.spec_as_str()
            == "selected_target_unavailable",
        reason == TargetReason::LocalTargetUnavailable ==> reason.spec_as_str()
            == "local_target_unavailable",
        reason == TargetReason::ExecutionTargetRequired ==> reason.spec_as_str()
            == "execution_target_required",
        reason == TargetReason::TargetSelectionRequired ==> reason.spec_as_str()
            == "target_selection_required",
{
}

/// A refused change is answered with the status and the words of its fault, and the code of the
/// status.
pub proof fn law_faults_are_answered_as_they_are(refusal: ErrorReply, fault: (u16, Seq<char>))
    requires
        refuses_with(refusal, fault),
    ensures
        refusal.status == fault.0,
        refusal.message@ == fault.1,
        fault.0 == 400 ==> refusal.code == error::ErrorCode::InvalidArgument,
        fault.0 == 404 ==> refusal.code == error::ErrorCode::NotFound,
        fault.0 == 409 ==> refusal.code == error::ErrorCode::Conflict,
{
}

/// A level that the model lacks is told with the level and the model.
pub proof fn law_unfit_levels_are_told_with_their_model(
    change: SessionChange,
    session_id: String,
    settings: SessionSettings,
    runtime_model: String,
    list: Seq<ModelOption>,
)
    ensures
        thinking_fault(change, session_id, Ok(Some(settings)), runtime_model, Ok(list)) matches Some(
            reply,
        ) ==> {
            &&& effective_effort(change, settings) is Some
            &&& reply.message@ == "reasoning effort '"@ + effective_effort(change, settings)->0@
                + "' is not supported by model '"@ + effective_model(
                change,
                settings,
                runtime_model,
            )@ + "'"@
        },
{
}

/// A change that nobody may make, or not together with another, is told why.
pub proof fn law_unroutable_changes_are_told_why(change: SessionChange, operator: bool)
    ensures
        update_route(change, operator) matches Err(reply) ==> {
            &&& change.context_sharing is Some
            &&& change.title is Some || change.status is Some ==> reply.status == 400
                && reply.message@
                == "context_sharing cannot be combined with participant-owned title or status changes"@
            &&& change.title is None && change.status is None ==> reply.status == 403
                && reply.message@ == "only the Operator may change Session context sharing"@
        },
{
}

} // verus!
