use crate::error;
use crate::error::{error_response, ErrorReply, Message};
use crate::reply;
use crate::reply::internal_response;
use crate::text;
use crate::text::{ascii_lowercase, join, join_parts, same, trim};
use vstd::prelude::*;

verus! {

/// A model that the runtime offers, with the reasoning levels that it declares.
pub struct ModelOption {
    pub id: String,
    pub supported_reasoning_efforts: Option<Vec<String>>,
}

/// A change of the runtime's model settings.
pub struct UpdateInferenceRequest {
    pub model: Option<String>,
    pub reasoning_effort: Option<String>,
    pub prompt_token_limit: Option<u64>,
}

/// The settings that a change leads to.
pub struct InferencePlan {
    pub model: String,
    /// Whether the model differs from the current one.
    pub switches_model: bool,
    pub effort: Option<String>,
    pub prompt_token_limit: Option<u64>,
}

/// The model that is meant: the requested one or the current one, trimmed.
pub open spec fn meant_model(request: UpdateInferenceRequest, current_model: Seq<char>) -> Seq<
    char,
> {
    text::trimmed(
        match request.model {
            Some(model) => model@,
            None => current_model,
        },
    )
}

pub open spec fn offers_model(options: Seq<ModelOption>, model: Seq<char>) -> bool {
    exists|i: int| 0 <= i < options.len() && (#[trigger] options[i]).id@ == model
}

/// The first option for a model.
pub open spec fn option_for(options: Seq<ModelOption>, model: Seq<char>) -> Option<ModelOption>
    decreases options.len(),
{
    if options.len() == 0 {
        None
    } else if options[0].id@ == model {
        Some(options[0])
    } else {
        option_for(options.drop_first(), model)
    }
}

/// What a request says of the reasoning level.
pub enum EffortChoice {
    /// The current level stays.
    Keep,
    /// The model's own default.
    Default,
    /// A level; the runtime's parser decides whether it is one.
    Level,
}

pub open spec fn effort_choice(request: UpdateInferenceRequest) -> EffortChoice {
    match request.reasoning_effort {
        None => EffortChoice::Keep,
        Some(value) => if text::trimmed(value@).len() == 0 || text::lowercase(
            text::trimmed(value@),
        ) == "default"@ {
            EffortChoice::Default
        } else {
            EffortChoice::Level
        },
    }
}

/// The level that a request leads to, `Err` where it names none. `parsed` is what the runtime's
/// parser made of the requested value.
pub open spec fn meant_effort(
    request: UpdateInferenceRequest,
    current_effort: Option<String>,
    parsed: Option<String>,
) -> Result<Option<String>, ()> {
    match effort_choice(request) {
        EffortChoice::Keep => Ok(current_effort),
        EffortChoice::Default => Ok(None),
        EffortChoice::Level => match parsed {
            Some(level) => Ok(Some(level)),
            None => Err(()),
        },
    }
}

pub open spec fn lists_level(levels: Seq<String>, level: Seq<char>) -> bool {
    exists|i: int| 0 <= i < levels.len() && (#[trigger] levels[i])@ == level
}

/// The levels that a model declares, where it declares some and the given one is not among them.
pub open spec fn refused_levels(
    options: Seq<ModelOption>,
    model: Seq<char>,
    effort: Option<String>,
) -> Option<Seq<String>> {
    match (effort, option_for(options, model)) {
        (Some(level), Some(option)) => match option.supported_reasoning_efforts {
            Some(levels) => if lists_level(levels@, level@) {
                None
            } else {
                Some(levels@)
            },
            None => None,
        },
        _ => None,
    }
}

pub open spec fn unsupported_effort(
    model: Seq<char>,
    effort: Seq<char>,
    levels: Seq<String>,
) -> Seq<char> {
    let listed = text::joined_with(levels, ", "@);
    "model '"@ + model + "' does not support reasoning effort '"@ + effort + "'; "@ + if listed.len()
        == 0 {
        "this model does not provide reasoning effort selection"@
    } else {
        "this model supports only: "@ + listed
    }
}

/// Why a change is refused, in words.
pub open spec fn inference_fault(
    request: UpdateInferenceRequest,
    current_model: Seq<char>,
    current_effort: Option<String>,
    parsed: Option<String>,
    options: Seq<ModelOption>,
) -> Option<Seq<char>> {
    let model = meant_model(request, current_model);
    if request.model is Some && !offers_model(options, model) {
        Some(
            "model '"@ + model
                + "' is not in the discovered and enabled model catalog; runtime switch rejected"@,
        )
    } else {
        match meant_effort(request, current_effort, parsed) {
            Err(_) => Some(
                "reasoning_effort supports only default, none, low, medium, high, or max"@,
            ),
            Ok(effort) => match refused_levels(options, model, effort) {
                Some(levels) => Some(unsupported_effort(model, effort->0@, levels)),
                None => match request.prompt_token_limit {
                    Some(limit) => if limit == 0 {
                        Some("prompt_token_limit must be greater than 0"@)
                    } else if limit > usize::MAX {
                        Some("prompt_token_limit exceeds the current platform integer range"@)
                    } else {
                        None
                    },
                    None => None,
                },
            },
        }
    }
}

/// Whether a model is offered.
pub fn holds_model(options: &Vec<ModelOption>, model: &str) -> (r: bool)
    ensures
        r == offers_model(options@, model@),
{
    let mut i: usize = 0;
    while i < options.len()
        invariant
            0 <= i <= options.len(),
            forall|j: int| 0 <= j < i ==> (#[trigger] options@[j]).id@ != model@,
        decreases options.len() - i,
    {
        if same(options[i].id.as_str(), model) {
            proof {
                assert(options@[i as int].id@ == model@);
            }
            return true;
        }
        i = i + 1;
    }
    false
}

/// The first option for a model.
pub fn find_option<'a>(options: &'a Vec<ModelOption>, model: &str) -> (r: Option<&'a ModelOption>)
    ensures
        match option_for(options@, model@) {
            Some(option) => r matches Some(found) && *found == option,
            None => r is None,
        },
{
    let mut i: usize = 0;
    proof {
        assert(options@.subrange(0, options@.len() as int) =~= options@);
    }
    while i < options.len()
        invariant
            0 <= i <= options.len(),
            option_for(options@, model@) == option_for(
                options@.subrange(i as int, options@.len() as int),
                model@,
            ),
        decreases options.len() - i,
    {
        proof {
            assert(options@.subrange(i as int, options@.len() as int).drop_first()
                =~= options@.subrange(i + 1, options@.len() as int));
        }
        if same(options[i].id.as_str(), model) {
            return Some(&options[i]);
        }
        i = i + 1;
    }
    None
}

/// Whether a level is among these.
pub fn holds_level(levels: &Vec<String>, level: &str) -> (r: bool)
    ensures
        r == lists_level(levels@, level@),
{
    let mut i: usize = 0;
    while i < levels.len()
        invariant
            0 <= i <= levels.len(),
            forall|j: int| 0 <= j < i ==> (#[trigger] levels@[j])@ != level@,
        decreases levels.len() - i,
    {
        if same(levels[i].as_str(), level) {
            proof {
                assert(levels@[i as int]@ == level@);
            }
            return true;
        }
        i = i + 1;
    }
    false
}

/// Whether a refusal is the one for this fault.
pub open spec fn refuses(refusal: ErrorReply, reason: Seq<char>) -> bool {
    &&& refusal.status == 400
    &&& refusal.code == error::ErrorCode::InvalidArgument
    &&& refusal.message@ == reason
}

/// The settings that a change leads to, or why it is refused. Nothing is stored before the whole
/// change was found good.
pub fn plan_inference(
    request: UpdateInferenceRequest,
    current_model: &str,
    current_effort: Option<String>,
    parsed: Option<String>,
    options: &Vec<ModelOption>,
) -> (r: Result<InferencePlan, ErrorReply>)
    ensures
        match inference_fault(request, current_model@, current_effort, parsed, options@) {
            Some(reason) => r matches Err(refusal) && refuses(refusal, reason),
            None => r matches Ok(plan) && plan.model@ == meant_model(request, current_model@)
                && plan.switches_model == (plan.model@ != current_model@) && Ok::<
                Option<String>,
                (),
            >(plan.effort) == meant_effort(request, current_effort, parsed)
                && plan.prompt_token_limit == request.prompt_token_limit,
        },
{
    let model: String = match &request.model {
        Some(model) => trim(model.as_str()).to_owned(),
        None => trim(current_model).to_owned(),
    };
    if request.model.is_some() && !holds_model(options, model.as_str()) {
        let text = join(
            join("model '", model.as_str()).as_str(),
            "' is not in the discovered and enabled model catalog; runtime switch rejected",
        );
        return Err(error_response(400, Message::Owned(text)));
    }
    let effort: Option<String> = match &request.reasoning_effort {
        None => current_effort,
        Some(value) => {
            let value = trim(value.as_str());
            if value.is_empty() || same(ascii_lowercase(value).as_str(), "default") {
                None
            } else {
                match parsed {
                    Some(level) => Some(level),
                    None => {
                        return Err(
                            error_response(
                                400,
                                Message::Fixed(
                                    "reasoning_effort supports only default, none, low, medium, high, or max",
                                ),
                            ),
                        );
                    },
                }
            }
        },
    };
    match (&effort, find_option(options, model.as_str())) {
        (Some(level), Some(option)) => match &option.supported_reasoning_efforts {
            Some(levels) => {
                if !holds_level(levels, level.as_str()) {
                    let listed = join_parts(levels, ", ");
                    let a = join("model '", model.as_str());
                    let b = join(a.as_str(), "' does not support reasoning effort '");
                    let c = join(join(b.as_str(), level.as_str()).as_str(), "'; ");
                    let text = if listed.as_str().is_empty() {
                        join(
                            c.as_str(),
                            "this model does not provide reasoning effort selection",
                        )
                    } else {
                        join(
                            c.as_str(),
                            join("this model supports only: ", listed.as_str()).as_str(),
                        )
                    };
                    return Err(error_response(400, Message::Owned(text)));
                }
            },
            None => {},
        },
        _ => {},
    }
    match request.prompt_token_limit {
        Some(limit) => {
            if limit == 0 {
                return Err(
                    error_response(
                        400,
                        Message::Fixed("prompt_token_limit must be greater than 0"),
                    ),
                );
            }
            if limit > usize::MAX as u64 {
                return Err(
                    error_response(
                        400,
                        Message::Fixed(
                            "prompt_token_limit exceeds the current platform integer range",
                        ),
                    ),
                );
            }
        },
        None => {},
    }
    let switches_model: bool = !same(model.as_str(), current_model);
    Ok(
        InferencePlan {
            model,
            switches_model,
            effort,
            prompt_token_limit: request.prompt_token_limit,
        },
    )
}

/// The actions that carry out a change, in the order in which they are done.
#[derive(PartialEq, Eq, Structural, Clone, Copy, Debug)]
pub enum InferenceStage {
    /// Store the settings.
    Save,
    /// Switch the runtime to the model.
    SetModel,
    /// Set the model's prompt limit.
    SetPromptTokenLimit,
    /// Set the reasoning level.
    SetEffort,
    /// All is done: report the settings.
    Report,
}

/// The action that follows one. A model that stays, and a limit that was not given, are not set.
pub open spec fn stage_after(plan: InferencePlan, stage: InferenceStage) -> InferenceStage {
    match stage {
        InferenceStage::Save => if plan.switches_model {
            InferenceStage::SetModel
        } else if plan.prompt_token_limit is Some {
            InferenceStage::SetPromptTokenLimit
        } else {
            InferenceStage::SetEffort
        },
        InferenceStage::SetModel => if plan.prompt_token_limit is Some {
            InferenceStage::SetPromptTokenLimit
        } else {
            InferenceStage::SetEffort
        },
        InferenceStage::SetPromptTokenLimit => InferenceStage::SetEffort,
        InferenceStage::SetEffort => InferenceStage::Report,
        InferenceStage::Report => InferenceStage::Report,
    }
}

/// The status for an action that failed.
pub open spec fn stage_failure(stage: InferenceStage) -> u16 {
    match stage {
        InferenceStage::Save => 500,
        InferenceStage::SetEffort => 501,
        InferenceStage::Report => 500,
        _ => 400,
    }
}

/// Where a change starts: without a place to store it, nothing is changed.
pub fn first_inference_stage(config_path_known: bool) -> (r: Result<InferenceStage, ErrorReply>)
    ensures
        r == if config_path_known {
            Ok::<InferenceStage, ErrorReply>(InferenceStage::Save)
        } else {
            Err(reply::internal_reply())
        },
{
    if config_path_known {
        Ok(InferenceStage::Save)
    } else {
        Err(internal_response())
    }
}

/// What follows an action, or the answer to its failure.
pub fn next_inference_stage(
    plan: &InferencePlan,
    stage: InferenceStage,
    outcome: Result<(), String>,
) -> (r: Result<InferenceStage, ErrorReply>)
    ensures
        r == match outcome {
            Ok(_) => Ok::<InferenceStage, ErrorReply>(stage_after(*plan, stage)),
            Err(detail) => Err(error::error_reply(stage_failure(stage), Message::Owned(detail))),
        },
{
    match outcome {
        Ok(_) => match stage {
            InferenceStage::Save => if plan.switches_model {
                Ok(InferenceStage::SetModel)
            } else if plan.prompt_token_limit.is_some() {
                Ok(InferenceStage::SetPromptTokenLimit)
            } else {
                Ok(InferenceStage::SetEffort)
            },
            InferenceStage::SetModel => if plan.prompt_token_limit.is_some() {
                Ok(InferenceStage::SetPromptTokenLimit)
            } else {
                Ok(InferenceStage::SetEffort)
            },
            InferenceStage::SetPromptTokenLimit => Ok(InferenceStage::SetEffort),
            InferenceStage::SetEffort => Ok(InferenceStage::Report),
            InferenceStage::Report => Ok(InferenceStage::Report),
        },
        Err(detail) => {
            let status: u16 = match stage {
                InferenceStage::Save => 500,
                InferenceStage::SetEffort => 501,
                InferenceStage::Report => 500,
                _ => 400,
            };
            Err(error_response(status, Message::Owned(detail)))
        },
    }
}

/// A switch to a model that is not offered is always refused.
pub proof fn law_only_offered_models_are_switched_to(
    request: UpdateInferenceRequest,
    current_model: Seq<char>,
    current_effort: Option<String>,
    parsed: Option<String>,
    options: Seq<ModelOption>,
)
    requires
        inference_fault(request, current_model, current_effort, parsed, options) is None,
        meant_model(request, current_model) != text::trimmed(current_model),
    ensures
        offers_model(options, meant_model(request, current_model)),
{
}

/// Every change is stored first, and ends in the report after at most four more actions.
pub proof fn law_inference_stages_end_in_the_report(plan: InferencePlan)
    ensures
        ({
            let a = stage_after(plan, InferenceStage::Save);
            let b = stage_after(plan, a);
            let c = stage_after(plan, b);
            let d = stage_after(plan, c);
            &&& d == InferenceStage::Report
            &&& a != InferenceStage::Save && b != InferenceStage::Save && c
                != InferenceStage::Save
            &&& a == InferenceStage::SetEffort || b == InferenceStage::SetEffort || c
                == InferenceStage::SetEffort
        }),
{
}

/// The first option for a model is the one that counts.
pub proof fn law_options_are_found_by_model(options: Seq<ModelOption>, model: Seq<char>)
    ensures
        match option_for(options, model) {
            Some(option) => exists|i: int|
                0 <= i < options.len() && #[trigger] options[i] == option && option.id@ == model
                    && forall|j: int| 0 <= j < i ==> (#[trigger] options[j]).id@ != model,
            None => forall|j: int| 0 <= j < options.len() ==> (#[trigger] options[j]).id@ != model,
        },
    decreases options.len(),
{
    if options.len() > 0 && options[0].id@ != model {
        let rest = options.drop_first();
        law_options_are_found_by_model(rest, model);
        assert forall|j: int| 0 < j < options.len() implies #[trigger] options[j] == rest[j - 1] by {}
        if option_for(rest, model) is Some {
            let option = option_for(rest, model)->0;
            let i = choose|i: int|
                0 <= i < rest.len() && #[trigger] rest[i] == option && option.id@ == model
                    && forall|j: int| 0 <= j < i ==> (#[trigger] rest[j]).id@ != model;
            assert(options[i + 1] == option);
            assert forall|j: int| 0 <= j < i + 1 implies (#[trigger] options[j]).id@ != model by {
                if j > 0 {
                    assert(rest[j - 1].id@ != model);
                }
            }
        }
    }
}

/// A level is refused exactly where the model declares its levels and leaves it out. Without a level,
/// for a model that is not offered, and for one that declares none, nothing is refused.
pub proof fn law_levels_are_refused_where_they_are_not_declared(
    options: Seq<ModelOption>,
    model: Seq<char>,
    level: String,
)
    ensures
        refused_levels(options, model, None) is None,
        option_for(options, model) is None ==> refused_levels(options, model, Some(level)) is None,
        option_for(options, model) matches Some(option) ==> (
        option.supported_reasoning_efforts is None ==> refused_levels(
            options,
            model,
            Some(level),
        ) is None),
        option_for(options, model) matches Some(option) ==> (
        option.supported_reasoning_efforts matches Some(levels) ==> (refused_levels(
            options,
            model,
            Some(level),
        ) is Some <==> forall|i: int|
            0 <= i < levels@.len() ==> (#[trigger] levels@[i])@ != level@)),
{
}

/// What a change leads to: the model that is asked for, or the current one; and the level that is
/// asked for, the model's own where none or the default is, or the current one where nothing is said.
pub proof fn law_changes_lead_to_what_is_asked(
    request: UpdateInferenceRequest,
    current_model: Seq<char>,
    current_effort: Option<String>,
    parsed: Option<String>,
)
    ensures
        request.model matches Some(model) ==> meant_model(request, current_model) == text::trimmed(
            model@,
        ),
        request.model is None ==> meant_model(request, current_model) == text::trimmed(
            current_model,
        ),
        request.reasoning_effort is None ==> meant_effort(request, current_effort, parsed) == Ok::<
            Option<String>,
            (),
        >(current_effort),
        request.reasoning_effort matches Some(value) && (text::trimmed(value@).len() == 0
            || text::lowercase(text::trimmed(value@)) == "default"@) ==> meant_effort(
            request,
            current_effort,
            parsed,
        ) == Ok::<Option<String>, ()>(None),
        request.reasoning_effort matches Some(value) && text::trimmed(value@).len() > 0
            && text::lowercase(text::trimmed(value@)) != "default"@ ==> (if parsed is Some {
            meant_effort(request, current_effort, parsed) == Ok::<Option<String>, ()>(parsed)
        } else {
            meant_effort(request, current_effort, parsed) is Err
        }),
{
}

/// A change is refused for a model that is not offered, for a level that is none, for one that the
/// model does not declare, and for a token limit that is zero or too large; in that order, and for
/// nothing else.
pub proof fn law_inference_changes_are_refused_for_cause_only(
    request: UpdateInferenceRequest,
    current_model: Seq<char>,
    current_effort: Option<String>,
    parsed: Option<String>,
    options: Seq<ModelOption>,
)
    ensures
        ({
            let model = meant_model(request, current_model);
            let unoffered = request.model is Some && forall|i: int|
                0 <= i < options.len() ==> (#[trigger] options[i]).id@ != model;
            let effort = meant_effort(request, current_effort, parsed);
            let undeclared = effort is Ok && refused_levels(options, model, effort->Ok_0) is Some;
            let bad_limit = request.prompt_token_limit matches Some(n) && (n == 0 || n
                > usize::MAX);
            let fault = inference_fault(request, current_model, current_effort, parsed, options);
            &&& fault is Some <==> unoffered || effort is Err || undeclared || bad_limit
            &&& unoffered ==> fault == Some(
                "model '"@ + model
                    + "' is not in the discovered and enabled model catalog; runtime switch rejected"@,
            )
            &&& !unoffered && effort is Err ==> fault == Some(
                "reasoning_effort supports only default, none, low, medium, high, or max"@,
            )
            &&& !unoffered && !(effort is Err) && !undeclared && request.prompt_token_limit
                == Some(0u64) ==> fault == Some("prompt_token_limit must be greater than 0"@)
        }),
{
}

/// A change is made by its own actions: the model is switched where it differs, the limit is set
/// where one is given, the level always; and each failure has its status.
pub proof fn law_inference_changes_are_all_made(plan: InferencePlan)
    ensures
        ({
            let a = stage_after(plan, InferenceStage::Save);
            let b = stage_after(plan, a);
            let c = stage_after(plan, b);
            &&& plan.switches_model <==> a == InferenceStage::SetModel
            &&& plan.prompt_token_limit is Some <==> (a == InferenceStage::SetPromptTokenLimit || b
                == InferenceStage::SetPromptTokenLimit)
            &&& b != InferenceStage::SetModel && c != InferenceStage::SetModel && c
                != InferenceStage::SetPromptTokenLimit
        }),
        stage_failure(InferenceStage::Save) == 500,
        stage_failure(InferenceStage::SetModel) == 400,
        stage_failure(InferenceStage::SetPromptTokenLimit) == 400,
        stage_failure(InferenceStage::SetEffort) == 501,
        stage_failure(InferenceStage::Report) == 500,
{
}

/// A level that is not supported is answered with the model, the level, and the levels that there
/// are.
pub proof fn law_unsupported_levels_are_explained(
    model: Seq<char>,
    effort: Seq<char>,
    levels: Seq<String>,
)
    ensures
        text::joined_with(levels, ", "@).len() == 0 ==> unsupported_effort(model, effort, levels)
            == "model '"@ + model + "' does not support reasoning effort '"@ + effort + "'; "@
            + "this model does not provide reasoning effort selection"@,
        text::joined_with(levels, ", "@).len() > 0 ==> unsupported_effort(model, effort, levels)
            == "model '"@ + model + "' does not support reasoning effort '"@ + effort + "'; "@ + (
        "this model supports only: "@ + text::joined_with(levels, ", "@)),
{
}

/// A refused change of the inference is a bad argument, with the words of its fault.
pub proof fn law_inference_refusals_are_bad_arguments(refusal: ErrorReply, reason: Seq<char>)
    requires
        refuses(refusal, reason),
    ensures
        refusal.status == 400,
        refusal.code == error::ErrorCode::InvalidArgument,
        refusal.message@ == reason,
{
}

} // verus!
