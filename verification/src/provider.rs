use crate::error;
use crate::error::{error_response, sdk_error_response, ErrorReply, Message, SdkError, SdkErrorCode};
use crate::headers;
use crate::json::Json;
use crate::reply;
use crate::reply::{internal_response, value_reply, Body, Reply};
use crate::text;
use crate::text::{join, same, trim};
use vstd::prelude::*;

verus! {

/// Where a credential takes its value from, as far as a setup cares.
#[derive(PartialEq, Eq, Structural, Clone, Copy, Debug)]
pub enum CredentialSource {
    Env,
    Other,
}

/// How far a managed secret reaches, as far as a setup cares.
#[derive(PartialEq, Eq, Structural, Clone, Copy, Debug)]
pub enum SecretScope {
    Runtime,
    Other,
}

pub struct CredentialDraft {
    pub source: CredentialSource,
    pub name: Option<String>,
}

pub struct SecretDraft {
    pub name: String,
    pub scope: SecretScope,
    pub scope_id: Option<String>,
    pub value_backend: Option<String>,
}

/// The parts of a provider setup that its rules speak of.
pub struct CatalogSetup {
    pub provider_id: String,
    pub account_id: String,
    pub route_id: String,
    pub account_credential_ref: String,
    pub account_secret_backend: Option<String>,
    pub credential_id: Option<String>,
    pub credential: Option<CredentialDraft>,
    pub managed_secret: Option<SecretDraft>,
}

/// Whether the account, the credential and the secret of a setup name each other.
pub open spec fn references_agree(setup: CatalogSetup) -> bool {
    let secret = setup.managed_secret->0;
    let credential = setup.credential->0;
    &&& text::trimmed(setup.account_credential_ref@) == setup.credential_id->0@
    &&& credential.source == CredentialSource::Env
    &&& credential.name matches Some(name) && text::trimmed(name@) == text::trimmed(secret.name@)
}

/// Why a provider setup is refused before anything is stored.
pub open spec fn setup_fault(setup: CatalogSetup) -> Option<&'static str> {
    if setup.credential_id is Some != setup.credential is Some {
        Some("credential_id and credential must be provided or omitted together")
    } else if setup.managed_secret is Some && setup.credential is None {
        Some("managed_secret may be submitted only with credential_id and credential")
    } else if setup.managed_secret is None {
        None
    } else if !references_agree(setup) {
        Some(
            "managed_secret, credential, and account credential_ref must reference the same credential",
        )
    } else if setup.managed_secret->0.scope != SecretScope::Runtime
        || setup.managed_secret->0.scope_id is Some {
        Some("Provider API Key must use Runtime scope and must not set scope_id")
    } else if headers::opt_string(setup.account_secret_backend) != headers::opt_string(
        setup.managed_secret->0.value_backend,
    ) {
        Some("managed_secret value_backend must match the account secret_backend")
    } else {
        None
    }
}

fn same_options(a: &Option<String>, b: &Option<String>) -> (r: bool)
    ensures
        r == (headers::opt_string(*a) == headers::opt_string(*b)),
{
    match (a, b) {
        (Some(x), Some(y)) => same(x.as_str(), y.as_str()),
        (None, None) => true,
        _ => false,
    }
}

/// Checks a provider setup before anything is stored.
pub fn check_catalog_setup(setup: &CatalogSetup) -> (r: Result<(), ErrorReply>)
    ensures
        r == match setup_fault(*setup) {
            None => Ok::<(), ErrorReply>(()),
            Some(reason) => Err(error::error_reply(400, Message::Fixed(reason))),
        },
{
    let (credential_id, credential) = match (&setup.credential_id, &setup.credential) {
        (Some(id), Some(config)) => (id, config),
        (None, None) => {
            return if setup.managed_secret.is_some() {
                Err(
                    error_response(
                        400,
                        Message::Fixed(
                            "managed_secret may be submitted only with credential_id and credential",
                        ),
                    ),
                )
            } else {
                Ok(())
            };
        },
        _ => {
            return Err(
                error_response(
                    400,
                    Message::Fixed(
                        "credential_id and credential must be provided or omitted together",
                    ),
                ),
            );
        },
    };
    let secret = match &setup.managed_secret {
        Some(secret) => secret,
        None => {
            return Ok(());
        },
    };
    let named: bool = match &credential.name {
        Some(name) => same(trim(name.as_str()), trim(secret.name.as_str())),
        None => false,
    };
    if !same(trim(setup.account_credential_ref.as_str()), credential_id.as_str())
        || credential.source != CredentialSource::Env || !named {
        return Err(
            error_response(
                400,
                Message::Fixed(
                    "managed_secret, credential, and account credential_ref must reference the same credential",
                ),
            ),
        );
    }
    if secret.scope != SecretScope::Runtime || secret.scope_id.is_some() {
        return Err(
            error_response(
                400,
                Message::Fixed("Provider API Key must use Runtime scope and must not set scope_id"),
            ),
        );
    }
    if !same_options(&setup.account_secret_backend, &secret.value_backend) {
        return Err(
            error_response(
                400,
                Message::Fixed("managed_secret value_backend must match the account secret_backend"),
            ),
        );
    }
    Ok(())
}

/// What a provider setup does next.
pub enum SetupStep {
    /// Read the names of the stored secrets.
    ListSecrets,
    /// Store the secret under this name.
    PutSecret { name: String },
    /// Store provider, account, credential and route under these identifiers. The secret is the one
    /// that this setup has stored before.
    PutCatalog {
        provider_id: String,
        account_id: String,
        route_id: String,
        created_secret: Option<String>,
    },
    /// Bind the account to the default agent, where that exists.
    BindDefaultAgent { account_id: String, receipt: Json },
    /// Delete the secret that was stored before.
    DeleteSecret { name: String, refusal: SdkError },
    Answer(Result<Reply, ErrorReply>),
}

/// How a worker that used the secret store came out.
pub enum StoreOutcome<T> {
    Done(T),
    Refused(SdkError),
    /// The worker itself failed.
    Lost,
}

/// The catalog identifiers of a setup, as they are stored, after the secret that it has stored.
pub open spec fn puts_catalog(step: SetupStep, setup: CatalogSetup, secret: Option<String>) -> bool {
    step matches SetupStep::PutCatalog { provider_id, account_id, route_id, created_secret }
        && provider_id@ == text::trimmed(setup.provider_id@) && account_id@ == text::trimmed(
        setup.account_id@,
    ) && route_id@ == text::trimmed(setup.route_id@) && created_secret == secret
}

fn put_catalog(setup: &CatalogSetup, created_secret: Option<String>) -> (r: SetupStep)
    ensures
        puts_catalog(r, *setup, created_secret),
{
    SetupStep::PutCatalog {
        provider_id: trim(setup.provider_id.as_str()).to_owned(),
        account_id: trim(setup.account_id.as_str()).to_owned(),
        route_id: trim(setup.route_id.as_str()).to_owned(),
        created_secret,
    }
}

/// Whether a step is the first one of a setup.
pub open spec fn starts_setup(step: SetupStep, setup: CatalogSetup, config_path_known: bool) -> bool {
    if !config_path_known {
        step == SetupStep::Answer(Err(reply::internal_reply()))
    } else {
        match setup_fault(setup) {
            Some(reason) => step == SetupStep::Answer(
                Err(error::error_reply(400, Message::Fixed(reason))),
            ),
            None => if setup.managed_secret is Some {
                step is ListSecrets
            } else {
                puts_catalog(step, setup, None)
            },
        }
    }
}

/// The first step of a setup. A secret is only stored where one of its name is not there yet.
pub fn start_catalog_setup(setup: &CatalogSetup, config_path_known: bool) -> (r: SetupStep)
    ensures
        starts_setup(r, *setup, config_path_known),
{
    if !config_path_known {
        return SetupStep::Answer(Err(internal_response()));
    }
    match check_catalog_setup(setup) {
        Err(refusal) => SetupStep::Answer(Err(refusal)),
        Ok(()) => if setup.managed_secret.is_some() {
            SetupStep::ListSecrets
        } else {
            put_catalog(setup, None)
        },
    }
}

pub open spec fn holds_name(names: Seq<String>, name: Seq<char>) -> bool {
    exists|i: int| 0 <= i < names.len() && (#[trigger] names[i])@ == name
}

/// Whether a step follows from the names of the stored secrets.
pub open spec fn follows_listing(
    step: SetupStep,
    setup: CatalogSetup,
    listed: StoreOutcome<Vec<String>>,
) -> bool {
    match setup.managed_secret {
        None => step == SetupStep::Answer(Err(reply::internal_reply())),
        Some(secret) => {
            let name = text::trimmed(secret.name@);
            match listed {
                StoreOutcome::Done(names) => if holds_name(names@, name) {
                    step matches SetupStep::Answer(Err(refusal)) && refusal.status == 400
                        && refusal.code == error::ErrorCode::InvalidArgument && refusal.message@
                        == "managed credential '"@ + name
                        + "' already exists; first-time setup refuses to overwrite it"@
                } else {
                    step matches SetupStep::PutSecret { name: stored } && stored@ == name
                },
                StoreOutcome::Refused(refusal) => step == SetupStep::Answer(
                    Err(error::sdk_reply(refusal)),
                ),
                StoreOutcome::Lost => step == SetupStep::Answer(Err(reply::internal_reply())),
            }
        },
    }
}

/// What the names of the stored secrets mean for a setup: it refuses to overwrite one.
pub fn on_secrets_listed(setup: &CatalogSetup, listed: StoreOutcome<Vec<String>>) -> (r: SetupStep)
    ensures
        follows_listing(r, *setup, listed),
{
    let secret = match &setup.managed_secret {
        Some(secret) => secret,
        None => {
            return SetupStep::Answer(Err(internal_response()));
        },
    };
    let name = trim(secret.name.as_str()).to_owned();
    match listed {
        StoreOutcome::Done(names) => {
            let mut i: usize = 0;
            while i < names.len()
                invariant
                    0 <= i <= names.len(),
                    setup.managed_secret is Some,
                    name@ == text::trimmed(setup.managed_secret->0.name@),
                    forall|j: int| 0 <= j < i ==> (#[trigger] names@[j])@ != name@,
                    listed == StoreOutcome::Done(names),
                decreases names.len() - i,
            {
                if same(names[i].as_str(), name.as_str()) {
                    proof {
                        assert(names@[i as int]@ == name@);
                        assert(holds_name(names@, name@));
                    }
                    return SetupStep::Answer(
                        Err(
                            sdk_error_response(
                                SdkError {
                                    code: SdkErrorCode::InvalidArgument,
                                    message: Message::Around {
                                        before: "managed credential '",
                                        value: name,
                                        after:
                                            "' already exists; first-time setup refuses to overwrite it",
                                    },
                                },
                            ),
                        ),
                    );
                }
                i = i + 1;
            }
            SetupStep::PutSecret { name }
        },
        StoreOutcome::Refused(refusal) => SetupStep::Answer(Err(sdk_error_response(refusal))),
        StoreOutcome::Lost => SetupStep::Answer(Err(internal_response())),
    }
}

/// Whether a step follows from storing the secret of this name.
pub open spec fn follows_storing(
    step: SetupStep,
    setup: CatalogSetup,
    name: String,
    stored: StoreOutcome<()>,
) -> bool {
    match stored {
        StoreOutcome::Done(_) => puts_catalog(step, setup, Some(name)),
        StoreOutcome::Refused(refusal) => step == SetupStep::Answer(Err(error::sdk_reply(refusal))),
        StoreOutcome::Lost => step == SetupStep::Answer(Err(reply::internal_reply())),
    }
}

/// What storing the secret means for a setup.
pub fn on_secret_stored(setup: &CatalogSetup, name: String, stored: StoreOutcome<()>) -> (r:
    SetupStep)
    ensures
        follows_storing(r, *setup, name, stored),
{
    match stored {
        StoreOutcome::Done(_) => put_catalog(setup, Some(name)),
        StoreOutcome::Refused(refusal) => SetupStep::Answer(Err(sdk_error_response(refusal))),
        StoreOutcome::Lost => SetupStep::Answer(Err(internal_response())),
    }
}

/// What follows from storing the catalog.
pub open spec fn catalog_outcome(
    account_id: String,
    created_secret: Option<String>,
    stored: Result<Json, SdkError>,
) -> SetupStep {
    match stored {
        Ok(receipt) => SetupStep::BindDefaultAgent { account_id, receipt },
        Err(refusal) => match created_secret {
            Some(name) => SetupStep::DeleteSecret { name, refusal },
            None => SetupStep::Answer(Err(error::sdk_reply(refusal))),
        },
    }
}

/// What storing the catalog means for a setup. Where it failed, the secret that the setup stored
/// before is deleted again.
pub fn on_catalog_stored(
    account_id: String,
    created_secret: Option<String>,
    stored: Result<Json, SdkError>,
) -> (r: SetupStep)
    ensures
        r == catalog_outcome(account_id, created_secret, stored),
{
    match stored {
        Ok(receipt) => SetupStep::BindDefaultAgent { account_id, receipt },
        Err(refusal) => match created_secret {
            Some(name) => SetupStep::DeleteSecret { name, refusal },
            None => SetupStep::Answer(Err(sdk_error_response(refusal))),
        },
    }
}

/// What follows from deleting the secret again.
pub open spec fn deletion_outcome(refusal: SdkError, deleted: StoreOutcome<bool>) -> SetupStep {
    match deleted {
        StoreOutcome::Done(true) => SetupStep::Answer(Err(error::sdk_reply(refusal))),
        _ => SetupStep::Answer(Err(reply::internal_reply())),
    }
}

/// What deleting the secret again means: where it is gone the caller learns why the setup failed,
/// else that the server could not complete it.
pub fn on_secret_deleted(refusal: SdkError, deleted: StoreOutcome<bool>) -> (r: SetupStep)
    ensures
        r == deletion_outcome(refusal, deleted),
{
    match deleted {
        StoreOutcome::Done(true) => SetupStep::Answer(Err(sdk_error_response(refusal))),
        _ => SetupStep::Answer(Err(internal_response())),
    }
}

/// What is done to bind an account to the default agent.
pub enum BindStep {
    /// The agent is not there yet: it is bound when it is made.
    Nothing,
    Bind,
    Failed(SdkError),
}

/// Whether the default agent is bound to an account, given whether it exists.
pub fn bind_dashboard_default_agent_provider_account(agent_exists: Result<bool, String>) -> (r:
    BindStep)
    ensures
        r == match agent_exists {
            Ok(true) => BindStep::Bind,
            Ok(false) => BindStep::Nothing,
            Err(detail) => BindStep::Failed(
                SdkError { code: SdkErrorCode::Internal, message: Message::Owned(detail) },
            ),
        },
{
    match agent_exists {
        Ok(true) => BindStep::Bind,
        Ok(false) => BindStep::Nothing,
        Err(detail) => BindStep::Failed(
            SdkError { code: SdkErrorCode::Internal, message: Message::Owned(detail) },
        ),
    }
}

/// What is answered once the account was bound, or could not be.
pub open spec fn binding_outcome(receipt: Json, bound: Result<(), SdkError>) -> Result<
    Reply,
    ErrorReply,
> {
    match bound {
        Ok(_) => Ok(Reply { status: 200, body: Body::Value(receipt) }),
        Err(refusal) => Err(error::sdk_reply(refusal)),
    }
}

/// The answer once the account was bound, or could not be.
pub fn after_binding(receipt: Json, bound: Result<(), SdkError>) -> (r: Result<Reply, ErrorReply>)
    ensures
        r == binding_outcome(receipt, bound),
{
    match bound {
        Ok(_) => Ok(value_reply(200, receipt)),
        Err(refusal) => Err(sdk_error_response(refusal)),
    }
}

/// How the work of a step of a setup came out.
pub enum SetupInput {
    Listed(StoreOutcome<Vec<String>>),
    SecretStored(StoreOutcome<()>),
    CatalogStored(Result<Json, SdkError>),
    Bound(Result<(), SdkError>),
    SecretDeleted(StoreOutcome<bool>),
}

/// Whether a step follows another one, given how the work of that came out. A step that gets what
/// it did not ask for fails.
pub open spec fn follows_step(
    next: SetupStep,
    setup: CatalogSetup,
    step: SetupStep,
    input: SetupInput,
) -> bool {
    match (step, input) {
        (SetupStep::ListSecrets, SetupInput::Listed(listed)) => follows_listing(
            next,
            setup,
            listed,
        ),
        (SetupStep::PutSecret { name }, SetupInput::SecretStored(stored)) => follows_storing(
            next,
            setup,
            name,
            stored,
        ),
        (
            SetupStep::PutCatalog { account_id, created_secret, .. },
            SetupInput::CatalogStored(stored),
        ) => next == catalog_outcome(account_id, created_secret, stored),
        (SetupStep::BindDefaultAgent { receipt, .. }, SetupInput::Bound(bound)) => next
            == SetupStep::Answer(binding_outcome(receipt, bound)),
        (SetupStep::DeleteSecret { refusal, .. }, SetupInput::SecretDeleted(deleted)) => next
            == deletion_outcome(refusal, deleted),
        _ => next == SetupStep::Answer(Err(reply::internal_reply())),
    }
}

/// The step of a setup that follows one whose work was done.
pub fn next_setup_step(setup: &CatalogSetup, step: SetupStep, input: SetupInput) -> (r: SetupStep)
    ensures
        follows_step(r, *setup, step, input),
{
    match (step, input) {
        (SetupStep::ListSecrets, SetupInput::Listed(listed)) => on_secrets_listed(setup, listed),
        (SetupStep::PutSecret { name }, SetupInput::SecretStored(stored)) => on_secret_stored(
            setup,
            name,
            stored,
        ),
        (
            SetupStep::PutCatalog { account_id, created_secret, .. },
            SetupInput::CatalogStored(stored),
        ) => on_catalog_stored(account_id, created_secret, stored),
        (SetupStep::BindDefaultAgent { receipt, .. }, SetupInput::Bound(bound)) => {
            SetupStep::Answer(after_binding(receipt, bound))
        },
        (SetupStep::DeleteSecret { refusal, .. }, SetupInput::SecretDeleted(deleted)) => {
            on_secret_deleted(refusal, deleted)
        },
        _ => SetupStep::Answer(Err(internal_response())),
    }
}

/// Whether these are the steps of one setup, from its first on, with how the work of each but the
/// last came out.
pub open spec fn is_setup_run(
    setup: CatalogSetup,
    config_path_known: bool,
    steps: Seq<SetupStep>,
    inputs: Seq<SetupInput>,
) -> bool {
    &&& steps.len() == inputs.len() + 1
    &&& starts_setup(steps[0], setup, config_path_known)
    &&& forall|i: int|
        #![trigger inputs[i]]
        0 <= i < inputs.len() ==> follows_step(steps[i + 1], setup, steps[i], inputs[i])
}

/// Whether step `i` of a run stored a secret under this name.
pub open spec fn stored_secret(
    steps: Seq<SetupStep>,
    inputs: Seq<SetupInput>,
    i: int,
    name: String,
) -> bool {
    &&& 0 <= i < inputs.len()
    &&& steps[i] == (SetupStep::PutSecret { name })
    &&& inputs[i] matches SetupInput::SecretStored(StoreOutcome::Done(_))
}

/// How the prompt cache of a model is used.
pub enum PromptCacheStrategy {
    Default,
    ExperimentalStructuredDeltas,
    Named(String),
}

/// The limits of a model; what is absent is left to the provider.
#[derive(Clone, Copy)]
pub struct ModelLimits {
    pub context_window_tokens: Option<u64>,
    pub max_input_tokens: Option<u64>,
    pub max_output_tokens: Option<u64>,
    pub max_input_attachments: Option<u64>,
    pub max_input_attachment_bytes: Option<u64>,
    pub max_input_attachment_total_bytes: Option<u64>,
}

/// A model that an account is to offer.
pub struct ModelSelection {
    pub id: String,
    pub alias: Option<String>,
    pub prompt_cache_strategy: Option<PromptCacheStrategy>,
    pub limits: ModelLimits,
}

/// A model of an account, under its trimmed identifier.
pub struct ModelEntry {
    pub id: String,
    pub alias: Option<String>,
    pub prompt_cache_strategy: PromptCacheStrategy,
    pub limits: ModelLimits,
}

/// Whether the identifier of selection `i` is empty or was used before.
pub open spec fn bad_model_id(selections: Seq<ModelSelection>, i: int) -> bool {
    let id = text::trimmed(selections[i].id@);
    id.len() == 0 || exists|j: int|
        0 <= j < i && text::trimmed((#[trigger] selections[j]).id@) == id
}

/// Why the first `n` selections are refused: what is wrong with the first bad one of them.
pub open spec fn selection_fault(
    selections: Seq<ModelSelection>,
    structured_deltas: bool,
    n: int,
) -> Option<&'static str>
    decreases n,
{
    if n <= 0 {
        None
    } else {
        match selection_fault(selections, structured_deltas, n - 1) {
            Some(reason) => Some(reason),
            None => if bad_model_id(selections, n - 1) {
                Some("model IDs must not be empty or duplicated")
            } else if selections[n - 1].prompt_cache_strategy
                == Some(PromptCacheStrategy::ExperimentalStructuredDeltas) && !structured_deltas {
                Some(
                    "experimental-structured-deltas requires a Morphz build with feature experimental-structured-context-delta-cache",
                )
            } else {
                None
            },
        }
    }
}

/// What an account offers for a selection.
pub open spec fn offers(entry: ModelEntry, selection: ModelSelection) -> bool {
    &&& entry.id@ == text::trimmed(selection.id@)
    &&& entry.alias == match selection.alias {
        Some(alias) if text::trimmed(alias@).len() > 0 => Some(alias),
        _ => None,
    }
    &&& entry.prompt_cache_strategy == match selection.prompt_cache_strategy {
        Some(strategy) => strategy,
        None => PromptCacheStrategy::Default,
    }
    &&& entry.limits == selection.limits
}

fn copy_strategy(strategy: &Option<PromptCacheStrategy>) -> (r: PromptCacheStrategy)
    ensures
        r == match *strategy {
            Some(given) => given,
            None => PromptCacheStrategy::Default,
        },
{
    match strategy {
        Some(PromptCacheStrategy::Default) => PromptCacheStrategy::Default,
        Some(PromptCacheStrategy::ExperimentalStructuredDeltas) =>
            PromptCacheStrategy::ExperimentalStructuredDeltas,
        Some(PromptCacheStrategy::Named(name)) => PromptCacheStrategy::Named(name.clone()),
        None => PromptCacheStrategy::Default,
    }
}

proof fn lemma_fault_stays(selections: Seq<ModelSelection>, structured_deltas: bool, i: int, n: int)
    requires
        0 <= i <= n,
        selection_fault(selections, structured_deltas, i) is Some,
    ensures
        selection_fault(selections, structured_deltas, n) == selection_fault(
            selections,
            structured_deltas,
            i,
        ),
    decreases n - i,
{
    if i < n {
        lemma_fault_stays(selections, structured_deltas, i, n - 1);
    }
}

/// The models that an account is to offer, each under its own identifier.
pub fn account_models(selections: &Vec<ModelSelection>, structured_deltas: bool) -> (r: Result<
    Vec<ModelEntry>,
    ErrorReply,
>)
    ensures
        match selection_fault(selections@, structured_deltas, selections@.len() as int) {
            Some(reason) => r == Err::<Vec<ModelEntry>, ErrorReply>(
                error::error_reply(400, Message::Fixed(reason)),
            ),
            None => r matches Ok(entries) && entries.len() == selections.len() && forall|i: int|
                0 <= i < entries.len() ==> offers(#[trigger] entries[i], selections[i]),
        },
{
    let mut entries: Vec<ModelEntry> = Vec::new();
    let mut i: usize = 0;
    while i < selections.len()
        invariant
            0 <= i <= selections.len(),
            entries.len() == i,
            forall|j: int| 0 <= j < i ==> offers(#[trigger] entries[j], selections[j]),
            selection_fault(selections@, structured_deltas, i as int) is None,
        decreases selections.len() - i,
    {
        let selection = &selections[i];
        let id = trim(selection.id.as_str());
        let mut bad: bool = id.is_empty();
        let mut j: usize = 0;
        while j < i && !bad
            invariant
                0 <= j <= i < selections.len(),
                entries.len() == i,
                forall|k: int| 0 <= k < i ==> offers(#[trigger] entries[k], selections[k]),
                id@ == text::trimmed(selections[i as int].id@),
                !bad ==> id@.len() > 0 && forall|k: int|
                    0 <= k < j ==> text::trimmed((#[trigger] selections[k]).id@) != id@,
                bad ==> bad_model_id(selections@, i as int),
            decreases i - j,
        {
            if same(entries[j].id.as_str(), id) {
                proof {
                    assert(offers(entries[j as int], selections[j as int]));
                    assert(text::trimmed(selections@[j as int].id@) == id@);
                }
                bad = true;
            }
            j = j + 1;
        }
        let experimental: bool = match &selection.prompt_cache_strategy {
            Some(PromptCacheStrategy::ExperimentalStructuredDeltas) => true,
            _ => false,
        };
        if bad {
            proof {
                lemma_fault_stays(
                    selections@,
                    structured_deltas,
                    i + 1,
                    selections@.len() as int,
                );
            }
            return Err(
                error_response(400, Message::Fixed("model IDs must not be empty or duplicated")),
            );
        }
        proof {
            assert(!bad_model_id(selections@, i as int));
        }
        if experimental && !structured_deltas {
            proof {
                lemma_fault_stays(
                    selections@,
                    structured_deltas,
                    i + 1,
                    selections@.len() as int,
                );
            }
            return Err(
                error_response(
                    400,
                    Message::Fixed(
                        "experimental-structured-deltas requires a Morphz build with feature experimental-structured-context-delta-cache",
                    ),
                ),
            );
        }
        let alias: Option<String> = match &selection.alias {
            Some(alias) => if trim(alias.as_str()).is_empty() {
                None
            } else {
                Some(alias.clone())
            },
            None => None,
        };
        let entry = ModelEntry {
            id: id.to_owned(),
            alias,
            prompt_cache_strategy: copy_strategy(&selection.prompt_cache_strategy),
            limits: selection.limits,
        };
        entries.push(entry);
        i = i + 1;
    }
    Ok(entries)
}

/// What deleting an account does next.
pub enum DeleteAccountStep {
    /// Take the account from the default agent.
    UnbindDefaultAgent,
    /// Delete the account's configuration, knowing whether the default agent was unbound before.
    DeleteConfig { was_bound: bool },
    /// Give the account back to the default agent.
    RestoreBinding { refusal: SdkError },
    Answer(Result<Reply, ErrorReply>),
}

/// The agents that are not the default one, in order, separated by commas.
pub open spec fn other_agents(agents: Seq<String>, default_agent: Seq<char>) -> Seq<char>
    decreases agents.len(),
{
    if agents.len() == 0 {
        Seq::empty()
    } else {
        let before = other_agents(agents.drop_last(), default_agent);
        if agents.last()@ == default_agent {
            before
        } else if shared_with_others(agents.drop_last(), default_agent) {
            before + ", "@ + agents.last()@
        } else {
            agents.last()@
        }
    }
}

/// Whether an agent other than the default one is among these.
pub open spec fn shared_with_others(agents: Seq<String>, default_agent: Seq<char>) -> bool {
    exists|i: int| 0 <= i < agents.len() && (#[trigger] agents[i])@ != default_agent
}

/// Deleting an account starts with who is bound to it: one that other agents use is kept.
pub fn start_delete_account(
    account_id: &str,
    default_agent: &str,
    bindings: Result<Vec<String>, String>,
) -> (r: DeleteAccountStep)
    ensures
        match bindings {
            Err(_) => r == DeleteAccountStep::Answer(Err(reply::internal_reply())),
            Ok(agents) => if shared_with_others(agents@, default_agent@) {
                r matches DeleteAccountStep::Answer(Err(refusal)) && refusal.status == 409
                    && refusal.code == error::ErrorCode::Conflict && refusal.message@
                    == "Auth Account '"@ + account_id@ + "' is shared by Agent(s): "@
                    + other_agents(agents@, default_agent@)
                    + "; remove those Agent bindings before deleting the account"@
            } else if agents@.len() > 0 {
                r is UnbindDefaultAgent
            } else {
                r == (DeleteAccountStep::DeleteConfig { was_bound: false })
            },
        },
{
    let agents = match bindings {
        Ok(agents) => agents,
        Err(_) => {
            return DeleteAccountStep::Answer(Err(internal_response()));
        },
    };
    let mut others = String::new();
    let mut shared: bool = false;
    let mut i: usize = 0;
    proof {
        assert(agents@.subrange(0, 0) =~= Seq::<String>::empty());
    }
    while i < agents.len()
        invariant
            0 <= i <= agents.len(),
            others@ == other_agents(agents@.subrange(0, i as int), default_agent@),
            shared == shared_with_others(agents@.subrange(0, i as int), default_agent@),
        decreases agents.len() - i,
    {
        let ghost before = agents@.subrange(0, i as int);
        let ghost now = agents@.subrange(0, i + 1);
        proof {
            assert(now.drop_last() =~= before);
            assert(now.last() == agents@[i as int]);
            if shared {
                let k = choose|k: int| 0 <= k < before.len() && (#[trigger] before[k])@
                    != default_agent@;
                assert(now[k]@ != default_agent@);
            }
        }
        let agent = agents[i].as_str();
        if !same(agent, default_agent) {
            others = if shared {
                join(join(others.as_str(), ", ").as_str(), agent)
            } else {
                agent.to_owned()
            };
            shared = true;
            proof {
                assert(now[i as int]@ != default_agent@);
            }
        } else {
            proof {
                if shared_with_others(now, default_agent@) {
                    let k = choose|k: int| 0 <= k < now.len() && (#[trigger] now[k])@
                        != default_agent@;
                    assert(before[k]@ != default_agent@);
                }
            }
        }
        i = i + 1;
    }
    proof {
        assert(agents@.subrange(0, agents@.len() as int) =~= agents@);
    }
    if shared {
        let head = join(join("Auth Account '", account_id).as_str(), "' is shared by Agent(s): ");
        let message = join(
            join(head.as_str(), others.as_str()).as_str(),
            "; remove those Agent bindings before deleting the account",
        );
        return DeleteAccountStep::Answer(Err(error_response(409, Message::Owned(message))));
    }
    if agents.len() > 0 {
        DeleteAccountStep::UnbindDefaultAgent
    } else {
        DeleteAccountStep::DeleteConfig { was_bound: false }
    }
}

/// What follows from taking the account from the default agent.
pub open spec fn unbinding_outcome(unbound: Result<(), SdkError>) -> DeleteAccountStep {
    match unbound {
        Ok(_) => DeleteAccountStep::DeleteConfig { was_bound: true },
        Err(refusal) => DeleteAccountStep::Answer(Err(error::sdk_reply(refusal))),
    }
}

pub fn on_default_agent_unbound(unbound: Result<(), SdkError>) -> (r: DeleteAccountStep)
    ensures
        r == unbinding_outcome(unbound),
{
    match unbound {
        Ok(_) => DeleteAccountStep::DeleteConfig { was_bound: true },
        Err(refusal) => DeleteAccountStep::Answer(Err(sdk_error_response(refusal))),
    }
}

/// What follows from deleting the configuration of an account.
pub open spec fn config_deletion_outcome(
    was_bound: bool,
    deleted: Result<Json, SdkError>,
) -> DeleteAccountStep {
    match deleted {
        Ok(receipt) => DeleteAccountStep::Answer(
            Ok(Reply { status: 200, body: Body::Value(receipt) }),
        ),
        Err(refusal) => if was_bound {
            DeleteAccountStep::RestoreBinding { refusal }
        } else {
            DeleteAccountStep::Answer(Err(error::sdk_reply(refusal)))
        },
    }
}

/// A configuration that could not be deleted leaves the account as it was: where the default agent
/// was unbound before, it is bound again.
pub fn on_account_deleted(was_bound: bool, deleted: Result<Json, SdkError>) -> (r: DeleteAccountStep)
    ensures
        r == config_deletion_outcome(was_bound, deleted),
{
    match deleted {
        Ok(receipt) => DeleteAccountStep::Answer(Ok(value_reply(200, receipt))),
        Err(refusal) => if was_bound {
            DeleteAccountStep::RestoreBinding { refusal }
        } else {
            DeleteAccountStep::Answer(Err(sdk_error_response(refusal)))
        },
    }
}

pub fn on_binding_restored(refusal: SdkError, restored: bool) -> (r: DeleteAccountStep)
    ensures
        r == if restored {
            DeleteAccountStep::Answer(Err(error::sdk_reply(refusal)))
        } else {
            DeleteAccountStep::Answer(Err(reply::internal_reply()))
        },
{
    if restored {
        DeleteAccountStep::Answer(Err(sdk_error_response(refusal)))
    } else {
        DeleteAccountStep::Answer(Err(internal_response()))
    }
}

/// The answer to a request that stores a managed secret.
pub fn secret_stored_reply(stored: StoreOutcome<Json>, refusal_text: String) -> (r: Result<
    Reply,
    ErrorReply,
>)
    ensures
        r == match stored {
            StoreOutcome::Done(secret) => Ok::<Reply, ErrorReply>(
                Reply { status: 201, body: Body::Value(secret) },
            ),
            StoreOutcome::Refused(_) => Err(error::error_reply(400, Message::Owned(refusal_text))),
            StoreOutcome::Lost => Err(reply::internal_reply()),
        },
{
    match stored {
        StoreOutcome::Done(secret) => Ok(value_reply(201, secret)),
        StoreOutcome::Refused(_) => Err(error_response(400, Message::Owned(refusal_text))),
        StoreOutcome::Lost => Err(internal_response()),
    }
}

/// The answer to a request that deletes a managed secret.
pub fn secret_deleted_reply(deleted: StoreOutcome<bool>) -> (r: Result<Reply, ErrorReply>)
    ensures
        r == match deleted {
            StoreOutcome::Done(true) => Ok::<Reply, ErrorReply>(
                Reply { status: 204, body: Body::Empty },
            ),
            StoreOutcome::Done(false) => Err(
                error::error_reply(404, Message::Fixed("managed credential does not exist")),
            ),
            _ => Err(reply::internal_reply()),
        },
{
    match deleted {
        StoreOutcome::Done(true) => Ok(Reply { status: 204, body: Body::Empty }),
        StoreOutcome::Done(false) => Err(
            error_response(404, Message::Fixed("managed credential does not exist")),
        ),
        _ => Err(internal_response()),
    }
}

/// What a run has stored is what its later steps know of.
proof fn lemma_run_knows_its_secret(
    setup: CatalogSetup,
    config_path_known: bool,
    steps: Seq<SetupStep>,
    inputs: Seq<SetupInput>,
)
    requires
        is_setup_run(setup, config_path_known, steps, inputs),
    ensures
        steps.last() is ListSecrets || steps.last() is PutSecret ==> forall|i: int, name: String|
            !stored_secret(steps, inputs, i, name),
        steps.last() matches SetupStep::PutCatalog { created_secret, .. } ==> forall|
            i: int,
            name: String,
        |
            stored_secret(steps, inputs, i, name) ==> created_secret == Some(name) && i + 2
                == steps.len(),
        steps.last() matches SetupStep::PutCatalog { created_secret: Some(name), .. }
            ==> stored_secret(steps, inputs, steps.len() - 2, name),
    decreases inputs.len(),
{
    if inputs.len() > 0 {
        let n = inputs.len() - 1;
        let before = steps.drop_last();
        let given = inputs.drop_last();
        assert forall|i: int|
            #![trigger given[i]]
            0 <= i < given.len() implies follows_step(before[i + 1], setup, before[i], given[i]) by {
            assert(given[i] == inputs[i]);
        }
        lemma_run_knows_its_secret(setup, config_path_known, before, given);
        assert(follows_step(steps[n + 1], setup, steps[n], inputs[n]));
        assert(before.last() == steps[n]);
        assert forall|i: int, name: String| stored_secret(steps, inputs, i, name) implies i == n
            || stored_secret(before, given, i, name) by {
            if i < n {
                assert(given[i] == inputs[i]);
                assert(before[i] == steps[i]);
            }
        }
    }
}

/// Over a whole setup: the secret that is deleted is the one that this setup stored and no other,
/// and only after storing the catalog was refused; and where the catalog is refused after a secret
/// was stored, deleting that secret is what comes next.
pub proof fn law_failed_setup_takes_back_its_own_secret(
    setup: CatalogSetup,
    config_path_known: bool,
    steps: Seq<SetupStep>,
    inputs: Seq<SetupInput>,
)
    requires
        is_setup_run(setup, config_path_known, steps, inputs),
    ensures
        steps.last() matches SetupStep::DeleteSecret { name, refusal } ==> {
            let n = inputs.len();
            &&& n >= 2
            &&& stored_secret(steps, inputs, n - 2, name)
            &&& steps[n - 1] is PutCatalog
            &&& inputs[n - 1] == SetupInput::CatalogStored(Err(refusal))
        },
        forall|name: String| #[trigger]
            stored_secret(steps, inputs, inputs.len() - 2, name) ==> (
            inputs.last() matches SetupInput::CatalogStored(Err(refusal)) ==> steps.last() == (
            SetupStep::DeleteSecret { name, refusal })),
{
    let n = inputs.len() as int;
    if n > 0 {
        let before = steps.drop_last();
        let given = inputs.drop_last();
        assert forall|i: int|
            #![trigger given[i]]
            0 <= i < given.len() implies follows_step(before[i + 1], setup, before[i], given[i]) by {
            assert(given[i] == inputs[i]);
        }
        assert(before.last() == steps[n - 1]);
        assert(follows_step(steps[n], setup, steps[n - 1], inputs[n - 1]));
        lemma_run_knows_its_secret(setup, config_path_known, before, given);
        if steps.last() is DeleteSecret {
            let name = steps.last()->DeleteSecret_name;
            assert(stored_secret(before, given, before.len() - 2, name));
            assert(given[n - 2] == inputs[n - 2]);
        }
    }
    if n >= 2 {
        assert(follows_step(steps[n - 1], setup, steps[n - 2], inputs[n - 2]));
    }
}

/// An account that cannot be deleted is given back to the default agent where it was taken from it
/// before, and one that is deleted is not.
pub proof fn law_kept_accounts_keep_their_binding(
    unbound: Result<(), SdkError>,
    deleted: Result<Json, SdkError>,
)
    ensures
        unbinding_outcome(unbound) matches DeleteAccountStep::DeleteConfig { was_bound } ==> (
        config_deletion_outcome(was_bound, deleted) is RestoreBinding <==> deleted is Err),
        unbound is Err ==> unbinding_outcome(unbound) is Answer,
        !(config_deletion_outcome(false, deleted) is RestoreBinding),
{
}

/// An accepted list of models has no two of the same identifier.
pub proof fn law_accepted_models_are_distinct(
    selections: Seq<ModelSelection>,
    structured_deltas: bool,
    n: int,
    i: int,
    j: int,
)
    requires
        0 <= i < j < n <= selections.len(),
        selection_fault(selections, structured_deltas, n) is None,
    ensures
        text::trimmed(selections[i].id@) != text::trimmed(selections[j].id@),
        text::trimmed(selections[i].id@).len() > 0,
    decreases n,
{
    if selection_fault(selections, structured_deltas, j + 1) is Some {
        lemma_fault_stays(selections, structured_deltas, j + 1, n);
    }
    if selection_fault(selections, structured_deltas, i + 1) is Some {
        lemma_fault_stays(selections, structured_deltas, i + 1, n);
    }
    assert(!bad_model_id(selections, j));
    assert(!bad_model_id(selections, i));
}

/// A first-time setup is refused for cause only: a credential has a name, a secret has a credential,
/// and all that speak of the secret agree on it, on its scope and on where it is kept.
pub proof fn law_setups_are_refused_for_cause_only(setup: CatalogSetup)
    ensures
        setup_fault(setup) is None <==> {
            &&& setup.credential_id is Some <==> setup.credential is Some
            &&& setup.managed_secret matches Some(secret) ==> {
                &&& setup.credential matches Some(credential) && credential.source
                    == CredentialSource::Env && (credential.name matches Some(name)
                    && text::trimmed(name@) == text::trimmed(secret.name@))
                &&& setup.credential_id matches Some(id) && text::trimmed(
                    setup.account_credential_ref@,
                ) == id@
                &&& secret.scope == SecretScope::Runtime
                &&& secret.scope_id is None
                &&& match (setup.account_secret_backend, secret.value_backend) {
                    (Some(a), Some(b)) => a@ == b@,
                    (None, None) => true,
                    _ => false,
                }
            }
        },
{
}

/// A setup begins with the secret where it brings one, and with the catalog where it brings none; one
/// that is at fault is a bad request.
pub proof fn law_setups_begin_with_their_secret(
    setup: CatalogSetup,
    config_path_known: bool,
    step: SetupStep,
)
    requires
        starts_setup(step, setup, config_path_known),
    ensures
        config_path_known && setup_fault(setup) is None && setup.managed_secret is Some
            ==> step is ListSecrets,
        config_path_known && setup_fault(setup) is None && setup.managed_secret is None ==> (
        step matches SetupStep::PutCatalog { provider_id, account_id, route_id, created_secret }
            && provider_id@ == text::trimmed(setup.provider_id@) && account_id@ == text::trimmed(
            setup.account_id@,
        ) && route_id@ == text::trimmed(setup.route_id@) && created_secret is None),
        config_path_known && setup_fault(setup) is Some ==> (step matches SetupStep::Answer(
            Err(refusal),
        ) && refusal.status == 400),
        !config_path_known ==> (step matches SetupStep::Answer(Err(refusal)) && refusal.status
            == 500),
{
}

/// A secret that exists is never overwritten by a first-time setup; one that does not is stored under
/// its name.
pub proof fn law_setups_overwrite_no_secret(
    setup: CatalogSetup,
    secret: SecretDraft,
    names: Vec<String>,
    step: SetupStep,
)
    requires
        setup.managed_secret == Some(secret),
        follows_step(
            step,
            setup,
            SetupStep::ListSecrets,
            SetupInput::Listed(StoreOutcome::Done(names)),
        ),
    ensures
        forall|i: int|
            0 <= i < names@.len() && (#[trigger] names@[i])@ == text::trimmed(secret.name@) ==> (
            step matches SetupStep::Answer(Err(refusal)) && refusal.status == 400),
        (forall|i: int|
            0 <= i < names@.len() ==> (#[trigger] names@[i])@ != text::trimmed(secret.name@)) ==> (
        step matches SetupStep::PutSecret { name } && name@ == text::trimmed(secret.name@)),
{
}

/// How a setup goes on: from the stored secret to the catalog, which knows the secret; from the stored
/// catalog to the binding; and from the binding to the catalog's own receipt. What is refused on the
/// way is answered as it was refused, once a secret that this setup stored is taken back.
pub proof fn law_setups_go_on_step_by_step(
    setup: CatalogSetup,
    name: String,
    provider_id: String,
    account_id: String,
    route_id: String,
    created_secret: Option<String>,
    receipt: Json,
    refusal: SdkError,
    next: SetupStep,
)
    ensures
        follows_step(
            next,
            setup,
            SetupStep::PutSecret { name },
            SetupInput::SecretStored(StoreOutcome::Done(())),
        ) ==> (next matches SetupStep::PutCatalog {
            provider_id: p,
            account_id: a,
            route_id: r,
            created_secret: s,
        } && p@ == text::trimmed(setup.provider_id@) && a@ == text::trimmed(setup.account_id@) && r@
            == text::trimmed(setup.route_id@) && s == Some(name)),
        follows_step(
            next,
            setup,
            SetupStep::PutSecret { name },
            SetupInput::SecretStored(StoreOutcome::Refused(refusal)),
        ) ==> next == SetupStep::Answer(Err(error::sdk_reply(refusal))),
        follows_step(
            next,
            setup,
            (SetupStep::PutCatalog { provider_id, account_id, route_id, created_secret }),
            SetupInput::CatalogStored(Ok(receipt)),
        ) ==> next == (SetupStep::BindDefaultAgent { account_id, receipt }),
        follows_step(
            next,
            setup,
            (SetupStep::PutCatalog { provider_id, account_id, route_id, created_secret }),
            SetupInput::CatalogStored(Err(refusal)),
        ) ==> match created_secret {
            Some(stored) => next == (SetupStep::DeleteSecret { name: stored, refusal }),
            None => next == SetupStep::Answer(Err(error::sdk_reply(refusal))),
        },
        follows_step(
            next,
            setup,
            (SetupStep::DeleteSecret { name, refusal }),
            SetupInput::SecretDeleted(StoreOutcome::Done(true)),
        ) ==> next == SetupStep::Answer(Err(error::sdk_reply(refusal))),
        follows_step(
            next,
            setup,
            (SetupStep::DeleteSecret { name, refusal }),
            SetupInput::SecretDeleted(StoreOutcome::Lost),
        ) ==> (next matches SetupStep::Answer(Err(reply)) && reply.status == 500),
        follows_step(
            next,
            setup,
            (SetupStep::BindDefaultAgent { account_id, receipt }),
            SetupInput::Bound(Ok(())),
        ) ==> (next matches SetupStep::Answer(Ok(reply)) && reply.status == 200 && reply.body
            == Body::Value(receipt)),
        follows_step(
            next,
            setup,
            (SetupStep::BindDefaultAgent { account_id, receipt }),
            SetupInput::Bound(Err(refusal)),
        ) ==> next == SetupStep::Answer(Err(error::sdk_reply(refusal))),
{
}

/// A list of models is accepted exactly where every model has an identifier, no two have the same, and
/// none wants a cache strategy that this build lacks.
pub proof fn law_models_are_refused_for_cause_only(
    selections: Seq<ModelSelection>,
    structured_deltas: bool,
    n: int,
)
    requires
        0 <= n <= selections.len(),
    ensures
        selection_fault(selections, structured_deltas, n) is None <==> {
            &&& forall|i: int|
                0 <= i < n ==> text::trimmed((#[trigger] selections[i]).id@).len() > 0
            &&& forall|i: int, j: int|
                0 <= i < j < n ==> text::trimmed((#[trigger] selections[i]).id@) != text::trimmed(
                    (#[trigger] selections[j]).id@,
                )
            &&& structured_deltas || forall|i: int|
                0 <= i < n ==> (#[trigger] selections[i]).prompt_cache_strategy != Some(
                    PromptCacheStrategy::ExperimentalStructuredDeltas,
                )
        },
    decreases n,
{
    if n > 0 {
        law_models_are_refused_for_cause_only(selections, structured_deltas, n - 1);
        let last = selections[n - 1];
        if bad_model_id(selections, n - 1) && text::trimmed(last.id@).len() > 0 {
            let j = choose|j: int|
                0 <= j < n - 1 && text::trimmed((#[trigger] selections[j]).id@) == text::trimmed(
                    selections[n - 1].id@,
                );
            assert(0 <= j < n - 1 && text::trimmed(selections[j].id@) == text::trimmed(
                selections[n - 1].id@,
            ));
        }
    }
}

/// What an account offers of a selected model is what was selected: the identifier without spaces
/// round it, the alias unless it is blank, the strategy or the usual one, and every limit.
pub proof fn law_models_are_offered_as_selected(entry: ModelEntry, selection: ModelSelection)
    requires
        offers(entry, selection),
    ensures
        entry.id@ == text::trimmed(selection.id@),
        entry.alias is Some ==> entry.alias == selection.alias && text::trimmed(
            entry.alias->0@,
        ).len() > 0,
        selection.alias matches Some(alias) ==> (text::trimmed(alias@).len() > 0 ==> entry.alias
            == Some(alias)),
        selection.prompt_cache_strategy matches Some(strategy) ==> entry.prompt_cache_strategy
            == strategy,
        selection.prompt_cache_strategy is None ==> entry.prompt_cache_strategy is Default,
        entry.limits.context_window_tokens == selection.limits.context_window_tokens,
        entry.limits.max_input_tokens == selection.limits.max_input_tokens,
        entry.limits.max_output_tokens == selection.limits.max_output_tokens,
        entry.limits.max_input_attachments == selection.limits.max_input_attachments,
        entry.limits.max_input_attachment_bytes == selection.limits.max_input_attachment_bytes,
        entry.limits.max_input_attachment_total_bytes
            == selection.limits.max_input_attachment_total_bytes,
{
}

/// The refusal to delete a shared account names every agent but the default one, in order: another
/// agent comes behind those before it, and the default agent is passed over.
pub proof fn law_sharing_agents_are_named_in_order(
    agents: Seq<String>,
    agent: String,
    default_agent: Seq<char>,
)
    ensures
        agent@ == default_agent ==> other_agents(agents.push(agent), default_agent) == other_agents(
            agents,
            default_agent,
        ),
        agent@ != default_agent && shared_with_others(agents, default_agent) ==> other_agents(
            agents.push(agent),
            default_agent,
        ) == other_agents(agents, default_agent) + ", "@ + agent@,
        agent@ != default_agent && !shared_with_others(agents, default_agent) ==> other_agents(
            agents.push(agent),
            default_agent,
        ) == agent@,
        shared_with_others(agents.push(agent), default_agent) <==> agent@ != default_agent
            || shared_with_others(agents, default_agent),
        !shared_with_others(Seq::<String>::empty(), default_agent),
{
    let more = agents.push(agent);
    assert(more.drop_last() =~= agents);
    assert(more.last() == agent);
    if shared_with_others(agents, default_agent) {
        let i = choose|i: int| 0 <= i < agents.len() && (#[trigger] agents[i])@ != default_agent;
        assert(more[i]@ != default_agent);
    }
    if agent@ != default_agent {
        assert(more[agents.len() as int]@ != default_agent);
    }
    if shared_with_others(more, default_agent) {
        let i = choose|i: int| 0 <= i < more.len() && (#[trigger] more[i])@ != default_agent;
        if i < agents.len() {
            assert(agents[i]@ != default_agent);
        }
    }
}

/// How deleting an account goes on: a refused unbinding ends it, a deleted account answers with the
/// receipt, and what was refused without a binding is answered as it was refused.
pub proof fn law_deletions_go_on_step_by_step(
    unbound: Result<(), SdkError>,
    was_bound: bool,
    deleted: Result<Json, SdkError>,
)
    ensures
        unbound is Ok ==> unbinding_outcome(unbound) == (DeleteAccountStep::DeleteConfig {
            was_bound: true,
        }),
        unbound matches Err(refusal) ==> unbinding_outcome(unbound) == DeleteAccountStep::Answer(
            Err(error::sdk_reply(refusal)),
        ),
        deleted matches Ok(receipt) ==> (config_deletion_outcome(was_bound, deleted) matches
            DeleteAccountStep::Answer(Ok(reply)) && reply.status == 200 && reply.body == Body::Value(
            receipt,
        )),
        deleted matches Err(refusal) ==> if was_bound {
            config_deletion_outcome(was_bound, deleted) == (DeleteAccountStep::RestoreBinding {
                refusal,
            })
        } else {
            config_deletion_outcome(was_bound, deleted) == DeleteAccountStep::Answer(
                Err(error::sdk_reply(refusal)),
            )
        },
{
}

/// A refused setup is told why: which parts do not belong together, or which secret is there already.
pub proof fn law_refused_setups_are_told_why(setup: CatalogSetup, names: Vec<String>, step: SetupStep)
    ensures
        setup.credential_id is Some != setup.credential is Some ==> setup_fault(setup) == Some(
            "credential_id and credential must be provided or omitted together",
        ),
        setup.credential_id is None && setup.credential is None && setup.managed_secret is Some
            ==> setup_fault(setup) == Some(
            "managed_secret may be submitted only with credential_id and credential",
        ),
        setup.managed_secret matches Some(secret) ==> (follows_listing(
            step,
            setup,
            StoreOutcome::Done(names),
        ) && (step matches SetupStep::Answer(Err(refusal))) ==> (step matches SetupStep::Answer(
            Err(refusal),
        ) && refusal.code == error::ErrorCode::InvalidArgument && refusal.message@
            == "managed credential '"@ + text::trimmed(secret.name@)
            + "' already exists; first-time setup refuses to overwrite it"@)),
{
}

/// A refused list of models is told why: by its first model that is at fault.
pub proof fn law_refused_models_are_told_why(
    selections: Seq<ModelSelection>,
    structured_deltas: bool,
    n: int,
)
    requires
        0 < n <= selections.len(),
        selection_fault(selections, structured_deltas, n - 1) is None,
    ensures
        text::trimmed(selections[n - 1].id@).len() == 0 ==> selection_fault(
            selections,
            structured_deltas,
            n,
        ) == Some("model IDs must not be empty or duplicated"),
        selection_fault(selections, structured_deltas, n) is Some && !bad_model_id(
            selections,
            n - 1,
        ) ==> selection_fault(selections, structured_deltas, n) == Some(
            "experimental-structured-deltas requires a Morphz build with feature experimental-structured-context-delta-cache",
        ),
{
}

} // verus!
