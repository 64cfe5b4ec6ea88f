use morphz_web::approval::{
    approval_rationale, approval_refusal, decide_approval, ApprovalAction, CapabilityLeaseScope,
};
use morphz_web::error::{Message, SdkError, SdkErrorCode};
use morphz_web::inference::{
    first_inference_stage, next_inference_stage, plan_inference, InferencePlan, InferenceStage,
    ModelOption, UpdateInferenceRequest,
};
use morphz_web::json::Json;
use morphz_web::login::{
    begin_by_name, begin_by_redirect, next_login_task, Completion, LoginInput, LoginProgress,
    LoginTask,
};
use morphz_web::oauth::{
    available_services, callback_page_headers, login_cancelled_reply, oauth_account_setup,
    oauth_callback, oauth_callback_page, oauth_provider_setup,
    oauth_provider_setup_service_descriptors, MessagesVendor, ModelProtocol, OAuthCallbackQuery,
};
use morphz_web::provider::{
    account_models, after_binding, bind_dashboard_default_agent_provider_account,
    check_catalog_setup, next_setup_step, on_account_deleted, on_binding_restored, on_catalog_stored,
    on_default_agent_unbound, on_secret_deleted, on_secret_stored, on_secrets_listed,
    secret_deleted_reply, secret_stored_reply, start_catalog_setup, start_delete_account, BindStep,
    CatalogSetup, CredentialDraft, CredentialSource, DeleteAccountStep, ModelLimits,
    ModelSelection, PromptCacheStrategy, SecretDraft, SecretScope, SetupInput, SetupStep,
    StoreOutcome,
};
use morphz_web::text::text_set;

fn refusal(code: SdkErrorCode) -> SdkError {
    SdkError {
        code,
        message: Message::Fixed("refused"),
    }
}

fn setup() -> CatalogSetup {
    CatalogSetup {
        provider_id: " dashboard-provider ".to_string(),
        account_id: "dashboard-account".to_string(),
        route_id: "dashboard-model".to_string(),
        account_credential_ref: "dashboard-credential".to_string(),
        account_secret_backend: None,
        credential_id: Some("dashboard-credential".to_string()),
        credential: Some(CredentialDraft {
            source: CredentialSource::Env,
            name: Some("MORPHZ_PROVIDER_DASHBOARD_API_KEY".to_string()),
        }),
        managed_secret: Some(SecretDraft {
            name: " MORPHZ_PROVIDER_DASHBOARD_API_KEY ".to_string(),
            scope: SecretScope::Runtime,
            scope_id: None,
            value_backend: None,
        }),
    }
}

#[test]
fn provider_setups_are_checked_before_anything_is_stored() {
    let fault = |setup: &CatalogSetup| {
        let refusal = check_catalog_setup(setup).err().unwrap();
        assert_eq!(refusal.status, 400);
        refusal.message.text()
    };
    assert!(check_catalog_setup(&setup()).is_ok());
    let mut lone = setup();
    lone.credential = None;
    assert_eq!(
        fault(&lone),
        "credential_id and credential must be provided or omitted together"
    );
    let mut unbound = setup();
    unbound.credential = None;
    unbound.credential_id = None;
    assert_eq!(
        fault(&unbound),
        "managed_secret may be submitted only with credential_id and credential"
    );
    let mut other = setup();
    other.account_credential_ref = "other".to_string();
    assert_eq!(
        fault(&other),
        "managed_secret, credential, and account credential_ref must reference the same credential"
    );
    let mut scoped = setup();
    scoped.managed_secret.as_mut().unwrap().scope = SecretScope::Other;
    assert_eq!(
        fault(&scoped),
        "Provider API Key must use Runtime scope and must not set scope_id"
    );
    let mut elsewhere = setup();
    elsewhere.account_secret_backend = Some("env".to_string());
    assert_eq!(
        fault(&elsewhere),
        "managed_secret value_backend must match the account secret_backend"
    );
}

#[test]
fn a_provider_setup_runs_through_its_steps() {
    let setup = setup();
    assert!(matches!(
        start_catalog_setup(&setup, true),
        SetupStep::ListSecrets
    ));
    assert!(matches!(
        start_catalog_setup(&setup, false),
        SetupStep::Answer(Err(reply)) if reply.status == 500
    ));
    assert!(matches!(
        on_secrets_listed(&setup, StoreOutcome::Done(vec!["OTHER".to_string()])),
        SetupStep::PutSecret { name } if name == "MORPHZ_PROVIDER_DASHBOARD_API_KEY"
    ));
    match on_secrets_listed(
        &setup,
        StoreOutcome::Done(vec!["MORPHZ_PROVIDER_DASHBOARD_API_KEY".to_string()]),
    ) {
        SetupStep::Answer(Err(reply)) => assert_eq!(
            reply.message.text(),
            "managed credential 'MORPHZ_PROVIDER_DASHBOARD_API_KEY' already exists; first-time setup refuses to overwrite it"
        ),
        _ => panic!("a stored secret is not overwritten"),
    }
    assert!(matches!(
        on_secret_stored(&setup, "S".to_string(), StoreOutcome::Done(())),
        SetupStep::PutCatalog { provider_id, account_id, route_id, created_secret }
            if provider_id == "dashboard-provider"
                && account_id == "dashboard-account"
                && route_id == "dashboard-model"
                && created_secret.as_deref() == Some("S")
    ));
    assert!(matches!(
        on_secret_stored(&setup, "S".to_string(), StoreOutcome::Lost),
        SetupStep::Answer(Err(reply)) if reply.status == 500
    ));
    assert!(matches!(
        on_catalog_stored("a".to_string(), Some("S".to_string()), Ok(Json::Null)),
        SetupStep::BindDefaultAgent { account_id, .. } if account_id == "a"
    ));
}

#[test]
fn a_failed_setup_takes_its_secret_back() {
    let step = on_catalog_stored(
        "a".to_string(),
        Some("MORPHZ_PROVIDER_ROLLBACK_API_KEY".to_string()),
        Err(refusal(SdkErrorCode::InvalidArgument)),
    );
    match step {
        SetupStep::DeleteSecret { name, refusal } => {
            assert_eq!(name, "MORPHZ_PROVIDER_ROLLBACK_API_KEY");
            assert!(matches!(
                on_secret_deleted(refusal, StoreOutcome::Done(true)),
                SetupStep::Answer(Err(reply)) if reply.status == 400
            ));
        }
        _ => panic!("the secret of a failed setup is deleted"),
    }
    assert!(matches!(
        on_catalog_stored("a".to_string(), None, Err(refusal(SdkErrorCode::Conflict))),
        SetupStep::Answer(Err(reply)) if reply.status == 409
    ));
    assert!(matches!(
        on_secret_deleted(refusal(SdkErrorCode::Conflict), StoreOutcome::Done(false)),
        SetupStep::Answer(Err(reply)) if reply.status == 500
    ));
}

#[test]
fn a_whole_setup_deletes_the_secret_that_it_stored() {
    let setup = setup();
    let step = start_catalog_setup(&setup, true);
    let step = next_setup_step(
        &setup,
        step,
        SetupInput::Listed(StoreOutcome::Done(vec!["OTHER".to_string()])),
    );
    let step = next_setup_step(&setup, step, SetupInput::SecretStored(StoreOutcome::Done(())));
    assert!(matches!(step, SetupStep::PutCatalog { .. }));
    let step = next_setup_step(
        &setup,
        step,
        SetupInput::CatalogStored(Err(refusal(SdkErrorCode::Conflict))),
    );
    match &step {
        SetupStep::DeleteSecret { name, .. } => {
            assert_eq!(name, "MORPHZ_PROVIDER_DASHBOARD_API_KEY")
        }
        _ => panic!("the secret of a failed setup is deleted"),
    }
    let step = next_setup_step(&setup, step, SetupInput::SecretDeleted(StoreOutcome::Done(true)));
    assert!(matches!(step, SetupStep::Answer(Err(reply)) if reply.status == 409));

    let mut bare = self::setup();
    bare.managed_secret = None;
    let step = start_catalog_setup(&bare, true);
    let step = next_setup_step(
        &bare,
        step,
        SetupInput::CatalogStored(Err(refusal(SdkErrorCode::Conflict))),
    );
    assert!(matches!(step, SetupStep::Answer(Err(reply)) if reply.status == 409));

    let step = start_catalog_setup(&bare, true);
    let step = next_setup_step(&bare, step, SetupInput::CatalogStored(Ok(Json::Bool(true))));
    assert!(matches!(step, SetupStep::BindDefaultAgent { .. }));
    let step = next_setup_step(&bare, step, SetupInput::Bound(Ok(())));
    assert!(matches!(step, SetupStep::Answer(Ok(reply)) if reply.status == 200));
    assert!(matches!(
        next_setup_step(&bare, SetupStep::ListSecrets, SetupInput::Bound(Ok(()))),
        SetupStep::Answer(Err(reply)) if reply.status == 500
    ));
}

#[test]
fn accounts_are_bound_to_an_agent_that_exists() {
    assert!(matches!(
        bind_dashboard_default_agent_provider_account(Ok(true)),
        BindStep::Bind
    ));
    assert!(matches!(
        bind_dashboard_default_agent_provider_account(Ok(false)),
        BindStep::Nothing
    ));
    assert!(matches!(
        bind_dashboard_default_agent_provider_account(Err("x".to_string())),
        BindStep::Failed(refusal) if refusal.code == SdkErrorCode::Internal
    ));
    assert_eq!(after_binding(Json::Null, Ok(())).ok().unwrap().status, 200);
    assert_eq!(
        after_binding(Json::Null, Err(refusal(SdkErrorCode::NotFound)))
            .err()
            .unwrap()
            .status,
        404
    );
}

fn selection(id: &str, alias: Option<&str>) -> ModelSelection {
    ModelSelection {
        id: id.to_string(),
        alias: alias.map(str::to_string),
        prompt_cache_strategy: None,
        limits: ModelLimits {
            context_window_tokens: Some(200_000),
            max_input_tokens: None,
            max_output_tokens: None,
            max_input_attachments: None,
            max_input_attachment_bytes: None,
            max_input_attachment_total_bytes: None,
        },
    }
}

#[test]
fn account_models_are_trimmed_and_distinct() {
    let entries = account_models(
        &vec![selection(" a ", Some("fast")), selection("b", Some("  "))],
        false,
    )
    .ok()
    .unwrap();
    assert_eq!(entries.len(), 2);
    assert_eq!(entries[0].id, "a");
    assert_eq!(entries[0].alias.as_deref(), Some("fast"));
    assert_eq!(entries[0].limits.context_window_tokens, Some(200_000));
    assert!(entries[1].alias.is_none());
    assert!(matches!(
        entries[0].prompt_cache_strategy,
        PromptCacheStrategy::Default
    ));
    for bad in [
        vec![selection("a", None), selection(" a", None)],
        vec![selection("  ", None)],
    ] {
        let refusal = account_models(&bad, true).err().unwrap();
        assert_eq!(refusal.status, 400);
        assert_eq!(
            refusal.message.text(),
            "model IDs must not be empty or duplicated"
        );
    }
    let mut experimental = selection("a", None);
    experimental.prompt_cache_strategy = Some(PromptCacheStrategy::ExperimentalStructuredDeltas);
    let refusal = account_models(&vec![experimental], false).err().unwrap();
    assert_eq!(
        refusal.message.text(),
        "experimental-structured-deltas requires a Morphz build with feature experimental-structured-context-delta-cache"
    );
}

#[test]
fn shared_accounts_are_not_deleted() {
    let bound = |agents: &[&str]| {
        start_delete_account(
            "dashboard-default-account",
            "agent-test",
            Ok(agents.iter().map(|agent| agent.to_string()).collect()),
        )
    };
    assert!(matches!(
        bound(&["agent-test"]),
        DeleteAccountStep::UnbindDefaultAgent
    ));
    assert!(matches!(
        bound(&[]),
        DeleteAccountStep::DeleteConfig { was_bound: false }
    ));
    match bound(&["x", "agent-test", "y"]) {
        DeleteAccountStep::Answer(Err(reply)) => {
            assert_eq!(reply.status, 409);
            assert_eq!(
                reply.message.text(),
                "Auth Account 'dashboard-default-account' is shared by Agent(s): x, y; remove those Agent bindings before deleting the account"
            );
        }
        _ => panic!("an account of other agents is kept"),
    }
    assert!(matches!(
        start_delete_account("a", "agent-test", Err("x".to_string())),
        DeleteAccountStep::Answer(Err(reply)) if reply.status == 500
    ));
    assert!(matches!(
        on_default_agent_unbound(Ok(())),
        DeleteAccountStep::DeleteConfig { was_bound: true }
    ));
    assert!(matches!(
        on_account_deleted(true, Ok(Json::Null)),
        DeleteAccountStep::Answer(Ok(reply)) if reply.status == 200
    ));
    match on_account_deleted(true, Err(refusal(SdkErrorCode::Conflict))) {
        DeleteAccountStep::RestoreBinding { refusal } => assert!(matches!(
            on_binding_restored(refusal, true),
            DeleteAccountStep::Answer(Err(reply)) if reply.status == 409
        )),
        _ => panic!("the binding of an account that stays is restored"),
    }
    assert!(matches!(
        on_account_deleted(false, Err(refusal(SdkErrorCode::Conflict))),
        DeleteAccountStep::Answer(Err(reply)) if reply.status == 409
    ));
}

#[test]
fn secrets_are_stored_and_deleted() {
    let stored = secret_stored_reply(StoreOutcome::Done(Json::Null), "why".to_string());
    assert_eq!(stored.ok().unwrap().status, 201);
    let refused = secret_stored_reply(
        StoreOutcome::Refused(refusal(SdkErrorCode::Conflict)),
        "why".to_string(),
    );
    let refused = refused.err().unwrap();
    assert_eq!(refused.status, 400);
    assert_eq!(refused.message.text(), "why");
    let missing = secret_deleted_reply(StoreOutcome::Done(false)).err().unwrap();
    assert_eq!(missing.status, 404);
    assert_eq!(missing.message.text(), "managed credential does not exist");
    assert!(secret_deleted_reply(StoreOutcome::Done(true)).is_ok());
    assert_eq!(
        secret_deleted_reply(StoreOutcome::Lost).err().unwrap().status,
        500
    );
}

fn vendor() -> MessagesVendor {
    MessagesVendor {
        name: "acme".to_string(),
        label: "Acme".to_string(),
    }
}

#[test]
fn oauth_services_have_their_profiles() {
    let of = |service: &str| {
        oauth_account_setup(
            service,
            "account_12-a".to_string(),
            "https://daily.example".to_string(),
            &vendor(),
        )
    };
    let codex = of(" codex ").ok().unwrap();
    assert_eq!(codex.credential_ref, "MORPHZ_OAUTH_ACCOUNT_12_A");
    assert_eq!(codex.account_id, "account_12-a");
    assert_eq!(codex.profile.provider_id.as_str(), "codex-subscription");
    assert_eq!(codex.profile.protocol, ModelProtocol::OpenaiResponses);
    assert_eq!(codex.profile.login_adapter, Some("codex-oauth"));
    let device = of("codex-device").ok().unwrap();
    assert_eq!(device.profile.login_adapter, Some("codex-device-oauth"));
    assert_eq!(device.profile.auth_adapter.as_str(), "codex-oauth");
    let kimi = of("kimi").ok().unwrap();
    assert_eq!(
        kimi.profile.base_url.as_str(),
        "https://api.kimi.com/coding/v1"
    );
    assert_eq!(kimi.profile.secret_backend, Some("morphz_env_file"));
    let messages = of("anthropic").ok().unwrap();
    assert_eq!(messages.profile.provider_id.as_str(), "acme-subscription");
    assert_eq!(messages.profile.provider_adapter.as_str(), "acme-code");
    assert_eq!(messages.profile.auth_adapter.as_str(), "acme-oauth");
    assert_eq!(messages.profile.account_label.as_str(), "Acme");
    assert_eq!(messages.profile.protocol, ModelProtocol::AnthropicMessages);
    assert_eq!(of("acme").ok().unwrap().profile.account_label.as_str(), "Acme");
    let antigravity = of("antigravity").ok().unwrap();
    assert_eq!(antigravity.profile.base_url.as_str(), "https://daily.example");
    assert_eq!(antigravity.profile.protocol, ModelProtocol::GeminiContent);
    let xai = of("xai").ok().unwrap();
    assert_eq!(xai.profile.account_label.as_str(), "xAI");
    assert_eq!(
        of("other").err().unwrap(),
        "this OAuth service is not integrated with Runtime"
    );
}

#[test]
fn only_services_with_an_adapter_are_offered() {
    let all = oauth_provider_setup_service_descriptors(&vendor());
    let ids: Vec<&str> = all.iter().map(|service| service.id).collect();
    assert_eq!(ids, vec!["codex", "kimi", "anthropic", "antigravity", "xai"]);
    let registered = text_set(&vec!["xai-oauth".to_string(), "acme-oauth".to_string()]);
    let offered = available_services(&registered, &vendor());
    let ids: Vec<&str> = offered.iter().map(|service| service.id).collect();
    assert_eq!(ids, vec!["anthropic", "xai"]);
    for service in &all {
        let setup = oauth_provider_setup(
            service.id,
            7,
            "https://daily.example".to_string(),
            &vendor(),
        )
        .ok()
        .unwrap();
        assert_eq!(
            setup.profile.auth_adapter.as_str(),
            service.auth_adapter.as_str()
        );
    }
}

#[test]
fn accounts_have_names_of_their_own() {
    let of = |service: &str, number: u64| {
        oauth_provider_setup(service, number, "https://daily.example".to_string(), &vendor())
            .ok()
            .unwrap()
    };
    let first = of("codex", 1);
    let second = of("codex", 11);
    assert!(first.account_id.starts_with("account_"));
    assert!(first.account_id.ends_with("_1"));
    assert_ne!(first.account_id, second.account_id);
    assert_ne!(first.credential_ref, second.credential_ref);
    assert_eq!(
        first.credential_ref,
        format!("MORPHZ_OAUTH_{}", first.account_id.to_ascii_uppercase())
    );
    assert!(oauth_provider_setup("other", 1, String::new(), &vendor()).is_err());
}

#[test]
fn redirects_find_their_own_login() {
    let task = begin_by_redirect("https://here/?state=s&code=c".to_string());
    let task = next_login_task(task, LoginInput::State(Ok("s".to_string())));
    assert!(matches!(&task, LoginTask::FindLogin { state, .. } if state == "s"));
    let task = next_login_task(task, LoginInput::Login(Ok("login-7".to_string())));
    match &task {
        LoginTask::Continue {
            login_id,
            completion: Completion::AuthorizationResponse { response },
            by_redirect: true,
        } => {
            assert_eq!(login_id, "login-7");
            assert_eq!(response, "https://here/?state=s&code=c");
        }
        _ => panic!("the login that waits for the state goes on"),
    }
    let task = next_login_task(
        task,
        LoginInput::Progress(Ok(LoginProgress::Complete {
            account_id: "account-1".to_string(),
            told: Json::Bool(true),
        })),
    );
    assert!(matches!(&task, LoginTask::Bind { account_id, .. } if account_id == "account-1"));
    match next_login_task(task, LoginInput::Bound(Ok(()))) {
        LoginTask::Answer(Ok(answer)) => {
            assert_eq!(answer.login_id.as_deref(), Some("login-7"));
            assert!(matches!(answer.progress, Json::Bool(true)));
        }
        _ => panic!("a bound account is answered"),
    }
    let refused = |task: LoginTask, input: LoginInput| match next_login_task(task, input) {
        LoginTask::Answer(Err(reply)) => reply.status,
        _ => 0,
    };
    let redirect = || begin_by_redirect("x".to_string());
    assert_eq!(refused(redirect(), LoginInput::State(Err("no state".to_string()))), 400);
    let unknown = next_login_task(redirect(), LoginInput::State(Ok("s".to_string())));
    assert_eq!(refused(unknown, LoginInput::Login(Err("expired".to_string()))), 400);
    assert_eq!(refused(redirect(), LoginInput::Bound(Ok(()))), 500);
}

#[test]
fn a_login_that_waits_binds_no_account() {
    let named = || begin_by_name("login-7".to_string(), Json::Null);
    match next_login_task(named(), LoginInput::Progress(Ok(LoginProgress::Pending(Json::Null)))) {
        LoginTask::Answer(Ok(answer)) => assert!(answer.login_id.is_none()),
        _ => panic!("a login that waits is answered as it is"),
    }
    let failed = next_login_task(named(), LoginInput::Progress(Err("denied".to_string())));
    assert!(matches!(failed, LoginTask::Answer(Err(reply)) if reply.status == 400));
    let complete = next_login_task(
        named(),
        LoginInput::Progress(Ok(LoginProgress::Complete {
            account_id: "a".to_string(),
            told: Json::Null,
        })),
    );
    let unbound = next_login_task(
        complete,
        LoginInput::Bound(Err(refusal(SdkErrorCode::Conflict))),
    );
    assert!(matches!(unbound, LoginTask::Answer(Err(reply)) if reply.status == 409));
}

#[test]
fn oauth_redirects_report_errors_or_codes() {
    let redirect = |code: Option<&str>, error: Option<&str>, description: Option<&str>| {
        oauth_callback(OAuthCallbackQuery {
            state: "s".to_string(),
            code: code.map(str::to_string),
            error: error.map(str::to_string),
            error_description: description.map(str::to_string),
        })
    };
    assert!(redirect(Some("c"), None, None).success);
    assert!(!redirect(Some(" "), None, None).success);
    let failed = redirect(Some("c"), Some("denied"), Some("  "));
    assert!(!failed.success);
    assert_eq!(failed.error.as_deref(), Some("denied"));
    let described = redirect(None, Some("denied"), Some("not you"));
    assert_eq!(described.error.as_deref(), Some("not you"));
    let page = oauth_callback_page(true, true);
    assert_eq!(page.status, 200);
    assert!(page.html().contains("Morphz login complete"));
    assert_eq!(oauth_callback_page(false, true).status, 400);
    assert_eq!(oauth_callback_page(true, false).status, 400);
    assert!(callback_page_headers().contains(&("cache-control", "no-store")));
}

fn options() -> Vec<ModelOption> {
    vec![
        ModelOption {
            id: "fixture-model".to_string(),
            supported_reasoning_efforts: None,
        },
        ModelOption {
            id: "grok-4.5".to_string(),
            supported_reasoning_efforts: Some(vec![
                "low".to_string(),
                "medium".to_string(),
                "high".to_string(),
            ]),
        },
        ModelOption {
            id: "plain".to_string(),
            supported_reasoning_efforts: Some(vec![]),
        },
    ]
}

fn change(model: Option<&str>, effort: Option<&str>, limit: Option<u64>) -> UpdateInferenceRequest {
    UpdateInferenceRequest {
        model: model.map(str::to_string),
        reasoning_effort: effort.map(str::to_string),
        prompt_token_limit: limit,
    }
}

#[test]
fn inference_changes_stay_within_the_catalog() {
    let plan = |request: UpdateInferenceRequest, parsed: Option<&str>| {
        plan_inference(
            request,
            "fixture-model",
            Some("low".to_string()),
            parsed.map(str::to_string),
            &options(),
        )
    };
    let switched = plan(change(Some(" grok-4.5 "), None, None), None).ok().unwrap();
    assert_eq!(switched.model, "grok-4.5");
    assert!(switched.switches_model);
    assert_eq!(switched.effort.as_deref(), Some("low"));
    let fault = |request: UpdateInferenceRequest, parsed: Option<&str>| {
        let refusal = plan(request, parsed).err().unwrap();
        assert_eq!(refusal.status, 400);
        refusal.message.text()
    };
    assert_eq!(
        fault(change(Some("unlisted-model"), None, None), None),
        "model 'unlisted-model' is not in the discovered and enabled model catalog; runtime switch rejected"
    );
    assert_eq!(
        fault(change(Some("grok-4.5"), Some("max"), None), Some("max")),
        "model 'grok-4.5' does not support reasoning effort 'max'; this model supports only: low, medium, high"
    );
    assert_eq!(
        fault(change(Some("plain"), Some("max"), None), Some("max")),
        "model 'plain' does not support reasoning effort 'max'; this model does not provide reasoning effort selection"
    );
    assert_eq!(
        fault(change(None, Some("huge"), None), None),
        "reasoning_effort supports only default, none, low, medium, high, or max"
    );
    assert_eq!(
        fault(change(None, None, Some(0)), None),
        "prompt_token_limit must be greater than 0"
    );
    let reset = plan(change(None, Some(" Default "), Some(1_000_000)), None).ok().unwrap();
    assert!(reset.effort.is_none());
    assert!(!reset.switches_model);
    assert_eq!(reset.prompt_token_limit, Some(1_000_000));
}

#[test]
fn inference_changes_run_in_order() {
    assert_eq!(first_inference_stage(true).ok(), Some(InferenceStage::Save));
    assert_eq!(first_inference_stage(false).err().unwrap().status, 500);
    let plan = |switches_model: bool, limit: Option<u64>| InferencePlan {
        model: "m".to_string(),
        switches_model,
        effort: None,
        prompt_token_limit: limit,
    };
    let next = |plan: &InferencePlan, stage: InferenceStage| {
        next_inference_stage(plan, stage, Ok(())).ok().unwrap()
    };
    let full = plan(true, Some(5));
    assert_eq!(next(&full, InferenceStage::Save), InferenceStage::SetModel);
    assert_eq!(
        next(&full, InferenceStage::SetModel),
        InferenceStage::SetPromptTokenLimit
    );
    assert_eq!(
        next(&full, InferenceStage::SetPromptTokenLimit),
        InferenceStage::SetEffort
    );
    assert_eq!(next(&full, InferenceStage::SetEffort), InferenceStage::Report);
    let small = plan(false, None);
    assert_eq!(next(&small, InferenceStage::Save), InferenceStage::SetEffort);
    let failed = |stage: InferenceStage| {
        next_inference_stage(&small, stage, Err("x".to_string())).err().unwrap().status
    };
    assert_eq!(failed(InferenceStage::Save), 500);
    assert_eq!(failed(InferenceStage::SetModel), 400);
    assert_eq!(failed(InferenceStage::SetEffort), 501);
}

#[test]
fn approvals_are_decided_by_name() {
    let action = |word: &str| decide_approval(word).ok().unwrap();
    for word in ["allow_thread", "Allow_Lease", " approve_lease "] {
        assert_eq!(
            action(word),
            ApprovalAction::AllowScope(CapabilityLeaseScope::Thread)
        );
    }
    assert_eq!(
        action("allow_objective"),
        ApprovalAction::AllowScope(CapabilityLeaseScope::Objective)
    );
    assert_eq!(
        action("allow_session"),
        ApprovalAction::AllowScope(CapabilityLeaseScope::Session)
    );
    assert_eq!(action("approve"), ApprovalAction::AllowOnce);
    assert_eq!(action("reject"), ApprovalAction::Deny);
    let fault = |word: &str| {
        let refusal = decide_approval(word).err().unwrap();
        assert_eq!(refusal.status, 400);
        refusal.message.text()
    };
    assert_eq!(
        fault("FULL_ACCESS"),
        "An approval decision cannot enable Full Access; update the Session permission preset explicitly instead"
    );
    assert_eq!(
        fault("nonsense"),
        "decision supports only allow_once, allow_thread, allow_objective, allow_session, or deny"
    );
    assert_eq!(action("allow").risk_tag(), Some("human-approved"));
    assert_eq!(action("deny").risk_tag(), Some("human-denied"));
    assert!(action("allow_session").risk_tag().is_none());
    assert_eq!(
        approval_rationale(None).as_str(),
        "the user decided through the Morphz approval channel"
    );
    assert_eq!(
        approval_rationale(Some("because".to_string())).as_str(),
        "because"
    );
    assert_eq!(
        approval_refusal(ApprovalAction::Deny, "x".to_string()).status,
        404
    );
    assert_eq!(
        approval_refusal(action("allow_thread"), "x".to_string()).status,
        409
    );
}

#[test]
fn a_login_is_given_up_once() {
    assert_eq!(login_cancelled_reply(Ok(true)).ok().unwrap().status, 204);
    assert_eq!(login_cancelled_reply(Ok(false)).ok().unwrap().status, 404);
    let refused = login_cancelled_reply(Err("expired".to_string())).err().unwrap();
    assert_eq!(refused.status, 400);
    assert_eq!(refused.message.text(), "expired");
}
