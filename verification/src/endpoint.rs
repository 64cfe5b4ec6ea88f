use crate::auth;
use crate::auth::{
    is_authorized, is_operator_authorized, request_caller, request_principal, AppState,
    PrincipalAssertion,
};
use crate::error;
use crate::error::{
    error_response, sdk_error_response, unauthorized_response, ErrorReply, Message, SdkError,
};
use crate::headers;
use crate::headers::{edge_claim_token, node_device_token, HeaderMap};
use crate::json::Json;
use crate::reply;
use crate::reply::{bounded_limit, internal_response, Body, Reply};
use crate::text;
use vstd::prelude::*;

verus! {

#[derive(PartialEq, Eq, Structural, Clone, Copy, Debug)]
pub enum Method {
    Get,
    Post,
    Put,
    Patch,
    Delete,
}

/// Which credential a route asks for.
#[derive(PartialEq, Eq, Structural, Clone, Copy, Debug)]
pub enum Access {
    /// None: the request carries its own authority, or there is nothing to protect.
    Open,
    /// The operator's.
    Operator,
    /// The operator's or the gateway's.
    Caller,
    /// A paired device's.
    Device,
    /// A paired device's, with the claim of the command that it works on.
    Channel,
}

/// Whom a request acts as.
#[derive(PartialEq, Eq, Structural, Clone, Copy, Debug)]
pub enum Identity {
    /// It is not needed, or the handler settles it by itself.
    Unresolved,
    /// The caller.
    Caller,
    /// The caller, which the query may name.
    NamedCaller,
    /// The caller, which only reads: an operator may name whose data it sees.
    Reader,
    /// The caller, unless it is an operator, who sees everything.
    CallerUnlessOperator,
}

/// What a successful outcome is answered with.
#[derive(Clone, Copy)]
pub enum Outcome {
    /// The handler's own rules say.
    Own,
    Value { status: u16 },
    Named { status: u16, name: &'static str },
    Empty { status: u16 },
}

/// What a failed outcome is answered with.
#[derive(PartialEq, Eq, Structural, Clone, Copy, Debug)]
pub enum FailureRule {
    /// The handler's own rules say.
    Own,
    /// As the backend classified it.
    Sdk,
    /// This status, with the backend's words.
    Status(u16),
}

/// The rules of one route.
#[derive(Clone, Copy)]
pub struct Policy {
    pub method: Method,
    pub path: &'static str,
    pub access: Access,
    pub identity: Identity,
    pub outcome: Outcome,
    pub failure: FailureRule,
}

/// A route whose outcome the policy fixes.
#[verifier::allow_in_spec]
pub fn route(
    method: Method,
    path: &'static str,
    access: Access,
    identity: Identity,
    outcome: Outcome,
    failure: FailureRule,
) -> Policy
    returns
        (Policy { method, path, access, identity, outcome, failure }),
{
    Policy { method, path, access, identity, outcome, failure }
}

/// The routes of the dashboard, and the runtime as a whole.
#[derive(PartialEq, Eq, Structural, Clone, Copy, Debug)]
pub enum DashboardRoute {
    DashboardIndex,
    AppScript,
    AppStyle,
    Favicon,
    Icons,
    Health,
    Metrics,
    Status,
    RecentTurns,
    TurnTrace,
    SystemPrompt,
    RuntimeOverview,
}

impl DashboardRoute {
    pub open spec fn rules(self) -> Policy {
        match self {
            DashboardRoute::DashboardIndex => route(
                Method::Get, "/", Access::Open, Identity::Unresolved, Outcome::Own,
                FailureRule::Own,
            ),
            DashboardRoute::AppScript => route(
                Method::Get, "/assets/app.js", Access::Open, Identity::Unresolved, Outcome::Own,
                FailureRule::Own,
            ),
            DashboardRoute::AppStyle => route(
                Method::Get, "/assets/app.css", Access::Open, Identity::Unresolved, Outcome::Own,
                FailureRule::Own,
            ),
            DashboardRoute::Favicon => route(
                Method::Get, "/favicon.svg", Access::Open, Identity::Unresolved, Outcome::Own,
                FailureRule::Own,
            ),
            DashboardRoute::Icons => route(
                Method::Get, "/icons.svg", Access::Open, Identity::Unresolved, Outcome::Own,
                FailureRule::Own,
            ),
            DashboardRoute::Health => route(
                Method::Get, "/health", Access::Open, Identity::Unresolved, Outcome::Own,
                FailureRule::Own,
            ),
            DashboardRoute::Metrics => route(
                Method::Get, "/metrics", Access::Operator, Identity::Unresolved, Outcome::Own,
                FailureRule::Own,
            ),
            DashboardRoute::Status => route(
                Method::Get, "/api/status", Access::Operator, Identity::Unresolved, Outcome::Own,
                FailureRule::Own,
            ),
            DashboardRoute::RecentTurns => route(
                Method::Get, "/api/observability/turns", Access::Operator, Identity::Unresolved,
                Outcome::Own, FailureRule::Own,
            ),
            DashboardRoute::TurnTrace => route(
                Method::Get, "/api/observability/turns/:root_turn_id", Access::Operator,
                Identity::Unresolved, Outcome::Own, FailureRule::Own,
            ),
            DashboardRoute::SystemPrompt => route(
                Method::Get, "/api/runtime/system-prompt", Access::Operator, Identity::Unresolved,
                Outcome::Own, FailureRule::Own,
            ),
            DashboardRoute::RuntimeOverview => route(
                Method::Get, "/api/overview", Access::Operator, Identity::Unresolved,
                Outcome::Value { status: 200 }, FailureRule::Sdk,
            ),
        }
    }

    pub fn policy(self) -> (r: Policy)
        ensures
            r == self.rules(),
    {
        match self {
            DashboardRoute::DashboardIndex => route(
                Method::Get, "/", Access::Open, Identity::Unresolved, Outcome::Own,
                FailureRule::Own,
            ),
            DashboardRoute::AppScript => route(
                Method::Get, "/assets/app.js", Access::Open, Identity::Unresolved, Outcome::Own,
                FailureRule::Own,
            ),
            DashboardRoute::AppStyle => route(
                Method::Get, "/assets/app.css", Access::Open, Identity::Unresolved, Outcome::Own,
                FailureRule::Own,
            ),
            DashboardRoute::Favicon => route(
                Method::Get, "/favicon.svg", Access::Open, Identity::Unresolved, Outcome::Own,
                FailureRule::Own,
            ),
            DashboardRoute::Icons => route(
                Method::Get, "/icons.svg", Access::Open, Identity::Unresolved, Outcome::Own,
                FailureRule::Own,
            ),
            DashboardRoute::Health => route(
                Method::Get, "/health", Access::Open, Identity::Unresolved, Outcome::Own,
                FailureRule::Own,
            ),
            DashboardRoute::Metrics => route(
                Method::Get, "/metrics", Access::Operator, Identity::Unresolved, Outcome::Own,
                FailureRule::Own,
            ),
            DashboardRoute::Status => route(
                Method::Get, "/api/status", Access::Operator, Identity::Unresolved, Outcome::Own,
                FailureRule::Own,
            ),
            DashboardRoute::RecentTurns => route(
                Method::Get, "/api/observability/turns", Access::Operator, Identity::Unresolved,
                Outcome::Own, FailureRule::Own,
            ),
            DashboardRoute::TurnTrace => route(
                Method::Get, "/api/observability/turns/:root_turn_id", Access::Operator,
                Identity::Unresolved, Outcome::Own, FailureRule::Own,
            ),
            DashboardRoute::SystemPrompt => route(
                Method::Get, "/api/runtime/system-prompt", Access::Operator, Identity::Unresolved,
                Outcome::Own, FailureRule::Own,
            ),
            DashboardRoute::RuntimeOverview => route(
                Method::Get, "/api/overview", Access::Operator, Identity::Unresolved,
                Outcome::Value { status: 200 }, FailureRule::Sdk,
            ),
        }
    }
}

/// The routes of secrets, inference and agents.
#[derive(PartialEq, Eq, Structural, Clone, Copy, Debug)]
pub enum RuntimeRoute {
    ListSecrets,
    PutSecret,
    ImportSecret,
    SecretScopes,
    DeleteSecret,
    AutoReviewModel,
    EvaluationPolicy,
    GetInference,
    UpdateInference,
    ListAgents,
    CreateAgent,
    AgentAccounts,
    BindAgentAccount,
    UnbindAgentAccount,
}

impl RuntimeRoute {
    pub open spec fn rules(self) -> Policy {
        match self {
            RuntimeRoute::ListSecrets => route(
                Method::Get, "/api/runtime/secrets", Access::Operator, Identity::Unresolved,
                Outcome::Value { status: 200 }, FailureRule::Status(500),
            ),
            RuntimeRoute::PutSecret => route(
                Method::Post, "/api/runtime/secrets", Access::Operator, Identity::Unresolved,
                Outcome::Own, FailureRule::Own,
            ),
            RuntimeRoute::ImportSecret => route(
                Method::Post, "/api/runtime/secrets/import", Access::Operator, Identity::Unresolved,
                Outcome::Own, FailureRule::Own,
            ),
            RuntimeRoute::SecretScopes => route(
                Method::Get, "/api/runtime/secrets/scope-options", Access::Operator,
                Identity::Unresolved, Outcome::Value { status: 200 }, FailureRule::Status(500),
            ),
            RuntimeRoute::DeleteSecret => route(
                Method::Delete, "/api/runtime/secrets/:name", Access::Operator,
                Identity::Unresolved, Outcome::Own, FailureRule::Own,
            ),
            RuntimeRoute::AutoReviewModel => route(
                Method::Put, "/api/runtime/permissions/auto-review-model", Access::Operator,
                Identity::Unresolved, Outcome::Value { status: 200 }, FailureRule::Sdk,
            ),
            RuntimeRoute::EvaluationPolicy => route(
                Method::Put, "/api/runtime/evaluation-model-policy", Access::Operator,
                Identity::Unresolved, Outcome::Value { status: 200 }, FailureRule::Sdk,
            ),
            RuntimeRoute::GetInference => route(
                Method::Get, "/api/runtime/inference", Access::Operator, Identity::Unresolved,
                Outcome::Value { status: 200 }, FailureRule::Status(500),
            ),
            RuntimeRoute::UpdateInference => route(
                Method::Put, "/api/runtime/inference", Access::Operator, Identity::Unresolved,
                Outcome::Own, FailureRule::Own,
            ),
            RuntimeRoute::ListAgents => route(
                Method::Get, "/api/agents", Access::Operator, Identity::Unresolved,
                Outcome::Named { status: 200, name: "agents" }, FailureRule::Status(500),
            ),
            RuntimeRoute::CreateAgent => route(
                Method::Post, "/api/agents", Access::Operator, Identity::Caller, Outcome::Own,
                FailureRule::Own,
            ),
            RuntimeRoute::AgentAccounts => route(
                Method::Get, "/api/agents/:agent_id/provider-accounts", Access::Operator,
                Identity::Unresolved, Outcome::Value { status: 200 }, FailureRule::Sdk,
            ),
            RuntimeRoute::BindAgentAccount => route(
                Method::Put, "/api/agents/:agent_id/provider-accounts/:account_id",
                Access::Operator, Identity::Unresolved, Outcome::Value { status: 200 },
                FailureRule::Sdk,
            ),
            RuntimeRoute::UnbindAgentAccount => route(
                Method::Delete, "/api/agents/:agent_id/provider-accounts/:account_id",
                Access::Operator, Identity::Unresolved, Outcome::Value { status: 200 },
                FailureRule::Sdk,
            ),
        }
    }

    pub fn policy(self) -> (r: Policy)
        ensures
            r == self.rules(),
    {
        match self {
            RuntimeRoute::ListSecrets => route(
                Method::Get, "/api/runtime/secrets", Access::Operator, Identity::Unresolved,
                Outcome::Value { status: 200 }, FailureRule::Status(500),
            ),
            RuntimeRoute::PutSecret => route(
                Method::Post, "/api/runtime/secrets", Access::Operator, Identity::Unresolved,
                Outcome::Own, FailureRule::Own,
            ),
            RuntimeRoute::ImportSecret => route(
                Method::Post, "/api/runtime/secrets/import", Access::Operator, Identity::Unresolved,
                Outcome::Own, FailureRule::Own,
            ),
            RuntimeRoute::SecretScopes => route(
                Method::Get, "/api/runtime/secrets/scope-options", Access::Operator,
                Identity::Unresolved, Outcome::Value { status: 200 }, FailureRule::Status(500),
            ),
            RuntimeRoute::DeleteSecret => route(
                Method::Delete, "/api/runtime/secrets/:name", Access::Operator,
                Identity::Unresolved, Outcome::Own, FailureRule::Own,
            ),
            RuntimeRoute::AutoReviewModel => route(
                Method::Put, "/api/runtime/permissions/auto-review-model", Access::Operator,
                Identity::Unresolved, Outcome::Value { status: 200 }, FailureRule::Sdk,
            ),
            RuntimeRoute::EvaluationPolicy => route(
                Method::Put, "/api/runtime/evaluation-model-policy", Access::Operator,
                Identity::Unresolved, Outcome::Value { status: 200 }, FailureRule::Sdk,
            ),
            RuntimeRoute::GetInference => route(
                Method::Get, "/api/runtime/inference", Access::Operator, Identity::Unresolved,
                Outcome::Value { status: 200 }, FailureRule::Status(500),
            ),
            RuntimeRoute::UpdateInference => route(
                Method::Put, "/api/runtime/inference", Access::Operator, Identity::Unresolved,
                Outcome::Own, FailureRule::Own,
            ),
            RuntimeRoute::ListAgents => route(
                Method::Get, "/api/agents", Access::Operator, Identity::Unresolved,
                Outcome::Named { status: 200, name: "agents" }, FailureRule::Status(500),
            ),
            RuntimeRoute::CreateAgent => route(
                Method::Post, "/api/agents", Access::Operator, Identity::Caller, Outcome::Own,
                FailureRule::Own,
            ),
            RuntimeRoute::AgentAccounts => route(
                Method::Get, "/api/agents/:agent_id/provider-accounts", Access::Operator,
                Identity::Unresolved, Outcome::Value { status: 200 }, FailureRule::Sdk,
            ),
            RuntimeRoute::BindAgentAccount => route(
                Method::Put, "/api/agents/:agent_id/provider-accounts/:account_id",
                Access::Operator, Identity::Unresolved, Outcome::Value { status: 200 },
                FailureRule::Sdk,
            ),
            RuntimeRoute::UnbindAgentAccount => route(
                Method::Delete, "/api/agents/:agent_id/provider-accounts/:account_id",
                Access::Operator, Identity::Unresolved, Outcome::Value { status: 200 },
                FailureRule::Sdk,
            ),
        }
    }
}

/// The routes of model providers.
#[derive(PartialEq, Eq, Structural, Clone, Copy, Debug)]
pub enum ProviderRoute {
    Providers,
    ProviderAttempts,
    ControlAccount,
    DeleteAccount,
    ProviderSetup,
    DiscoverModels,
    OAuthSetup,
    OAuthCallback,
    SubmitOAuthCallback,
    OAuthServices,
    PutProviderInstance,
    PutAccountConfig,
    PutAccountModels,
    TestAccount,
    AccountUsage,
    RefreshAccountModels,
    PutModelRoute,
    TestModelRoute,
    RefreshModelRoute,
    StartLogin,
    StartLoginUsing,
    LogoutAccount,
    ContinueLogin,
    CancelLogin,
}

impl ProviderRoute {
    pub open spec fn rules(self) -> Policy {
        match self {
            ProviderRoute::Providers => route(
                Method::Get, "/api/runtime/providers", Access::Operator, Identity::Unresolved,
                Outcome::Value { status: 200 }, FailureRule::Status(500),
            ),
            ProviderRoute::ProviderAttempts => route(
                Method::Get, "/api/runtime/providers/attempts", Access::Operator,
                Identity::Unresolved, Outcome::Value { status: 200 }, FailureRule::Status(500),
            ),
            ProviderRoute::ControlAccount => route(
                Method::Patch, "/api/runtime/providers/accounts/:account_id", Access::Operator,
                Identity::Unresolved, Outcome::Value { status: 200 }, FailureRule::Status(409),
            ),
            ProviderRoute::DeleteAccount => route(
                Method::Delete, "/api/runtime/providers/accounts/:account_id", Access::Operator,
                Identity::Unresolved, Outcome::Own, FailureRule::Own,
            ),
            ProviderRoute::ProviderSetup => route(
                Method::Put, "/api/runtime/providers/setup", Access::Operator, Identity::Unresolved,
                Outcome::Own, FailureRule::Own,
            ),
            ProviderRoute::DiscoverModels => route(
                Method::Post, "/api/runtime/providers/discover-models", Access::Operator,
                Identity::Unresolved, Outcome::Named { status: 200, name: "models" },
                FailureRule::Status(400),
            ),
            ProviderRoute::OAuthSetup => route(
                Method::Post, "/api/runtime/providers/oauth/start", Access::Operator,
                Identity::Unresolved, Outcome::Value { status: 201 }, FailureRule::Sdk,
            ),
            ProviderRoute::OAuthCallback => route(
                Method::Get, "/api/runtime/providers/oauth/callback", Access::Open,
                Identity::Unresolved, Outcome::Own, FailureRule::Own,
            ),
            ProviderRoute::SubmitOAuthCallback => route(
                Method::Post, "/api/runtime/providers/oauth/callback", Access::Operator,
                Identity::Unresolved, Outcome::Own, FailureRule::Own,
            ),
            ProviderRoute::OAuthServices => route(
                Method::Get, "/api/runtime/providers/oauth/services", Access::Operator,
                Identity::Unresolved, Outcome::Own, FailureRule::Own,
            ),
            ProviderRoute::PutProviderInstance => route(
                Method::Put, "/api/runtime/providers/instances/:provider_id", Access::Operator,
                Identity::Unresolved, Outcome::Value { status: 200 }, FailureRule::Sdk,
            ),
            ProviderRoute::PutAccountConfig => route(
                Method::Put, "/api/runtime/providers/accounts/:account_id/config", Access::Operator,
                Identity::Unresolved, Outcome::Own, FailureRule::Own,
            ),
            ProviderRoute::PutAccountModels => route(
                Method::Put, "/api/runtime/providers/accounts/:account_id/models", Access::Operator,
                Identity::Unresolved, Outcome::Value { status: 200 }, FailureRule::Sdk,
            ),
            ProviderRoute::TestAccount => route(
                Method::Post, "/api/runtime/providers/accounts/:account_id/test", Access::Operator,
                Identity::Unresolved, Outcome::Value { status: 200 }, FailureRule::Sdk,
            ),
            ProviderRoute::AccountUsage => route(
                Method::Get, "/api/runtime/providers/accounts/:account_id/usage", Access::Operator,
                Identity::Unresolved, Outcome::Value { status: 200 }, FailureRule::Sdk,
            ),
            ProviderRoute::RefreshAccountModels => route(
                Method::Post, "/api/runtime/providers/accounts/:account_id/refresh-models",
                Access::Operator, Identity::Unresolved, Outcome::Value { status: 200 },
                FailureRule::Sdk,
            ),
            ProviderRoute::PutModelRoute => route(
                Method::Put, "/api/runtime/providers/routes/:route_id", Access::Operator,
                Identity::Unresolved, Outcome::Value { status: 200 }, FailureRule::Sdk,
            ),
            ProviderRoute::TestModelRoute => route(
                Method::Post, "/api/runtime/providers/routes/:route_id/test", Access::Operator,
                Identity::Unresolved, Outcome::Value { status: 200 }, FailureRule::Sdk,
            ),
            ProviderRoute::RefreshModelRoute => route(
                Method::Post, "/api/runtime/providers/routes/:route_id/refresh-models",
                Access::Operator, Identity::Unresolved, Outcome::Value { status: 200 },
                FailureRule::Sdk,
            ),
            ProviderRoute::StartLogin => route(
                Method::Post, "/api/runtime/providers/accounts/:account_id/oauth/start",
                Access::Operator, Identity::Unresolved, Outcome::Value { status: 201 },
                FailureRule::Status(400),
            ),
            ProviderRoute::StartLoginUsing => route(
                Method::Post, "/api/runtime/providers/accounts/:account_id/oauth/start/:adapter_id",
                Access::Operator, Identity::Unresolved, Outcome::Value { status: 201 },
                FailureRule::Status(400),
            ),
            ProviderRoute::LogoutAccount => route(
                Method::Post, "/api/runtime/providers/accounts/:account_id/oauth/logout",
                Access::Operator, Identity::Unresolved,
                Outcome::Named { status: 200, name: "deleted" }, FailureRule::Status(400),
            ),
            ProviderRoute::ContinueLogin => route(
                Method::Post, "/api/runtime/providers/oauth/:login_id/continue", Access::Operator,
                Identity::Unresolved, Outcome::Own, FailureRule::Own,
            ),
            ProviderRoute::CancelLogin => route(
                Method::Delete, "/api/runtime/providers/oauth/:login_id/continue", Access::Operator,
                Identity::Unresolved, Outcome::Own, FailureRule::Own,
            ),
        }
    }

    pub fn policy(self) -> (r: Policy)
        ensures
            r == self.rules(),
    {
        match self {
            ProviderRoute::Providers => route(
                Method::Get, "/api/runtime/providers", Access::Operator, Identity::Unresolved,
                Outcome::Value { status: 200 }, FailureRule::Status(500),
            ),
            ProviderRoute::ProviderAttempts => route(
                Method::Get, "/api/runtime/providers/attempts", Access::Operator,
                Identity::Unresolved, Outcome::Value { status: 200 }, FailureRule::Status(500),
            ),
            ProviderRoute::ControlAccount => route(
                Method::Patch, "/api/runtime/providers/accounts/:account_id", Access::Operator,
                Identity::Unresolved, Outcome::Value { status: 200 }, FailureRule::Status(409),
            ),
            ProviderRoute::DeleteAccount => route(
                Method::Delete, "/api/runtime/providers/accounts/:account_id", Access::Operator,
                Identity::Unresolved, Outcome::Own, FailureRule::Own,
            ),
            ProviderRoute::ProviderSetup => route(
                Method::Put, "/api/runtime/providers/setup", Access::Operator, Identity::Unresolved,
                Outcome::Own, FailureRule::Own,
            ),
            ProviderRoute::DiscoverModels => route(
                Method::Post, "/api/runtime/providers/discover-models", Access::Operator,
                Identity::Unresolved, Outcome::Named { status: 200, name: "models" },
                FailureRule::Status(400),
            ),
            ProviderRoute::OAuthSetup => route(
                Method::Post, "/api/runtime/providers/oauth/start", Access::Operator,
                Identity::Unresolved, Outcome::Value { status: 201 }, FailureRule::Sdk,
            ),
            ProviderRoute::OAuthCallback => route(
                Method::Get, "/api/runtime/providers/oauth/callback", Access::Open,
                Identity::Unresolved, Outcome::Own, FailureRule::Own,
            ),
            ProviderRoute::SubmitOAuthCallback => route(
                Method::Post, "/api/runtime/providers/oauth/callback", Access::Operator,
                Identity::Unresolved, Outcome::Own, FailureRule::Own,
            ),
            ProviderRoute::OAuthServices => route(
                Method::Get, "/api/runtime/providers/oauth/services", Access::Operator,
                Identity::Unresolved, Outcome::Own, FailureRule::Own,
            ),
            ProviderRoute::PutProviderInstance => route(
                Method::Put, "/api/runtime/providers/instances/:provider_id", Access::Operator,
                Identity::Unresolved, Outcome::Value { status: 200 }, FailureRule::Sdk,
            ),
            ProviderRoute::PutAccountConfig => route(
                Method::Put, "/api/runtime/providers/accounts/:account_id/config", Access::Operator,
                Identity::Unresolved, Outcome::Own, FailureRule::Own,
            ),
            ProviderRoute::PutAccountModels => route(
                Method::Put, "/api/runtime/providers/accounts/:account_id/models", Access::Operator,
                Identity::Unresolved, Outcome::Value { status: 200 }, FailureRule::Sdk,
            ),
            ProviderRoute::TestAccount => route(
                Method::Post, "/api/runtime/providers/accounts/:account_id/test", Access::Operator,
                Identity::Unresolved, Outcome::Value { status: 200 }, FailureRule::Sdk,
            ),
            ProviderRoute::AccountUsage => route(
                Method::Get, "/api/runtime/providers/accounts/:account_id/usage", Access::Operator,
                Identity::Unresolved, Outcome::Value { status: 200 }, FailureRule::Sdk,
            ),
            ProviderRoute::RefreshAccountModels => route(
                Method::Post, "/api/runtime/providers/accounts/:account_id/refresh-models",
                Access::Operator, Identity::Unresolved, Outcome::Value { status: 200 },
                FailureRule::Sdk,
            ),
            ProviderRoute::PutModelRoute => route(
                Method::Put, "/api/runtime/providers/routes/:route_id", Access::Operator,
                Identity::Unresolved, Outcome::Value { status: 200 }, FailureRule::Sdk,
            ),
            ProviderRoute::TestModelRoute => route(
                Method::Post, "/api/runtime/providers/routes/:route_id/test", Access::Operator,
                Identity::Unresolved, Outcome::Value { status: 200 }, FailureRule::Sdk,
            ),
            ProviderRoute::RefreshModelRoute => route(
                Method::Post, "/api/runtime/providers/routes/:route_id/refresh-models",
                Access::Operator, Identity::Unresolved, Outcome::Value { status: 200 },
                FailureRule::Sdk,
            ),
            ProviderRoute::StartLogin => route(
                Method::Post, "/api/runtime/providers/accounts/:account_id/oauth/start",
                Access::Operator, Identity::Unresolved, Outcome::Value { status: 201 },
                FailureRule::Status(400),
            ),
            ProviderRoute::StartLoginUsing => route(
                Method::Post, "/api/runtime/providers/accounts/:account_id/oauth/start/:adapter_id",
                Access::Operator, Identity::Unresolved, Outcome::Value { status: 201 },
                FailureRule::Status(400),
            ),
            ProviderRoute::LogoutAccount => route(
                Method::Post, "/api/runtime/providers/accounts/:account_id/oauth/logout",
                Access::Operator, Identity::Unresolved,
                Outcome::Named { status: 200, name: "deleted" }, FailureRule::Status(400),
            ),
            ProviderRoute::ContinueLogin => route(
                Method::Post, "/api/runtime/providers/oauth/:login_id/continue", Access::Operator,
                Identity::Unresolved, Outcome::Own, FailureRule::Own,
            ),
            ProviderRoute::CancelLogin => route(
                Method::Delete, "/api/runtime/providers/oauth/:login_id/continue", Access::Operator,
                Identity::Unresolved, Outcome::Own, FailureRule::Own,
            ),
        }
    }
}

/// The routes of contexts.
#[derive(PartialEq, Eq, Structural, Clone, Copy, Debug)]
pub enum ContextRoute {
    ListContexts,
    CreateContext,
    UpdateContext,
    GetTokenBudget,
    UpdateTokenBudget,
    GetCapability,
    UpdateCapability,
    WorkingSet,
    ContextOverview,
    ModelUsage,
    ContextActivations,
    Scheduler,
    ListAcknowledgements,
    Acknowledge,
    ThreadDetail,
    ControlThread,
    SupersedeThread,
    EventHistory,
    AuditProjection,
    SearchRecall,
    SearchDialogue,
    RecallIndex,
    RebuildRecallIndex,
    RecallFrame,
    FrameLifecycle,
}

impl ContextRoute {
    pub open spec fn rules(self) -> Policy {
        match self {
            ContextRoute::ListContexts => route(
                Method::Get, "/api/contexts", Access::Operator, Identity::Unresolved,
                Outcome::Named { status: 200, name: "contexts" }, FailureRule::Status(500),
            ),
            ContextRoute::CreateContext => route(
                Method::Post, "/api/contexts", Access::Caller, Identity::Unresolved, Outcome::Own,
                FailureRule::Own,
            ),
            ContextRoute::UpdateContext => route(
                Method::Patch, "/api/contexts/:context_id", Access::Operator, Identity::Unresolved,
                Outcome::Value { status: 200 }, FailureRule::Sdk,
            ),
            ContextRoute::GetTokenBudget => route(
                Method::Get, "/api/contexts/:context_id/token-budget", Access::Operator,
                Identity::Unresolved, Outcome::Value { status: 200 }, FailureRule::Sdk,
            ),
            ContextRoute::UpdateTokenBudget => route(
                Method::Patch, "/api/contexts/:context_id/token-budget", Access::Operator,
                Identity::Unresolved, Outcome::Own, FailureRule::Own,
            ),
            ContextRoute::GetCapability => route(
                Method::Get, "/api/contexts/:context_id/capabilities/:capability_id",
                Access::Operator, Identity::Unresolved, Outcome::Own, FailureRule::Own,
            ),
            ContextRoute::UpdateCapability => route(
                Method::Patch, "/api/contexts/:context_id/capabilities/:capability_id",
                Access::Operator, Identity::Unresolved, Outcome::Own, FailureRule::Own,
            ),
            ContextRoute::WorkingSet => route(
                Method::Get, "/api/contexts/:context_id/working-set", Access::Operator,
                Identity::Unresolved, Outcome::Own, FailureRule::Own,
            ),
            ContextRoute::ContextOverview => route(
                Method::Get, "/api/contexts/:context_id/overview", Access::Operator,
                Identity::Unresolved, Outcome::Value { status: 200 }, FailureRule::Sdk,
            ),
            ContextRoute::ModelUsage => route(
                Method::Get, "/api/contexts/:context_id/model-usage", Access::Operator,
                Identity::Unresolved, Outcome::Value { status: 200 }, FailureRule::Sdk,
            ),
            ContextRoute::ContextActivations => route(
                Method::Get, "/api/contexts/:context_id/activations", Access::Operator,
                Identity::Unresolved, Outcome::Own, FailureRule::Own,
            ),
            ContextRoute::Scheduler => route(
                Method::Get, "/api/contexts/:context_id/scheduler", Access::Operator,
                Identity::Unresolved, Outcome::Own, FailureRule::Own,
            ),
            ContextRoute::ListAcknowledgements => route(
                Method::Get, "/api/contexts/:context_id/attention/acknowledgements",
                Access::Operator, Identity::Unresolved, Outcome::Value { status: 200 },
                FailureRule::Sdk,
            ),
            ContextRoute::Acknowledge => route(
                Method::Post, "/api/contexts/:context_id/attention/acknowledgements",
                Access::Operator, Identity::Unresolved, Outcome::Value { status: 200 },
                FailureRule::Sdk,
            ),
            ContextRoute::ThreadDetail => route(
                Method::Get, "/api/contexts/:context_id/threads/:thread_id", Access::Operator,
                Identity::Unresolved, Outcome::Value { status: 200 }, FailureRule::Sdk,
            ),
            ContextRoute::ControlThread => route(
                Method::Post, "/api/contexts/:context_id/threads/:thread_id", Access::Operator,
                Identity::Unresolved, Outcome::Own, FailureRule::Own,
            ),
            ContextRoute::SupersedeThread => route(
                Method::Post, "/api/contexts/:context_id/threads/:thread_id/supersede",
                Access::Operator, Identity::Unresolved, Outcome::Own, FailureRule::Own,
            ),
            ContextRoute::EventHistory => route(
                Method::Get, "/api/contexts/:context_id/events", Access::Operator,
                Identity::Unresolved, Outcome::Value { status: 200 }, FailureRule::Sdk,
            ),
            ContextRoute::AuditProjection => route(
                Method::Post, "/api/contexts/:context_id/projection-audit", Access::Operator,
                Identity::Unresolved, Outcome::Value { status: 200 }, FailureRule::Sdk,
            ),
            ContextRoute::SearchRecall => route(
                Method::Get, "/api/contexts/:context_id/recall/search", Access::Operator,
                Identity::Unresolved, Outcome::Value { status: 200 }, FailureRule::Status(500),
            ),
            ContextRoute::SearchDialogue => route(
                Method::Get, "/api/contexts/:context_id/dialogue/search", Access::Caller,
                Identity::Reader, Outcome::Own, FailureRule::Own,
            ),
            ContextRoute::RecallIndex => route(
                Method::Get, "/api/contexts/:context_id/recall/index", Access::Operator,
                Identity::Unresolved, Outcome::Value { status: 200 }, FailureRule::Status(500),
            ),
            ContextRoute::RebuildRecallIndex => route(
                Method::Post, "/api/contexts/:context_id/recall/index/rebuild", Access::Operator,
                Identity::Unresolved, Outcome::Value { status: 200 }, FailureRule::Status(500),
            ),
            ContextRoute::RecallFrame => route(
                Method::Get, "/api/contexts/:context_id/frames/:frame_id/recall", Access::Operator,
                Identity::Unresolved, Outcome::Value { status: 200 }, FailureRule::Status(400),
            ),
            ContextRoute::FrameLifecycle => route(
                Method::Post, "/api/contexts/:context_id/frames/:frame_id/lifecycle",
                Access::Operator, Identity::Unresolved, Outcome::Own, FailureRule::Own,
            ),
        }
    }

    pub fn policy(self) -> (r: Policy)
        ensures
            r == self.rules(),
    {
        match self {
            ContextRoute::ListContexts => route(
                Method::Get, "/api/contexts", Access::Operator, Identity::Unresolved,
                Outcome::Named { status: 200, name: "contexts" }, FailureRule::Status(500),
            ),
            ContextRoute::CreateContext => route(
                Method::Post, "/api/contexts", Access::Caller, Identity::Unresolved, Outcome::Own,
                FailureRule::Own,
            ),
            ContextRoute::UpdateContext => route(
                Method::Patch, "/api/contexts/:context_id", Access::Operator, Identity::Unresolved,
                Outcome::Value { status: 200 }, FailureRule::Sdk,
            ),
            ContextRoute::GetTokenBudget => route(
                Method::Get, "/api/contexts/:context_id/token-budget", Access::Operator,
                Identity::Unresolved, Outcome::Value { status: 200 }, FailureRule::Sdk,
            ),
            ContextRoute::UpdateTokenBudget => route(
                Method::Patch, "/api/contexts/:context_id/token-budget", Access::Operator,
                Identity::Unresolved, Outcome::Own, FailureRule::Own,
            ),
            ContextRoute::GetCapability => route(
                Method::Get, "/api/contexts/:context_id/capabilities/:capability_id",
                Access::Operator, Identity::Unresolved, Outcome::Own, FailureRule::Own,
            ),
            ContextRoute::UpdateCapability => route(
                Method::Patch, "/api/contexts/:context_id/capabilities/:capability_id",
                Access::Operator, Identity::Unresolved, Outcome::Own, FailureRule::Own,
            ),
            ContextRoute::WorkingSet => route(
                Method::Get, "/api/contexts/:context_id/working-set", Access::Operator,
                Identity::Unresolved, Outcome::Own, FailureRule::Own,
            ),
            ContextRoute::ContextOverview => route(
                Method::Get, "/api/contexts/:context_id/overview", Access::Operator,
                Identity::Unresolved, Outcome::Value { status: 200 }, FailureRule::Sdk,
            ),
            ContextRoute::ModelUsage => route(
                Method::Get, "/api/contexts/:context_id/model-usage", Access::Operator,
                Identity::Unresolved, Outcome::Value { status: 200 }, FailureRule::Sdk,
            ),
            ContextRoute::ContextActivations => route(
                Method::Get, "/api/contexts/:context_id/activations", Access::Operator,
                Identity::Unresolved, Outcome::Own, FailureRule::Own,
            ),
            ContextRoute::Scheduler => route(
                Method::Get, "/api/contexts/:context_id/scheduler", Access::Operator,
                Identity::Unresolved, Outcome::Own, FailureRule::Own,
            ),
            ContextRoute::ListAcknowledgements => route(
                Method::Get, "/api/contexts/:context_id/attention/acknowledgements",
                Access::Operator, Identity::Unresolved, Outcome::Value { status: 200 },
                FailureRule::Sdk,
            ),
            ContextRoute::Acknowledge => route(
                Method::Post, "/api/contexts/:context_id/attention/acknowledgements",
                Access::Operator, Identity::Unresolved, Outcome::Value { status: 200 },
                FailureRule::Sdk,
            ),
            ContextRoute::ThreadDetail => route(
                Method::Get, "/api/contexts/:context_id/threads/:thread_id", Access::Operator,
                Identity::Unresolved, Outcome::Value { status: 200 }, FailureRule::Sdk,
            ),
            ContextRoute::ControlThread => route(
                Method::Post, "/api/contexts/:context_id/threads/:thread_id", Access::Operator,
                Identity::Unresolved, Outcome::Own, FailureRule::Own,
            ),
            ContextRoute::SupersedeThread => route(
                Method::Post, "/api/contexts/:context_id/threads/:thread_id/supersede",
                Access::Operator, Identity::Unresolved, Outcome::Own, FailureRule::Own,
            ),
            ContextRoute::EventHistory => route(
                Method::Get, "/api/contexts/:context_id/events", Access::Operator,
                Identity::Unresolved, Outcome::Value { status: 200 }, FailureRule::Sdk,
            ),
            ContextRoute::AuditProjection => route(
                Method::Post, "/api/contexts/:context_id/projection-audit", Access::Operator,
                Identity::Unresolved, Outcome::Value { status: 200 }, FailureRule::Sdk,
            ),
            ContextRoute::SearchRecall => route(
                Method::Get, "/api/contexts/:context_id/recall/search", Access::Operator,
                Identity::Unresolved, Outcome::Value { status: 200 }, FailureRule::Status(500),
            ),
            ContextRoute::SearchDialogue => route(
                Method::Get, "/api/contexts/:context_id/dialogue/search", Access::Caller,
                Identity::Reader, Outcome::Own, FailureRule::Own,
            ),
            ContextRoute::RecallIndex => route(
                Method::Get, "/api/contexts/:context_id/recall/index", Access::Operator,
                Identity::Unresolved, Outcome::Value { status: 200 }, FailureRule::Status(500),
            ),
            ContextRoute::RebuildRecallIndex => route(
                Method::Post, "/api/contexts/:context_id/recall/index/rebuild", Access::Operator,
                Identity::Unresolved, Outcome::Value { status: 200 }, FailureRule::Status(500),
            ),
            ContextRoute::RecallFrame => route(
                Method::Get, "/api/contexts/:context_id/frames/:frame_id/recall", Access::Operator,
                Identity::Unresolved, Outcome::Value { status: 200 }, FailureRule::Status(400),
            ),
            ContextRoute::FrameLifecycle => route(
                Method::Post, "/api/contexts/:context_id/frames/:frame_id/lifecycle",
                Access::Operator, Identity::Unresolved, Outcome::Own, FailureRule::Own,
            ),
        }
    }
}

/// The routes of the coordination between runtimes.
#[derive(PartialEq, Eq, Structural, Clone, Copy, Debug)]
pub enum CoordinationRoute {
    Status,
    Identity,
    Handshake,
    Projection,
    Evaluate,
    Cancel,
}

impl CoordinationRoute {
    pub open spec fn rules(self) -> Policy {
        match self {
            CoordinationRoute::Status => route(
                Method::Get, "/api/experimental/cognitive-coordination/status", Access::Operator,
                Identity::Unresolved, Outcome::Own, FailureRule::Own,
            ),
            CoordinationRoute::Identity => route(
                Method::Get, "/api/experimental/cognitive-coordination/identity", Access::Open,
                Identity::Unresolved, Outcome::Own, FailureRule::Own,
            ),
            CoordinationRoute::Handshake => route(
                Method::Post, "/api/experimental/cognitive-coordination/handshake", Access::Open,
                Identity::Unresolved, Outcome::Own, FailureRule::Own,
            ),
            CoordinationRoute::Projection => route(
                Method::Post, "/api/experimental/cognitive-coordination/projection", Access::Open,
                Identity::Unresolved, Outcome::Own, FailureRule::Own,
            ),
            CoordinationRoute::Evaluate => route(
                Method::Post, "/api/experimental/cognitive-coordination/evaluate", Access::Open,
                Identity::Unresolved, Outcome::Own, FailureRule::Own,
            ),
            CoordinationRoute::Cancel => route(
                Method::Post, "/api/experimental/cognitive-coordination/cancel", Access::Open,
                Identity::Unresolved, Outcome::Own, FailureRule::Own,
            ),
        }
    }

    pub fn policy(self) -> (r: Policy)
        ensures
            r == self.rules(),
    {
        match self {
            CoordinationRoute::Status => route(
                Method::Get, "/api/experimental/cognitive-coordination/status", Access::Operator,
                Identity::Unresolved, Outcome::Own, FailureRule::Own,
            ),
            CoordinationRoute::Identity => route(
                Method::Get, "/api/experimental/cognitive-coordination/identity", Access::Open,
                Identity::Unresolved, Outcome::Own, FailureRule::Own,
            ),
            CoordinationRoute::Handshake => route(
                Method::Post, "/api/experimental/cognitive-coordination/handshake", Access::Open,
                Identity::Unresolved, Outcome::Own, FailureRule::Own,
            ),
            CoordinationRoute::Projection => route(
                Method::Post, "/api/experimental/cognitive-coordination/projection", Access::Open,
                Identity::Unresolved, Outcome::Own, FailureRule::Own,
            ),
            CoordinationRoute::Evaluate => route(
                Method::Post, "/api/experimental/cognitive-coordination/evaluate", Access::Open,
                Identity::Unresolved, Outcome::Own, FailureRule::Own,
            ),
            CoordinationRoute::Cancel => route(
                Method::Post, "/api/experimental/cognitive-coordination/cancel", Access::Open,
                Identity::Unresolved, Outcome::Own, FailureRule::Own,
            ),
        }
    }
}

/// The routes of execution targets and leases.
#[derive(PartialEq, Eq, Structural, Clone, Copy, Debug)]
pub enum TargetRoute {
    ListTargets,
    RegisterTarget,
    InspectTarget,
    MutateTarget,
    ListTargetAuthorizations,
    AuthorizeTarget,
    RevokeTargetAuthorization,
    ListLeases,
    RestrictLease,
    RevokeLease,
}

impl TargetRoute {
    pub open spec fn rules(self) -> Policy {
        match self {
            TargetRoute::ListTargets => route(
                Method::Get, "/api/execution-targets", Access::Caller, Identity::Reader,
                Outcome::Named { status: 200, name: "targets" }, FailureRule::Sdk,
            ),
            TargetRoute::RegisterTarget => route(
                Method::Post, "/api/execution-targets", Access::Caller, Identity::NamedCaller,
                Outcome::Value { status: 201 }, FailureRule::Sdk,
            ),
            TargetRoute::InspectTarget => route(
                Method::Get, "/api/execution-targets/:target_id", Access::Caller,
                Identity::NamedCaller, Outcome::Value { status: 200 }, FailureRule::Sdk,
            ),
            TargetRoute::MutateTarget => route(
                Method::Patch, "/api/execution-targets/:target_id", Access::Caller,
                Identity::NamedCaller, Outcome::Value { status: 200 }, FailureRule::Sdk,
            ),
            TargetRoute::ListTargetAuthorizations => route(
                Method::Get, "/api/execution-target-authorizations", Access::Caller,
                Identity::NamedCaller, Outcome::Named { status: 200, name: "authorizations" },
                FailureRule::Sdk,
            ),
            TargetRoute::AuthorizeTarget => route(
                Method::Post, "/api/execution-target-authorizations", Access::Caller,
                Identity::NamedCaller, Outcome::Value { status: 201 }, FailureRule::Sdk,
            ),
            TargetRoute::RevokeTargetAuthorization => route(
                Method::Delete, "/api/execution-target-authorizations/:authorization_id",
                Access::Caller, Identity::NamedCaller, Outcome::Value { status: 200 },
                FailureRule::Sdk,
            ),
            TargetRoute::ListLeases => route(
                Method::Get, "/api/capability-leases", Access::Caller, Identity::NamedCaller,
                Outcome::Named { status: 200, name: "leases" }, FailureRule::Sdk,
            ),
            TargetRoute::RestrictLease => route(
                Method::Patch, "/api/capability-leases/:lease_id", Access::Caller,
                Identity::NamedCaller, Outcome::Value { status: 200 }, FailureRule::Sdk,
            ),
            TargetRoute::RevokeLease => route(
                Method::Delete, "/api/capability-leases/:lease_id", Access::Caller,
                Identity::NamedCaller, Outcome::Value { status: 200 }, FailureRule::Sdk,
            ),
        }
    }

    pub fn policy(self) -> (r: Policy)
        ensures
            r == self.rules(),
    {
        match self {
            TargetRoute::ListTargets => route(
                Method::Get, "/api/execution-targets", Access::Caller, Identity::Reader,
                Outcome::Named { status: 200, name: "targets" }, FailureRule::Sdk,
            ),
            TargetRoute::RegisterTarget => route(
                Method::Post, "/api/execution-targets", Access::Caller, Identity::NamedCaller,
                Outcome::Value { status: 201 }, FailureRule::Sdk,
            ),
            TargetRoute::InspectTarget => route(
                Method::Get, "/api/execution-targets/:target_id", Access::Caller,
                Identity::NamedCaller, Outcome::Value { status: 200 }, FailureRule::Sdk,
            ),
            TargetRoute::MutateTarget => route(
                Method::Patch, "/api/execution-targets/:target_id", Access::Caller,
                Identity::NamedCaller, Outcome::Value { status: 200 }, FailureRule::Sdk,
            ),
            TargetRoute::ListTargetAuthorizations => route(
                Method::Get, "/api/execution-target-authorizations", Access::Caller,
                Identity::NamedCaller, Outcome::Named { status: 200, name: "authorizations" },
                FailureRule::Sdk,
            ),
            TargetRoute::AuthorizeTarget => route(
                Method::Post, "/api/execution-target-authorizations", Access::Caller,
                Identity::NamedCaller, Outcome::Value { status: 201 }, FailureRule::Sdk,
            ),
            TargetRoute::RevokeTargetAuthorization => route(
                Method::Delete, "/api/execution-target-authorizations/:authorization_id",
                Access::Caller, Identity::NamedCaller, Outcome::Value { status: 200 },
                FailureRule::Sdk,
            ),
            TargetRoute::ListLeases => route(
                Method::Get, "/api/capability-leases", Access::Caller, Identity::NamedCaller,
                Outcome::Named { status: 200, name: "leases" }, FailureRule::Sdk,
            ),
            TargetRoute::RestrictLease => route(
                Method::Patch, "/api/capability-leases/:lease_id", Access::Caller,
                Identity::NamedCaller, Outcome::Value { status: 200 }, FailureRule::Sdk,
            ),
            TargetRoute::RevokeLease => route(
                Method::Delete, "/api/capability-leases/:lease_id", Access::Caller,
                Identity::NamedCaller, Outcome::Value { status: 200 }, FailureRule::Sdk,
            ),
        }
    }
}

/// The routes of edge nodes.
#[derive(PartialEq, Eq, Structural, Clone, Copy, Debug)]
pub enum EdgeRoute {
    CreatePairingCode,
    PairNode,
    NodeChallenge,
    ConnectNode,
    RotateNodeKey,
    ListNodes,
    RevokeNode,
    HeartbeatNode,
    ClaimCommand,
    HeartbeatCommand,
    AppendOutput,
    FinishCommand,
    ReserveBackground,
    HeartbeatBackground,
    FinishBackground,
    CancelBackground,
    DownloadArtifact,
    InspectUpload,
    UploadArtifact,
}

impl EdgeRoute {
    pub open spec fn rules(self) -> Policy {
        match self {
            EdgeRoute::CreatePairingCode => route(
                Method::Post, "/api/edge/pairing-codes", Access::Caller, Identity::NamedCaller,
                Outcome::Value { status: 201 }, FailureRule::Sdk,
            ),
            EdgeRoute::PairNode => route(
                Method::Post, "/api/edge/pair", Access::Open, Identity::Unresolved,
                Outcome::Value { status: 201 }, FailureRule::Sdk,
            ),
            EdgeRoute::NodeChallenge => route(
                Method::Post, "/api/edge/nodes/:node_id/challenge", Access::Open,
                Identity::Unresolved, Outcome::Value { status: 200 }, FailureRule::Sdk,
            ),
            EdgeRoute::ConnectNode => route(
                Method::Post, "/api/edge/nodes/:node_id/connect", Access::Open,
                Identity::Unresolved, Outcome::Value { status: 200 }, FailureRule::Sdk,
            ),
            EdgeRoute::RotateNodeKey => route(
                Method::Post, "/api/edge/nodes/:node_id/rotate-key", Access::Device,
                Identity::Unresolved, Outcome::Value { status: 200 }, FailureRule::Sdk,
            ),
            EdgeRoute::ListNodes => route(
                Method::Get, "/api/edge/nodes", Access::Caller, Identity::NamedCaller,
                Outcome::Named { status: 200, name: "nodes" }, FailureRule::Sdk,
            ),
            EdgeRoute::RevokeNode => route(
                Method::Delete, "/api/edge/nodes/:node_id", Access::Caller, Identity::NamedCaller,
                Outcome::Value { status: 200 }, FailureRule::Sdk,
            ),
            EdgeRoute::HeartbeatNode => route(
                Method::Post, "/api/edge/nodes/:node_id/heartbeat", Access::Device,
                Identity::Unresolved, Outcome::Value { status: 200 }, FailureRule::Sdk,
            ),
            EdgeRoute::ClaimCommand => route(
                Method::Post, "/api/edge/nodes/:node_id/jobs/claim", Access::Device,
                Identity::Unresolved, Outcome::Own, FailureRule::Own,
            ),
            EdgeRoute::HeartbeatCommand => route(
                Method::Post, "/api/edge/nodes/:node_id/jobs/:job_id/heartbeat", Access::Device,
                Identity::Unresolved, Outcome::Value { status: 200 }, FailureRule::Sdk,
            ),
            EdgeRoute::AppendOutput => route(
                Method::Post, "/api/edge/nodes/:node_id/jobs/:job_id/output", Access::Device,
                Identity::Unresolved, Outcome::Value { status: 200 }, FailureRule::Sdk,
            ),
            EdgeRoute::FinishCommand => route(
                Method::Post, "/api/edge/nodes/:node_id/jobs/:job_id/finish", Access::Device,
                Identity::Unresolved, Outcome::Value { status: 200 }, FailureRule::Sdk,
            ),
            EdgeRoute::ReserveBackground => route(
                Method::Post, "/api/edge/nodes/:node_id/jobs/:job_id/background/reserve",
                Access::Device, Identity::Unresolved, Outcome::Value { status: 200 },
                FailureRule::Sdk,
            ),
            EdgeRoute::HeartbeatBackground => route(
                Method::Post, "/api/edge/nodes/:node_id/jobs/:job_id/background/:task_id/heartbeat",
                Access::Device, Identity::Unresolved, Outcome::Value { status: 200 },
                FailureRule::Sdk,
            ),
            EdgeRoute::FinishBackground => route(
                Method::Post, "/api/edge/nodes/:node_id/jobs/:job_id/background/:task_id/finish",
                Access::Device, Identity::Unresolved,
                Outcome::Named { status: 200, name: "committed" }, FailureRule::Sdk,
            ),
            EdgeRoute::CancelBackground => route(
                Method::Post, "/api/edge/nodes/:node_id/jobs/:job_id/background/:task_id/cancel",
                Access::Device, Identity::Unresolved, Outcome::Value { status: 200 },
                FailureRule::Sdk,
            ),
            EdgeRoute::DownloadArtifact => route(
                Method::Get, "/api/edge/nodes/:node_id/jobs/:job_id/artifact/download",
                Access::Channel, Identity::Unresolved, Outcome::Own, FailureRule::Own,
            ),
            EdgeRoute::InspectUpload => route(
                Method::Get, "/api/edge/nodes/:node_id/jobs/:job_id/artifact/upload",
                Access::Channel, Identity::Unresolved, Outcome::Own, FailureRule::Own,
            ),
            EdgeRoute::UploadArtifact => route(
                Method::Put, "/api/edge/nodes/:node_id/jobs/:job_id/artifact/upload",
                Access::Channel, Identity::Unresolved, Outcome::Own, FailureRule::Own,
            ),
        }
    }

    pub fn policy(self) -> (r: Policy)
        ensures
            r == self.rules(),
    {
        match self {
            EdgeRoute::CreatePairingCode => route(
                Method::Post, "/api/edge/pairing-codes", Access::Caller, Identity::NamedCaller,
                Outcome::Value { status: 201 }, FailureRule::Sdk,
            ),
            EdgeRoute::PairNode => route(
                Method::Post, "/api/edge/pair", Access::Open, Identity::Unresolved,
                Outcome::Value { status: 201 }, FailureRule::Sdk,
            ),
            EdgeRoute::NodeChallenge => route(
                Method::Post, "/api/edge/nodes/:node_id/challenge", Access::Open,
                Identity::Unresolved, Outcome::Value { status: 200 }, FailureRule::Sdk,
            ),
            EdgeRoute::ConnectNode => route(
                Method::Post, "/api/edge/nodes/:node_id/connect", Access::Open,
                Identity::Unresolved, Outcome::Value { status: 200 }, FailureRule::Sdk,
            ),
            EdgeRoute::RotateNodeKey => route(
                Method::Post, "/api/edge/nodes/:node_id/rotate-key", Access::Device,
                Identity::Unresolved, Outcome::Value { status: 200 }, FailureRule::Sdk,
            ),
            EdgeRoute::ListNodes => route(
                Method::Get, "/api/edge/nodes", Access::Caller, Identity::NamedCaller,
                Outcome::Named { status: 200, name: "nodes" }, FailureRule::Sdk,
            ),
            EdgeRoute::RevokeNode => route(
                Method::Delete, "/api/edge/nodes/:node_id", Access::Caller, Identity::NamedCaller,
                Outcome::Value { status: 200 }, FailureRule::Sdk,
            ),
            EdgeRoute::HeartbeatNode => route(
                Method::Post, "/api/edge/nodes/:node_id/heartbeat", Access::Device,
                Identity::Unresolved, Outcome::Value { status: 200 }, FailureRule::Sdk,
            ),
            EdgeRoute::ClaimCommand => route(
                Method::Post, "/api/edge/nodes/:node_id/jobs/claim", Access::Device,
                Identity::Unresolved, Outcome::Own, FailureRule::Own,
            ),
            EdgeRoute::HeartbeatCommand => route(
                Method::Post, "/api/edge/nodes/:node_id/jobs/:job_id/heartbeat", Access::Device,
                Identity::Unresolved, Outcome::Value { status: 200 }, FailureRule::Sdk,
            ),
            EdgeRoute::AppendOutput => route(
                Method::Post, "/api/edge/nodes/:node_id/jobs/:job_id/output", Access::Device,
                Identity::Unresolved, Outcome::Value { status: 200 }, FailureRule::Sdk,
            ),
            EdgeRoute::FinishCommand => route(
                Method::Post, "/api/edge/nodes/:node_id/jobs/:job_id/finish", Access::Device,
                Identity::Unresolved, Outcome::Value { status: 200 }, FailureRule::Sdk,
            ),
            EdgeRoute::ReserveBackground => route(
                Method::Post, "/api/edge/nodes/:node_id/jobs/:job_id/background/reserve",
                Access::Device, Identity::Unresolved, Outcome::Value { status: 200 },
                FailureRule::Sdk,
            ),
            EdgeRoute::HeartbeatBackground => route(
                Method::Post, "/api/edge/nodes/:node_id/jobs/:job_id/background/:task_id/heartbeat",
                Access::Device, Identity::Unresolved, Outcome::Value { status: 200 },
                FailureRule::Sdk,
            ),
            EdgeRoute::FinishBackground => route(
                Method::Post, "/api/edge/nodes/:node_id/jobs/:job_id/background/:task_id/finish",
                Access::Device, Identity::Unresolved,
                Outcome::Named { status: 200, name: "committed" }, FailureRule::Sdk,
            ),
            EdgeRoute::CancelBackground => route(
                Method::Post, "/api/edge/nodes/:node_id/jobs/:job_id/background/:task_id/cancel",
                Access::Device, Identity::Unresolved, Outcome::Value { status: 200 },
                FailureRule::Sdk,
            ),
            EdgeRoute::DownloadArtifact => route(
                Method::Get, "/api/edge/nodes/:node_id/jobs/:job_id/artifact/download",
                Access::Channel, Identity::Unresolved, Outcome::Own, FailureRule::Own,
            ),
            EdgeRoute::InspectUpload => route(
                Method::Get, "/api/edge/nodes/:node_id/jobs/:job_id/artifact/upload",
                Access::Channel, Identity::Unresolved, Outcome::Own, FailureRule::Own,
            ),
            EdgeRoute::UploadArtifact => route(
                Method::Put, "/api/edge/nodes/:node_id/jobs/:job_id/artifact/upload",
                Access::Channel, Identity::Unresolved, Outcome::Own, FailureRule::Own,
            ),
        }
    }
}

/// The routes of execution jobs and transfers.
#[derive(PartialEq, Eq, Structural, Clone, Copy, Debug)]
pub enum JobRoute {
    JobOutput,
    ListJobs,
    InspectJob,
    CancelJob,
    SubmitTransfer,
    InspectTransfer,
    TransferOutput,
    CancelTransfer,
}

impl JobRoute {
    pub open spec fn rules(self) -> Policy {
        match self {
            JobRoute::JobOutput => route(
                Method::Get, "/api/execution-jobs/:job_id/output", Access::Operator,
                Identity::Unresolved, Outcome::Named { status: 200, name: "chunks" },
                FailureRule::Sdk,
            ),
            JobRoute::ListJobs => route(
                Method::Get, "/api/execution-jobs", Access::Caller, Identity::NamedCaller,
                Outcome::Named { status: 200, name: "jobs" }, FailureRule::Sdk,
            ),
            JobRoute::InspectJob => route(
                Method::Get, "/api/execution-jobs/:job_id", Access::Caller, Identity::NamedCaller,
                Outcome::Value { status: 200 }, FailureRule::Sdk,
            ),
            JobRoute::CancelJob => route(
                Method::Post, "/api/execution-jobs/:job_id/cancel", Access::Caller,
                Identity::NamedCaller, Outcome::Value { status: 200 }, FailureRule::Sdk,
            ),
            JobRoute::SubmitTransfer => route(
                Method::Post, "/api/artifact-transfers", Access::Caller, Identity::NamedCaller,
                Outcome::Value { status: 202 }, FailureRule::Sdk,
            ),
            JobRoute::InspectTransfer => route(
                Method::Get, "/api/artifact-transfers/:job_id", Access::Caller,
                Identity::NamedCaller, Outcome::Own, FailureRule::Own,
            ),
            JobRoute::TransferOutput => route(
                Method::Get, "/api/artifact-transfers/:job_id/output", Access::Caller,
                Identity::NamedCaller, Outcome::Value { status: 200 }, FailureRule::Sdk,
            ),
            JobRoute::CancelTransfer => route(
                Method::Post, "/api/artifact-transfers/:job_id/cancel", Access::Caller,
                Identity::NamedCaller, Outcome::Value { status: 200 }, FailureRule::Sdk,
            ),
        }
    }

    pub fn policy(self) -> (r: Policy)
        ensures
            r == self.rules(),
    {
        match self {
            JobRoute::JobOutput => route(
                Method::Get, "/api/execution-jobs/:job_id/output", Access::Operator,
                Identity::Unresolved, Outcome::Named { status: 200, name: "chunks" },
                FailureRule::Sdk,
            ),
            JobRoute::ListJobs => route(
                Method::Get, "/api/execution-jobs", Access::Caller, Identity::NamedCaller,
                Outcome::Named { status: 200, name: "jobs" }, FailureRule::Sdk,
            ),
            JobRoute::InspectJob => route(
                Method::Get, "/api/execution-jobs/:job_id", Access::Caller, Identity::NamedCaller,
                Outcome::Value { status: 200 }, FailureRule::Sdk,
            ),
            JobRoute::CancelJob => route(
                Method::Post, "/api/execution-jobs/:job_id/cancel", Access::Caller,
                Identity::NamedCaller, Outcome::Value { status: 200 }, FailureRule::Sdk,
            ),
            JobRoute::SubmitTransfer => route(
                Method::Post, "/api/artifact-transfers", Access::Caller, Identity::NamedCaller,
                Outcome::Value { status: 202 }, FailureRule::Sdk,
            ),
            JobRoute::InspectTransfer => route(
                Method::Get, "/api/artifact-transfers/:job_id", Access::Caller,
                Identity::NamedCaller, Outcome::Own, FailureRule::Own,
            ),
            JobRoute::TransferOutput => route(
                Method::Get, "/api/artifact-transfers/:job_id/output", Access::Caller,
                Identity::NamedCaller, Outcome::Value { status: 200 }, FailureRule::Sdk,
            ),
            JobRoute::CancelTransfer => route(
                Method::Post, "/api/artifact-transfers/:job_id/cancel", Access::Caller,
                Identity::NamedCaller, Outcome::Value { status: 200 }, FailureRule::Sdk,
            ),
        }
    }
}

/// The routes of sessions.
#[derive(PartialEq, Eq, Structural, Clone, Copy, Debug)]
pub enum SessionRoute {
    ListSessions,
    CreateSession,
    SearchPrincipals,
    PrincipalSessions,
    CreateIndependentSession,
    GetSession,
    UpdateSession,
    SessionTargets,
    SendMessage,
    ListStages,
    CreateStage,
    GetStage,
    CancelStage,
    UploadStage,
    RetryTurn,
    ClaimSession,
    SessionEvents,
    EventAttachment,
    SessionContext,
    SessionProjection,
    SessionEncoding,
    CancelSession,
    WebSocket,
}

impl SessionRoute {
    pub open spec fn rules(self) -> Policy {
        match self {
            SessionRoute::ListSessions => route(
                Method::Get, "/api/sessions", Access::Caller, Identity::CallerUnlessOperator,
                Outcome::Own, FailureRule::Own,
            ),
            SessionRoute::CreateSession => route(
                Method::Post, "/api/sessions", Access::Caller, Identity::Caller, Outcome::Own,
                FailureRule::Own,
            ),
            SessionRoute::SearchPrincipals => route(
                Method::Get, "/api/operator/principals", Access::Operator, Identity::Unresolved,
                Outcome::Value { status: 200 }, FailureRule::Status(500),
            ),
            SessionRoute::PrincipalSessions => route(
                Method::Get, "/api/operator/principals/:principal_id/sessions", Access::Operator,
                Identity::Unresolved, Outcome::Own, FailureRule::Own,
            ),
            SessionRoute::CreateIndependentSession => route(
                Method::Post, "/api/sessions/independent", Access::Caller, Identity::Caller,
                Outcome::Own, FailureRule::Own,
            ),
            SessionRoute::GetSession => route(
                Method::Get, "/api/sessions/:session_id", Access::Caller, Identity::Reader,
                Outcome::Value { status: 200 }, FailureRule::Sdk,
            ),
            SessionRoute::UpdateSession => route(
                Method::Patch, "/api/sessions/:session_id", Access::Caller, Identity::Unresolved,
                Outcome::Own, FailureRule::Own,
            ),
            SessionRoute::SessionTargets => route(
                Method::Get, "/api/sessions/:session_id/execution-targets", Access::Caller,
                Identity::Reader, Outcome::Own, FailureRule::Own,
            ),
            SessionRoute::SendMessage => route(
                Method::Post, "/api/sessions/:session_id/messages", Access::Caller,
                Identity::Caller, Outcome::Own, FailureRule::Own,
            ),
            SessionRoute::ListStages => route(
                Method::Get, "/api/sessions/:session_id/attachment-stages", Access::Caller,
                Identity::Caller, Outcome::Named { status: 200, name: "stages" }, FailureRule::Sdk,
            ),
            SessionRoute::CreateStage => route(
                Method::Post, "/api/sessions/:session_id/attachment-stages", Access::Caller,
                Identity::Caller, Outcome::Value { status: 200 }, FailureRule::Sdk,
            ),
            SessionRoute::GetStage => route(
                Method::Get, "/api/sessions/:session_id/attachment-stages/:stage_id",
                Access::Caller, Identity::Caller, Outcome::Value { status: 200 }, FailureRule::Sdk,
            ),
            SessionRoute::CancelStage => route(
                Method::Delete, "/api/sessions/:session_id/attachment-stages/:stage_id",
                Access::Caller, Identity::Caller, Outcome::Empty { status: 204 }, FailureRule::Sdk,
            ),
            SessionRoute::UploadStage => route(
                Method::Put, "/api/sessions/:session_id/attachment-stages/:stage_id/content",
                Access::Caller, Identity::Caller, Outcome::Value { status: 200 }, FailureRule::Sdk,
            ),
            SessionRoute::RetryTurn => route(
                Method::Post, "/api/sessions/:session_id/dialogue-turns/:root_turn_id/retry",
                Access::Caller, Identity::Caller, Outcome::Own, FailureRule::Own,
            ),
            SessionRoute::ClaimSession => route(
                Method::Post, "/api/sessions/:session_id/principal", Access::Caller,
                Identity::Unresolved, Outcome::Own, FailureRule::Own,
            ),
            SessionRoute::SessionEvents => route(
                Method::Get, "/api/sessions/:session_id/events", Access::Caller, Identity::Reader,
                Outcome::Own, FailureRule::Own,
            ),
            SessionRoute::EventAttachment => route(
                Method::Get,
                "/api/sessions/:session_id/events/:event_id/attachments/:attachment_id",
                Access::Caller, Identity::Reader, Outcome::Own, FailureRule::Own,
            ),
            SessionRoute::SessionContext => route(
                Method::Get, "/api/sessions/:session_id/context", Access::Caller, Identity::Reader,
                Outcome::Own, FailureRule::Own,
            ),
            SessionRoute::SessionProjection => route(
                Method::Get, "/api/sessions/:session_id/context/projection", Access::Caller,
                Identity::Reader, Outcome::Own, FailureRule::Own,
            ),
            SessionRoute::SessionEncoding => route(
                Method::Get, "/api/sessions/:session_id/context/encoding", Access::Caller,
                Identity::Reader, Outcome::Own, FailureRule::Own,
            ),
            SessionRoute::CancelSession => route(
                Method::Post, "/api/sessions/:session_id/cancel", Access::Caller, Identity::Caller,
                Outcome::Own, FailureRule::Own,
            ),
            SessionRoute::WebSocket => route(
                Method::Get, "/ws", Access::Caller, Identity::Unresolved, Outcome::Own,
                FailureRule::Own,
            ),
        }
    }

    pub fn policy(self) -> (r: Policy)
        ensures
            r == self.rules(),
    {
        match self {
            SessionRoute::ListSessions => route(
                Method::Get, "/api/sessions", Access::Caller, Identity::CallerUnlessOperator,
                Outcome::Own, FailureRule::Own,
            ),
            SessionRoute::CreateSession => route(
                Method::Post, "/api/sessions", Access::Caller, Identity::Caller, Outcome::Own,
                FailureRule::Own,
            ),
            SessionRoute::SearchPrincipals => route(
                Method::Get, "/api/operator/principals", Access::Operator, Identity::Unresolved,
                Outcome::Value { status: 200 }, FailureRule::Status(500),
            ),
            SessionRoute::PrincipalSessions => route(
                Method::Get, "/api/operator/principals/:principal_id/sessions", Access::Operator,
                Identity::Unresolved, Outcome::Own, FailureRule::Own,
            ),
            SessionRoute::CreateIndependentSession => route(
                Method::Post, "/api/sessions/independent", Access::Caller, Identity::Caller,
                Outcome::Own, FailureRule::Own,
            ),
            SessionRoute::GetSession => route(
                Method::Get, "/api/sessions/:session_id", Access::Caller, Identity::Reader,
                Outcome::Value { status: 200 }, FailureRule::Sdk,
            ),
            SessionRoute::UpdateSession => route(
                Method::Patch, "/api/sessions/:session_id", Access::Caller, Identity::Unresolved,
                Outcome::Own, FailureRule::Own,
            ),
            SessionRoute::SessionTargets => route(
                Method::Get, "/api/sessions/:session_id/execution-targets", Access::Caller,
                Identity::Reader, Outcome::Own, FailureRule::Own,
            ),
            SessionRoute::SendMessage => route(
                Method::Post, "/api/sessions/:session_id/messages", Access::Caller,
                Identity::Caller, Outcome::Own, FailureRule::Own,
            ),
            SessionRoute::ListStages => route(
                Method::Get, "/api/sessions/:session_id/attachment-stages", Access::Caller,
                Identity::Caller, Outcome::Named { status: 200, name: "stages" }, FailureRule::Sdk,
            ),
            SessionRoute::CreateStage => route(
                Method::Post, "/api/sessions/:session_id/attachment-stages", Access::Caller,
                Identity::Caller, Outcome::Value { status: 200 }, FailureRule::Sdk,
            ),
            SessionRoute::GetStage => route(
                Method::Get, "/api/sessions/:session_id/attachment-stages/:stage_id",
                Access::Caller, Identity::Caller, Outcome::Value { status: 200 }, FailureRule::Sdk,
            ),
            SessionRoute::CancelStage => route(
                Method::Delete, "/api/sessions/:session_id/attachment-stages/:stage_id",
                Access::Caller, Identity::Caller, Outcome::Empty { status: 204 }, FailureRule::Sdk,
            ),
            SessionRoute::UploadStage => route(
                Method::Put, "/api/sessions/:session_id/attachment-stages/:stage_id/content",
                Access::Caller, Identity::Caller, Outcome::Value { status: 200 }, FailureRule::Sdk,
            ),
            SessionRoute::RetryTurn => route(
                Method::Post, "/api/sessions/:session_id/dialogue-turns/:root_turn_id/retry",
                Access::Caller, Identity::Caller, Outcome::Own, FailureRule::Own,
            ),
            SessionRoute::ClaimSession => route(
                Method::Post, "/api/sessions/:session_id/principal", Access::Caller,
                Identity::Unresolved, Outcome::Own, FailureRule::Own,
            ),
            SessionRoute::SessionEvents => route(
                Method::Get, "/api/sessions/:session_id/events", Access::Caller, Identity::Reader,
                Outcome::Own, FailureRule::Own,
            ),
            SessionRoute::EventAttachment => route(
                Method::Get,
                "/api/sessions/:session_id/events/:event_id/attachments/:attachment_id",
                Access::Caller, Identity::Reader, Outcome::Own, FailureRule::Own,
            ),
            SessionRoute::SessionContext => route(
                Method::Get, "/api/sessions/:session_id/context", Access::Caller, Identity::Reader,
                Outcome::Own, FailureRule::Own,
            ),
            SessionRoute::SessionProjection => route(
                Method::Get, "/api/sessions/:session_id/context/projection", Access::Caller,
                Identity::Reader, Outcome::Own, FailureRule::Own,
            ),
            SessionRoute::SessionEncoding => route(
                Method::Get, "/api/sessions/:session_id/context/encoding", Access::Caller,
                Identity::Reader, Outcome::Own, FailureRule::Own,
            ),
            SessionRoute::CancelSession => route(
                Method::Post, "/api/sessions/:session_id/cancel", Access::Caller, Identity::Caller,
                Outcome::Own, FailureRule::Own,
            ),
            SessionRoute::WebSocket => route(
                Method::Get, "/ws", Access::Caller, Identity::Unresolved, Outcome::Own,
                FailureRule::Own,
            ),
        }
    }
}

/// The routes of objectives, delegations, approvals and schedules.
#[derive(PartialEq, Eq, Structural, Clone, Copy, Debug)]
pub enum ControlRoute {
    ListDelegations,
    CreateObjective,
    ResumeObjective,
    PauseObjective,
    EditObjective,
    DeleteObjective,
    GetDelegation,
    CancelDelegation,
    ListApprovals,
    DecideApproval,
    MutateSchedule,
}

impl ControlRoute {
    pub open spec fn rules(self) -> Policy {
        match self {
            ControlRoute::ListDelegations => route(
                Method::Get, "/api/delegations", Access::Operator, Identity::Unresolved,
                Outcome::Own, FailureRule::Own,
            ),
            ControlRoute::CreateObjective => route(
                Method::Post, "/api/objectives", Access::Caller, Identity::Caller, Outcome::Own,
                FailureRule::Own,
            ),
            ControlRoute::ResumeObjective => route(
                Method::Post, "/api/objectives/:objective_id/resume", Access::Caller,
                Identity::Unresolved, Outcome::Own, FailureRule::Own,
            ),
            ControlRoute::PauseObjective => route(
                Method::Post, "/api/objectives/:objective_id/pause", Access::Caller,
                Identity::Unresolved, Outcome::Own, FailureRule::Own,
            ),
            ControlRoute::EditObjective => route(
                Method::Patch, "/api/objectives/:objective_id", Access::Caller,
                Identity::Unresolved, Outcome::Own, FailureRule::Own,
            ),
            ControlRoute::DeleteObjective => route(
                Method::Delete, "/api/objectives/:objective_id", Access::Caller,
                Identity::Unresolved, Outcome::Own, FailureRule::Own,
            ),
            ControlRoute::GetDelegation => route(
                Method::Get, "/api/delegations/:delegation_id", Access::Operator,
                Identity::Unresolved, Outcome::Own, FailureRule::Own,
            ),
            ControlRoute::CancelDelegation => route(
                Method::Post, "/api/delegations/:delegation_id/cancel", Access::Operator,
                Identity::Unresolved, Outcome::Own, FailureRule::Own,
            ),
            ControlRoute::ListApprovals => route(
                Method::Get, "/api/approvals", Access::Operator, Identity::Unresolved,
                Outcome::Named { status: 200, name: "approvals" }, FailureRule::Own,
            ),
            ControlRoute::DecideApproval => route(
                Method::Post, "/api/approvals/:approval_id", Access::Operator, Identity::Unresolved,
                Outcome::Own, FailureRule::Own,
            ),
            ControlRoute::MutateSchedule => route(
                Method::Post, "/api/schedules/:schedule_id", Access::Operator, Identity::Unresolved,
                Outcome::Own, FailureRule::Own,
            ),
        }
    }

    pub fn policy(self) -> (r: Policy)
        ensures
            r == self.rules(),
    {
        match self {
            ControlRoute::ListDelegations => route(
                Method::Get, "/api/delegations", Access::Operator, Identity::Unresolved,
                Outcome::Own, FailureRule::Own,
            ),
            ControlRoute::CreateObjective => route(
                Method::Post, "/api/objectives", Access::Caller, Identity::Caller, Outcome::Own,
                FailureRule::Own,
            ),
            ControlRoute::ResumeObjective => route(
                Method::Post, "/api/objectives/:objective_id/resume", Access::Caller,
                Identity::Unresolved, Outcome::Own, FailureRule::Own,
            ),
            ControlRoute::PauseObjective => route(
                Method::Post, "/api/objectives/:objective_id/pause", Access::Caller,
                Identity::Unresolved, Outcome::Own, FailureRule::Own,
            ),
            ControlRoute::EditObjective => route(
                Method::Patch, "/api/objectives/:objective_id", Access::Caller,
                Identity::Unresolved, Outcome::Own, FailureRule::Own,
            ),
            ControlRoute::DeleteObjective => route(
                Method::Delete, "/api/objectives/:objective_id", Access::Caller,
                Identity::Unresolved, Outcome::Own, FailureRule::Own,
            ),
            ControlRoute::GetDelegation => route(
                Method::Get, "/api/delegations/:delegation_id", Access::Operator,
                Identity::Unresolved, Outcome::Own, FailureRule::Own,
            ),
            ControlRoute::CancelDelegation => route(
                Method::Post, "/api/delegations/:delegation_id/cancel", Access::Operator,
                Identity::Unresolved, Outcome::Own, FailureRule::Own,
            ),
            ControlRoute::ListApprovals => route(
                Method::Get, "/api/approvals", Access::Operator, Identity::Unresolved,
                Outcome::Named { status: 200, name: "approvals" }, FailureRule::Own,
            ),
            ControlRoute::DecideApproval => route(
                Method::Post, "/api/approvals/:approval_id", Access::Operator, Identity::Unresolved,
                Outcome::Own, FailureRule::Own,
            ),
            ControlRoute::MutateSchedule => route(
                Method::Post, "/api/schedules/:schedule_id", Access::Operator, Identity::Unresolved,
                Outcome::Own, FailureRule::Own,
            ),
        }
    }
}

/// The routes of the server.
#[derive(PartialEq, Eq, Structural, Clone, Copy, Debug)]
pub enum Endpoint {
    Dashboard(DashboardRoute),
    Runtime(RuntimeRoute),
    Provider(ProviderRoute),
    Context(ContextRoute),
    Coordination(CoordinationRoute),
    Target(TargetRoute),
    Edge(EdgeRoute),
    Job(JobRoute),
    Session(SessionRoute),
    Control(ControlRoute),
}

impl Endpoint {
    /// The rules of a route.
    pub open spec fn rules(self) -> Policy {
        match self {
            Endpoint::Dashboard(route) => route.rules(),
            Endpoint::Runtime(route) => route.rules(),
            Endpoint::Provider(route) => route.rules(),
            Endpoint::Context(route) => route.rules(),
            Endpoint::Coordination(route) => route.rules(),
            Endpoint::Target(route) => route.rules(),
            Endpoint::Edge(route) => route.rules(),
            Endpoint::Job(route) => route.rules(),
            Endpoint::Session(route) => route.rules(),
            Endpoint::Control(route) => route.rules(),
        }
    }

    pub fn policy(self) -> (r: Policy)
        ensures
            r == self.rules(),
    {
        match self {
            Endpoint::Dashboard(route) => route.policy(),
            Endpoint::Runtime(route) => route.policy(),
            Endpoint::Provider(route) => route.policy(),
            Endpoint::Context(route) => route.policy(),
            Endpoint::Coordination(route) => route.policy(),
            Endpoint::Target(route) => route.policy(),
            Endpoint::Edge(route) => route.policy(),
            Endpoint::Job(route) => route.policy(),
            Endpoint::Session(route) => route.policy(),
            Endpoint::Control(route) => route.policy(),
        }
    }
}

/// All routes, in the order in which they are registered.
pub open spec fn all_endpoints() -> Seq<Endpoint> {
    seq![
        Endpoint::Dashboard(DashboardRoute::DashboardIndex),
        Endpoint::Dashboard(DashboardRoute::AppScript),
        Endpoint::Dashboard(DashboardRoute::AppStyle),
        Endpoint::Dashboard(DashboardRoute::Favicon),
        Endpoint::Dashboard(DashboardRoute::Icons),
        Endpoint::Dashboard(DashboardRoute::Health),
        Endpoint::Dashboard(DashboardRoute::Metrics),
        Endpoint::Dashboard(DashboardRoute::Status),
        Endpoint::Dashboard(DashboardRoute::RecentTurns),
        Endpoint::Dashboard(DashboardRoute::TurnTrace),
        Endpoint::Dashboard(DashboardRoute::SystemPrompt),
        Endpoint::Dashboard(DashboardRoute::RuntimeOverview),
        Endpoint::Runtime(RuntimeRoute::ListSecrets),
        Endpoint::Runtime(RuntimeRoute::PutSecret),
        Endpoint::Runtime(RuntimeRoute::ImportSecret),
        Endpoint::Runtime(RuntimeRoute::SecretScopes),
        Endpoint::Runtime(RuntimeRoute::DeleteSecret),
        Endpoint::Provider(ProviderRoute::Providers),
        Endpoint::Provider(ProviderRoute::ProviderAttempts),
        Endpoint::Provider(ProviderRoute::ControlAccount),
        Endpoint::Provider(ProviderRoute::DeleteAccount),
        Endpoint::Provider(ProviderRoute::ProviderSetup),
        Endpoint::Provider(ProviderRoute::DiscoverModels),
        Endpoint::Provider(ProviderRoute::OAuthSetup),
        Endpoint::Provider(ProviderRoute::OAuthCallback),
        Endpoint::Provider(ProviderRoute::SubmitOAuthCallback),
        Endpoint::Provider(ProviderRoute::OAuthServices),
        Endpoint::Provider(ProviderRoute::PutProviderInstance),
        Endpoint::Provider(ProviderRoute::PutAccountConfig),
        Endpoint::Provider(ProviderRoute::PutAccountModels),
        Endpoint::Provider(ProviderRoute::TestAccount),
        Endpoint::Provider(ProviderRoute::AccountUsage),
        Endpoint::Provider(ProviderRoute::RefreshAccountModels),
        Endpoint::Provider(ProviderRoute::PutModelRoute),
        Endpoint::Provider(ProviderRoute::TestModelRoute),
        Endpoint::Provider(ProviderRoute::RefreshModelRoute),
        Endpoint::Runtime(RuntimeRoute::AutoReviewModel),
        Endpoint::Runtime(RuntimeRoute::EvaluationPolicy),
        Endpoint::Provider(ProviderRoute::StartLogin),
        Endpoint::Provider(ProviderRoute::StartLoginUsing),
        Endpoint::Provider(ProviderRoute::LogoutAccount),
        Endpoint::Provider(ProviderRoute::ContinueLogin),
        Endpoint::Provider(ProviderRoute::CancelLogin),
        Endpoint::Runtime(RuntimeRoute::GetInference),
        Endpoint::Runtime(RuntimeRoute::UpdateInference),
        Endpoint::Runtime(RuntimeRoute::ListAgents),
        Endpoint::Runtime(RuntimeRoute::CreateAgent),
        Endpoint::Runtime(RuntimeRoute::AgentAccounts),
        Endpoint::Runtime(RuntimeRoute::BindAgentAccount),
        Endpoint::Runtime(RuntimeRoute::UnbindAgentAccount),
        Endpoint::Context(ContextRoute::ListContexts),
        Endpoint::Context(ContextRoute::CreateContext),
        Endpoint::Context(ContextRoute::UpdateContext),
        Endpoint::Context(ContextRoute::GetTokenBudget),
        Endpoint::Context(ContextRoute::UpdateTokenBudget),
        Endpoint::Context(ContextRoute::GetCapability),
        Endpoint::Context(ContextRoute::UpdateCapability),
        Endpoint::Coordination(CoordinationRoute::Status),
        Endpoint::Coordination(CoordinationRoute::Identity),
        Endpoint::Coordination(CoordinationRoute::Handshake),
        Endpoint::Coordination(CoordinationRoute::Projection),
        Endpoint::Coordination(CoordinationRoute::Evaluate),
        Endpoint::Coordination(CoordinationRoute::Cancel),
        Endpoint::Target(TargetRoute::ListTargets),
        Endpoint::Target(TargetRoute::RegisterTarget),
        Endpoint::Target(TargetRoute::InspectTarget),
        Endpoint::Target(TargetRoute::MutateTarget),
        Endpoint::Target(TargetRoute::ListTargetAuthorizations),
        Endpoint::Target(TargetRoute::AuthorizeTarget),
        Endpoint::Target(TargetRoute::RevokeTargetAuthorization),
        Endpoint::Target(TargetRoute::ListLeases),
        Endpoint::Target(TargetRoute::RestrictLease),
        Endpoint::Target(TargetRoute::RevokeLease),
        Endpoint::Edge(EdgeRoute::CreatePairingCode),
        Endpoint::Edge(EdgeRoute::PairNode),
        Endpoint::Edge(EdgeRoute::NodeChallenge),
        Endpoint::Edge(EdgeRoute::ConnectNode),
        Endpoint::Edge(EdgeRoute::RotateNodeKey),
        Endpoint::Edge(EdgeRoute::ListNodes),
        Endpoint::Edge(EdgeRoute::RevokeNode),
        Endpoint::Edge(EdgeRoute::HeartbeatNode),
        Endpoint::Edge(EdgeRoute::ClaimCommand),
        Endpoint::Edge(EdgeRoute::HeartbeatCommand),
        Endpoint::Edge(EdgeRoute::AppendOutput),
        Endpoint::Edge(EdgeRoute::FinishCommand),
        Endpoint::Edge(EdgeRoute::ReserveBackground),
        Endpoint::Edge(EdgeRoute::HeartbeatBackground),
        Endpoint::Edge(EdgeRoute::FinishBackground),
        Endpoint::Edge(EdgeRoute::CancelBackground),
        Endpoint::Edge(EdgeRoute::DownloadArtifact),
        Endpoint::Edge(EdgeRoute::InspectUpload),
        Endpoint::Edge(EdgeRoute::UploadArtifact),
        Endpoint::Job(JobRoute::JobOutput),
        Endpoint::Job(JobRoute::ListJobs),
        Endpoint::Job(JobRoute::InspectJob),
        Endpoint::Job(JobRoute::CancelJob),
        Endpoint::Job(JobRoute::SubmitTransfer),
        Endpoint::Job(JobRoute::InspectTransfer),
        Endpoint::Job(JobRoute::TransferOutput),
        Endpoint::Job(JobRoute::CancelTransfer),
        Endpoint::Context(ContextRoute::WorkingSet),
        Endpoint::Context(ContextRoute::ContextOverview),
        Endpoint::Context(ContextRoute::ModelUsage),
        Endpoint::Context(ContextRoute::ContextActivations),
        Endpoint::Context(ContextRoute::Scheduler),
        Endpoint::Context(ContextRoute::ListAcknowledgements),
        Endpoint::Context(ContextRoute::Acknowledge),
        Endpoint::Context(ContextRoute::ThreadDetail),
        Endpoint::Context(ContextRoute::ControlThread),
        Endpoint::Context(ContextRoute::SupersedeThread),
        Endpoint::Context(ContextRoute::EventHistory),
        Endpoint::Context(ContextRoute::AuditProjection),
        Endpoint::Context(ContextRoute::SearchRecall),
        Endpoint::Context(ContextRoute::SearchDialogue),
        Endpoint::Context(ContextRoute::RecallIndex),
        Endpoint::Context(ContextRoute::RebuildRecallIndex),
        Endpoint::Context(ContextRoute::RecallFrame),
        Endpoint::Context(ContextRoute::FrameLifecycle),
        Endpoint::Session(SessionRoute::ListSessions),
        Endpoint::Session(SessionRoute::CreateSession),
        Endpoint::Session(SessionRoute::SearchPrincipals),
        Endpoint::Session(SessionRoute::PrincipalSessions),
        Endpoint::Session(SessionRoute::CreateIndependentSession),
        Endpoint::Session(SessionRoute::GetSession),
        Endpoint::Session(SessionRoute::UpdateSession),
        Endpoint::Session(SessionRoute::SessionTargets),
        Endpoint::Session(SessionRoute::SendMessage),
        Endpoint::Session(SessionRoute::ListStages),
        Endpoint::Session(SessionRoute::CreateStage),
        Endpoint::Session(SessionRoute::GetStage),
        Endpoint::Session(SessionRoute::CancelStage),
        Endpoint::Session(SessionRoute::UploadStage),
        Endpoint::Session(SessionRoute::RetryTurn),
        Endpoint::Session(SessionRoute::ClaimSession),
        Endpoint::Session(SessionRoute::SessionEvents),
        Endpoint::Session(SessionRoute::EventAttachment),
        Endpoint::Session(SessionRoute::SessionContext),
        Endpoint::Session(SessionRoute::SessionProjection),
        Endpoint::Session(SessionRoute::SessionEncoding),
        Endpoint::Session(SessionRoute::CancelSession),
        Endpoint::Control(ControlRoute::ListDelegations),
        Endpoint::Control(ControlRoute::CreateObjective),
        Endpoint::Control(ControlRoute::ResumeObjective),
        Endpoint::Control(ControlRoute::PauseObjective),
        Endpoint::Control(ControlRoute::EditObjective),
        Endpoint::Control(ControlRoute::DeleteObjective),
        Endpoint::Control(ControlRoute::GetDelegation),
        Endpoint::Control(ControlRoute::CancelDelegation),
        Endpoint::Control(ControlRoute::ListApprovals),
        Endpoint::Control(ControlRoute::DecideApproval),
        Endpoint::Control(ControlRoute::MutateSchedule),
        Endpoint::Session(SessionRoute::WebSocket),
    ]
}

pub fn endpoints() -> (r: Vec<Endpoint>)
    ensures
        r@ == all_endpoints(),
{
    vec![
        Endpoint::Dashboard(DashboardRoute::DashboardIndex),
        Endpoint::Dashboard(DashboardRoute::AppScript),
        Endpoint::Dashboard(DashboardRoute::AppStyle),
        Endpoint::Dashboard(DashboardRoute::Favicon),
        Endpoint::Dashboard(DashboardRoute::Icons),
        Endpoint::Dashboard(DashboardRoute::Health),
        Endpoint::Dashboard(DashboardRoute::Metrics),
        Endpoint::Dashboard(DashboardRoute::Status),
        Endpoint::Dashboard(DashboardRoute::RecentTurns),
        Endpoint::Dashboard(DashboardRoute::TurnTrace),
        Endpoint::Dashboard(DashboardRoute::SystemPrompt),
        Endpoint::Dashboard(DashboardRoute::RuntimeOverview),
        Endpoint::Runtime(RuntimeRoute::ListSecrets),
        Endpoint::Runtime(RuntimeRoute::PutSecret),
        Endpoint::Runtime(RuntimeRoute::ImportSecret),
        Endpoint::Runtime(RuntimeRoute::SecretScopes),
        Endpoint::Runtime(RuntimeRoute::DeleteSecret),
        Endpoint::Provider(ProviderRoute::Providers),
        Endpoint::Provider(ProviderRoute::ProviderAttempts),
        Endpoint::Provider(ProviderRoute::ControlAccount),
        Endpoint::Provider(ProviderRoute::DeleteAccount),
        Endpoint::Provider(ProviderRoute::ProviderSetup),
        Endpoint::Provider(ProviderRoute::DiscoverModels),
        Endpoint::Provider(ProviderRoute::OAuthSetup),
        Endpoint::Provider(ProviderRoute::OAuthCallback),
        Endpoint::Provider(ProviderRoute::SubmitOAuthCallback),
        Endpoint::Provider(ProviderRoute::OAuthServices),
        Endpoint::Provider(ProviderRoute::PutProviderInstance),
        Endpoint::Provider(ProviderRoute::PutAccountConfig),
        Endpoint::Provider(ProviderRoute::PutAccountModels),
        Endpoint::Provider(ProviderRoute::TestAccount),
        Endpoint::Provider(ProviderRoute::AccountUsage),
        Endpoint::Provider(ProviderRoute::RefreshAccountModels),
        Endpoint::Provider(ProviderRoute::PutModelRoute),
        Endpoint::Provider(ProviderRoute::TestModelRoute),
        Endpoint::Provider(ProviderRoute::RefreshModelRoute),
        Endpoint::Runtime(RuntimeRoute::AutoReviewModel),
        Endpoint::Runtime(RuntimeRoute::EvaluationPolicy),
        Endpoint::Provider(ProviderRoute::StartLogin),
        Endpoint::Provider(ProviderRoute::StartLoginUsing),
        Endpoint::Provider(ProviderRoute::LogoutAccount),
        Endpoint::Provider(ProviderRoute::ContinueLogin),
        Endpoint::Provider(ProviderRoute::CancelLogin),
        Endpoint::Runtime(RuntimeRoute::GetInference),
        Endpoint::Runtime(RuntimeRoute::UpdateInference),
        Endpoint::Runtime(RuntimeRoute::ListAgents),
        Endpoint::Runtime(RuntimeRoute::CreateAgent),
        Endpoint::Runtime(RuntimeRoute::AgentAccounts),
        Endpoint::Runtime(RuntimeRoute::BindAgentAccount),
        Endpoint::Runtime(RuntimeRoute::UnbindAgentAccount),
        Endpoint::Context(ContextRoute::ListContexts),
        Endpoint::Context(ContextRoute::CreateContext),
        Endpoint::Context(ContextRoute::UpdateContext),
        Endpoint::Context(ContextRoute::GetTokenBudget),
        Endpoint::Context(ContextRoute::UpdateTokenBudget),
        Endpoint::Context(ContextRoute::GetCapability),
        Endpoint::Context(ContextRoute::UpdateCapability),
        Endpoint::Coordination(CoordinationRoute::Status),
        Endpoint::Coordination(CoordinationRoute::Identity),
        Endpoint::Coordination(CoordinationRoute::Handshake),
        Endpoint::Coordination(CoordinationRoute::Projection),
        Endpoint::Coordination(CoordinationRoute::Evaluate),
        Endpoint::Coordination(CoordinationRoute::Cancel),
        Endpoint::Target(TargetRoute::ListTargets),
        Endpoint::Target(TargetRoute::RegisterTarget),
        Endpoint::Target(TargetRoute::InspectTarget),
        Endpoint::Target(TargetRoute::MutateTarget),
        Endpoint::Target(TargetRoute::ListTargetAuthorizations),
        Endpoint::Target(TargetRoute::AuthorizeTarget),
        Endpoint::Target(TargetRoute::RevokeTargetAuthorization),
        Endpoint::Target(TargetRoute::ListLeases),
        Endpoint::Target(TargetRoute::RestrictLease),
        Endpoint::Target(TargetRoute::RevokeLease),
        Endpoint::Edge(EdgeRoute::CreatePairingCode),
        Endpoint::Edge(EdgeRoute::PairNode),
        Endpoint::Edge(EdgeRoute::NodeChallenge),
        Endpoint::Edge(EdgeRoute::ConnectNode),
        Endpoint::Edge(EdgeRoute::RotateNodeKey),
        Endpoint::Edge(EdgeRoute::ListNodes),
        Endpoint::Edge(EdgeRoute::RevokeNode),
        Endpoint::Edge(EdgeRoute::HeartbeatNode),
        Endpoint::Edge(EdgeRoute::ClaimCommand),
        Endpoint::Edge(EdgeRoute::HeartbeatCommand),
        Endpoint::Edge(EdgeRoute::AppendOutput),
        Endpoint::Edge(EdgeRoute::FinishCommand),
        Endpoint::Edge(EdgeRoute::ReserveBackground),
        Endpoint::Edge(EdgeRoute::HeartbeatBackground),
        Endpoint::Edge(EdgeRoute::FinishBackground),
        Endpoint::Edge(EdgeRoute::CancelBackground),
        Endpoint::Edge(EdgeRoute::DownloadArtifact),
        Endpoint::Edge(EdgeRoute::InspectUpload),
        Endpoint::Edge(EdgeRoute::UploadArtifact),
        Endpoint::Job(JobRoute::JobOutput),
        Endpoint::Job(JobRoute::ListJobs),
        Endpoint::Job(JobRoute::InspectJob),
        Endpoint::Job(JobRoute::CancelJob),
        Endpoint::Job(JobRoute::SubmitTransfer),
        Endpoint::Job(JobRoute::InspectTransfer),
        Endpoint::Job(JobRoute::TransferOutput),
        Endpoint::Job(JobRoute::CancelTransfer),
        Endpoint::Context(ContextRoute::WorkingSet),
        Endpoint::Context(ContextRoute::ContextOverview),
        Endpoint::Context(ContextRoute::ModelUsage),
        Endpoint::Context(ContextRoute::ContextActivations),
        Endpoint::Context(ContextRoute::Scheduler),
        Endpoint::Context(ContextRoute::ListAcknowledgements),
        Endpoint::Context(ContextRoute::Acknowledge),
        Endpoint::Context(ContextRoute::ThreadDetail),
        Endpoint::Context(ContextRoute::ControlThread),
        Endpoint::Context(ContextRoute::SupersedeThread),
        Endpoint::Context(ContextRoute::EventHistory),
        Endpoint::Context(ContextRoute::AuditProjection),
        Endpoint::Context(ContextRoute::SearchRecall),
        Endpoint::Context(ContextRoute::SearchDialogue),
        Endpoint::Context(ContextRoute::RecallIndex),
        Endpoint::Context(ContextRoute::RebuildRecallIndex),
        Endpoint::Context(ContextRoute::RecallFrame),
        Endpoint::Context(ContextRoute::FrameLifecycle),
        Endpoint::Session(SessionRoute::ListSessions),
        Endpoint::Session(SessionRoute::CreateSession),
        Endpoint::Session(SessionRoute::SearchPrincipals),
        Endpoint::Session(SessionRoute::PrincipalSessions),
        Endpoint::Session(SessionRoute::CreateIndependentSession),
        Endpoint::Session(SessionRoute::GetSession),
        Endpoint::Session(SessionRoute::UpdateSession),
        Endpoint::Session(SessionRoute::SessionTargets),
        Endpoint::Session(SessionRoute::SendMessage),
        Endpoint::Session(SessionRoute::ListStages),
        Endpoint::Session(SessionRoute::CreateStage),
        Endpoint::Session(SessionRoute::GetStage),
        Endpoint::Session(SessionRoute::CancelStage),
        Endpoint::Session(SessionRoute::UploadStage),
        Endpoint::Session(SessionRoute::RetryTurn),
        Endpoint::Session(SessionRoute::ClaimSession),
        Endpoint::Session(SessionRoute::SessionEvents),
        Endpoint::Session(SessionRoute::EventAttachment),
        Endpoint::Session(SessionRoute::SessionContext),
        Endpoint::Session(SessionRoute::SessionProjection),
        Endpoint::Session(SessionRoute::SessionEncoding),
        Endpoint::Session(SessionRoute::CancelSession),
        Endpoint::Control(ControlRoute::ListDelegations),
        Endpoint::Control(ControlRoute::CreateObjective),
        Endpoint::Control(ControlRoute::ResumeObjective),
        Endpoint::Control(ControlRoute::PauseObjective),
        Endpoint::Control(ControlRoute::EditObjective),
        Endpoint::Control(ControlRoute::DeleteObjective),
        Endpoint::Control(ControlRoute::GetDelegation),
        Endpoint::Control(ControlRoute::CancelDelegation),
        Endpoint::Control(ControlRoute::ListApprovals),
        Endpoint::Control(ControlRoute::DecideApproval),
        Endpoint::Control(ControlRoute::MutateSchedule),
        Endpoint::Session(SessionRoute::WebSocket),
    ]
}

/// What the credential of a request gives.
pub enum Admission {
    /// Admitted, with nobody to act as.
    Admitted,
    Principal(PrincipalAssertion),
    Device { device_token: String },
    Channel { device_token: String, claim_token: String },
}

/// Whether an admission is the one that a policy gives for a request.
pub open spec fn admission_is(
    r: Result<Admission, ErrorReply>,
    policy: Policy,
    state: &AppState,
    headers: &HeaderMap,
    token: Option<&str>,
    query_principal_id: Option<&str>,
) -> bool {
    let device = headers::nonempty_trimmed(headers::bearer_token(headers));
    let claim = headers::nonempty_trimmed(headers.header("x-morphz-claim-token"@).readable());
    match policy.access {
        Access::Open => r == Ok::<Admission, ErrorReply>(Admission::Admitted),
        Access::Device => match device {
            Some(text) => r matches Ok(Admission::Device { device_token }) && device_token@ == text,
            None => r == Err::<Admission, ErrorReply>(headers::device_token_refusal()),
        },
        Access::Channel => match (device, claim) {
            (None, _) => r == Err::<Admission, ErrorReply>(headers::device_token_refusal()),
            (Some(_), None) => r == Err::<Admission, ErrorReply>(headers::claim_token_refusal()),
            (Some(device_text), Some(claim_text)) => r matches Ok(
                Admission::Channel { device_token, claim_token },
            ) && device_token@ == device_text && claim_token@ == claim_text,
        },
        Access::Operator => if !auth::is_operator(state, headers, token) {
            r == Err::<Admission, ErrorReply>(error::unauthorized_reply())
        } else {
            identity_is(r, policy.identity, state, headers, token, query_principal_id)
        },
        Access::Caller => if !auth::is_admitted(state, headers, token) {
            r == Err::<Admission, ErrorReply>(error::unauthorized_reply())
        } else {
            identity_is(r, policy.identity, state, headers, token, query_principal_id)
        },
    }
}

pub open spec fn identity_is(
    r: Result<Admission, ErrorReply>,
    identity: Identity,
    state: &AppState,
    headers: &HeaderMap,
    token: Option<&str>,
    query_principal_id: Option<&str>,
) -> bool {
    match identity {
        Identity::Unresolved => r == Ok::<Admission, ErrorReply>(Admission::Admitted),
        Identity::Caller => acts_as(r, auth::caller_of(state, headers, token, None)),
        Identity::NamedCaller => acts_as(
            r,
            auth::caller_of(state, headers, token, query_principal_id),
        ),
        Identity::Reader => acts_as(
            r,
            auth::read_principal_of(state, headers, token, query_principal_id),
        ),
        Identity::CallerUnlessOperator => if auth::is_operator(state, headers, token) {
            r == Ok::<Admission, ErrorReply>(Admission::Admitted)
        } else {
            acts_as(r, auth::principal_of(state, headers, None))
        },
    }
}

pub open spec fn acts_as(
    r: Result<Admission, ErrorReply>,
    principal: Result<auth::PrincipalView, SdkError>,
) -> bool {
    match principal {
        Ok(view) => r matches Ok(Admission::Principal(found)) && found@ == view,
        Err(refusal) => r == Err::<Admission, ErrorReply>(error::sdk_reply(refusal)),
    }
}

fn as_principal(found: Result<PrincipalAssertion, SdkError>) -> (r: Result<Admission, ErrorReply>)
    ensures
        match found {
            Ok(principal) => r == Ok::<Admission, ErrorReply>(Admission::Principal(principal)),
            Err(refusal) => r == Err::<Admission, ErrorReply>(error::sdk_reply(refusal)),
        },
{
    match found {
        Ok(principal) => Ok(Admission::Principal(principal)),
        Err(refusal) => Err(sdk_error_response(refusal)),
    }
}

fn identify(
    identity: Identity,
    state: &AppState,
    headers: &HeaderMap,
    token: Option<&str>,
    query_principal_id: Option<&str>,
) -> (r: Result<Admission, ErrorReply>)
    ensures
        identity_is(r, identity, state, headers, token, query_principal_id),
{
    match identity {
        Identity::Unresolved => Ok(Admission::Admitted),
        Identity::Caller => as_principal(request_caller(state, headers, token, None)),
        Identity::NamedCaller => as_principal(
            request_caller(state, headers, token, query_principal_id),
        ),
        Identity::Reader => as_principal(
            auth::request_read_principal(state, headers, token, query_principal_id),
        ),
        Identity::CallerUnlessOperator => if is_operator_authorized(state, headers, token) {
            Ok(Admission::Admitted)
        } else {
            as_principal(request_principal(state, headers, None))
        },
    }
}

/// Lets a request through to a route, or says why not.
pub fn admission(
    endpoint: Endpoint,
    state: &AppState,
    headers: &HeaderMap,
    token: Option<&str>,
    query_principal_id: Option<&str>,
) -> (r: Result<Admission, ErrorReply>)
    ensures
        admission_is(r, endpoint.rules(), state, headers, token, query_principal_id),
{
    let policy = endpoint.policy();
    match policy.access {
        Access::Open => Ok(Admission::Admitted),
        Access::Operator => if is_operator_authorized(state, headers, token) {
            identify(policy.identity, state, headers, token, query_principal_id)
        } else {
            Err(unauthorized_response())
        },
        Access::Caller => if is_authorized(state, headers, token) {
            identify(policy.identity, state, headers, token, query_principal_id)
        } else {
            Err(unauthorized_response())
        },
        Access::Device => match node_device_token(headers) {
            Ok(token) => Ok(Admission::Device { device_token: token.to_owned() }),
            Err(refusal) => Err(refusal),
        },
        Access::Channel => {
            let device_token: String = match node_device_token(headers) {
                Ok(token) => token.to_owned(),
                Err(refusal) => {
                    return Err(refusal);
                },
            };
            match edge_claim_token(headers) {
                Ok(token) => Ok(Admission::Channel { device_token, claim_token: token.to_owned() }),
                Err(refusal) => Err(refusal),
            }
        },
    }
}

/// How a backend call came out: with a value, refused by the backend, or failed in the runtime.
pub enum CallOutcome {
    Done(Json),
    Refused(SdkError),
    Failed(String),
}

/// The answer to a backend call for a route whose policy fixes it.
pub open spec fn answer_of(policy: Policy, outcome: CallOutcome) -> Result<Reply, ErrorReply> {
    match outcome {
        CallOutcome::Done(value) => Ok(
            match policy.outcome {
                Outcome::Own => Reply { status: 200, body: Body::Value(value) },
                Outcome::Value { status } => Reply { status, body: Body::Value(value) },
                Outcome::Named { status, name } => Reply {
                    status,
                    body: Body::Named { name, value },
                },
                Outcome::Empty { status } => Reply { status, body: Body::Empty },
            },
        ),
        CallOutcome::Refused(refusal) => Err(
            match policy.failure {
                FailureRule::Status(status) => error::error_reply(status, refusal.message),
                _ => error::sdk_reply(refusal),
            },
        ),
        CallOutcome::Failed(detail) => Err(
            match policy.failure {
                FailureRule::Status(status) => error::error_reply(status, Message::Owned(detail)),
                _ => reply::internal_reply(),
            },
        ),
    }
}

pub fn answer(endpoint: Endpoint, outcome: CallOutcome) -> (r: Result<Reply, ErrorReply>)
    ensures
        r == answer_of(endpoint.rules(), outcome),
{
    let policy = endpoint.policy();
    match outcome {
        CallOutcome::Done(value) => Ok(
            match policy.outcome {
                Outcome::Own => Reply { status: 200, body: Body::Value(value) },
                Outcome::Value { status } => Reply { status, body: Body::Value(value) },
                Outcome::Named { status, name } => Reply {
                    status,
                    body: Body::Named { name, value },
                },
                Outcome::Empty { status } => Reply { status, body: Body::Empty },
            },
        ),
        CallOutcome::Refused(refusal) => Err(
            match policy.failure {
                FailureRule::Status(status) => error_response(status, refusal.message),
                _ => sdk_error_response(refusal),
            },
        ),
        CallOutcome::Failed(detail) => Err(
            match policy.failure {
                FailureRule::Status(status) => error_response(status, Message::Owned(detail)),
                _ => internal_response(),
            },
        ),
    }
}

/// How many items a route gives: a fallback, and the least and the most that may be asked for.
pub struct LimitRule {
    pub fallback: u64,
    pub low: u64,
    pub high: u64,
}

/// How many entries a listing gives, for the number that a request asks for.
pub open spec fn page_limit_of(
    endpoint: Endpoint,
    asked: Option<u64>,
) -> Option<u64> {
    match endpoint.limit_rule() {
        Some(rule) => Some(
            reply::clamped(
                match asked {
                    Some(n) => n,
                    None => rule.fallback,
                },
                rule.low,
                rule.high,
            ),
        ),
        None => None,
    }
}

impl Endpoint {
    /// The limit of a route that takes one and hands it on to the runtime.
    pub open spec fn limit_rule(self) -> Option<LimitRule> {
        match self {
            Endpoint::Dashboard(DashboardRoute::RecentTurns) => Some(
                LimitRule { fallback: 50, low: 1, high: 512 },
            ),
            Endpoint::Provider(ProviderRoute::ProviderAttempts) => Some(
                LimitRule { fallback: 50, low: 0, high: u64::MAX },
            ),
            Endpoint::Context(ContextRoute::SearchRecall) => Some(
                LimitRule { fallback: 20, low: 1, high: 100 },
            ),
            Endpoint::Context(ContextRoute::Scheduler) => Some(
                LimitRule { fallback: 200, low: 0, high: u64::MAX },
            ),
            Endpoint::Context(ContextRoute::ListAcknowledgements) => Some(
                LimitRule { fallback: 250, low: 0, high: u64::MAX },
            ),
            Endpoint::Context(ContextRoute::EventHistory) => Some(
                LimitRule { fallback: 100, low: 0, high: u64::MAX },
            ),
            Endpoint::Job(JobRoute::JobOutput) => Some(
                LimitRule { fallback: 200, low: 0, high: u64::MAX },
            ),
            Endpoint::Session(SessionRoute::SearchPrincipals) => Some(
                LimitRule { fallback: 20, low: 1, high: 100 },
            ),
            _ => None,
        }
    }

    /// The limit that a route hands on, `None` where it takes none.
    pub fn page_limit(self, asked: Option<u64>) -> (r: Option<u64>)
        ensures
            r == page_limit_of(self, asked),
    {
        match self {
            Endpoint::Dashboard(DashboardRoute::RecentTurns) => Some(
                bounded_limit(asked, 50, 1, 512),
            ),
            Endpoint::Provider(ProviderRoute::ProviderAttempts) => Some(
                bounded_limit(asked, 50, 0, u64::MAX),
            ),
            Endpoint::Context(ContextRoute::SearchRecall) => Some(bounded_limit(asked, 20, 1, 100)),
            Endpoint::Context(ContextRoute::Scheduler) => Some(
                bounded_limit(asked, 200, 0, u64::MAX),
            ),
            Endpoint::Context(ContextRoute::ListAcknowledgements) => Some(
                bounded_limit(asked, 250, 0, u64::MAX),
            ),
            Endpoint::Context(ContextRoute::EventHistory) => Some(
                bounded_limit(asked, 100, 0, u64::MAX),
            ),
            Endpoint::Job(JobRoute::JobOutput) => Some(bounded_limit(asked, 200, 0, u64::MAX)),
            Endpoint::Session(SessionRoute::SearchPrincipals) => Some(
                bounded_limit(asked, 20, 1, 100),
            ),
            _ => None,
        }
    }
}

/// An operator route is never entered without the operator's credential.
pub proof fn law_operator_routes_need_the_operator(
    endpoint: Endpoint,
    state: &AppState,
    headers: &HeaderMap,
    token: Option<&str>,
    query_principal_id: Option<&str>,
    r: Result<Admission, ErrorReply>,
)
    requires
        endpoint.rules().access == Access::Operator,
        admission_is(r, endpoint.rules(), state, headers, token, query_principal_id),
        r is Ok,
    ensures
        auth::is_operator(state, headers, token),
{
}

/// The dashboard credential never asserts an end user. An operator that is let through to a route
/// acts as the local owner or as nobody, whether its credential stands in a header or in the URL
/// and whomever the request names; only a read may show what another principal sees.
pub proof fn law_operators_write_as_the_local_owner(
    endpoint: Endpoint,
    state: &AppState,
    headers: &HeaderMap,
    token: Option<&str>,
    query_principal_id: Option<&str>,
    r: Result<Admission, ErrorReply>,
)
    requires
        auth::is_operator(state, headers, token),
        admission_is(r, endpoint.rules(), state, headers, token, query_principal_id),
    ensures
        endpoint.rules().method != Method::Get || endpoint.rules().identity != Identity::Reader
            || query_principal_id is None ==> (r matches Ok(Admission::Principal(found))
            ==> found@ == state.default_principal@),
        (endpoint.rules().access == Access::Operator || endpoint.rules().access == Access::Caller)
            && endpoint.rules().method != Method::Get ==> r is Ok,
{
}

/// Only reads observe in another principal's name.
pub proof fn law_observation_is_for_reads(endpoint: Endpoint)
    ensures
        endpoint.rules().identity == Identity::Reader ==> endpoint.rules().method == Method::Get,
{
}

/// Every route that is open to anyone names its own authority: none of them resolves a caller.
pub proof fn law_open_routes_act_as_nobody(endpoint: Endpoint)
    ensures
        endpoint.rules().access == Access::Open ==> endpoint.rules().identity
            == Identity::Unresolved,
{
}

/// Every route is registered.
pub proof fn law_every_route_is_registered(endpoint: Endpoint)
    ensures
        all_endpoints().contains(endpoint),
{
    let i = choose|i: int| 0 <= i < all_endpoints().len() && all_endpoints()[i] == endpoint;
    assert(all_endpoints()[i] == endpoint);
}

/// These routes are open to everybody, with or without a credential, and no others.
pub proof fn law_these_routes_are_open(endpoint: Endpoint)
    ensures
        endpoint.rules().access == Access::Open <==> (match endpoint {
            Endpoint::Dashboard(route) => match route {
                DashboardRoute::DashboardIndex
                | DashboardRoute::AppScript
                | DashboardRoute::AppStyle
                | DashboardRoute::Favicon
                | DashboardRoute::Icons
                | DashboardRoute::Health => true,
                _ => false,
            },
            Endpoint::Provider(route) => match route {
                ProviderRoute::OAuthCallback => true,
                _ => false,
            },
            Endpoint::Coordination(route) => match route {
                CoordinationRoute::Identity
                | CoordinationRoute::Handshake
                | CoordinationRoute::Projection
                | CoordinationRoute::Evaluate
                | CoordinationRoute::Cancel => true,
                _ => false,
            },
            Endpoint::Edge(route) => match route {
                EdgeRoute::PairNode
                | EdgeRoute::NodeChallenge
                | EdgeRoute::ConnectNode => true,
                _ => false,
            },
            _ => false,
        }),
{
}

/// These routes are for edge nodes, which show their device token, and of these the artifact channels
/// ask for a claim token as well.
pub proof fn law_these_routes_are_for_edge_nodes(endpoint: Endpoint)
    ensures
        endpoint.rules().access == Access::Device <==> (match endpoint {
            Endpoint::Edge(route) => match route {
                EdgeRoute::RotateNodeKey
                | EdgeRoute::HeartbeatNode
                | EdgeRoute::ClaimCommand
                | EdgeRoute::HeartbeatCommand
                | EdgeRoute::AppendOutput
                | EdgeRoute::FinishCommand
                | EdgeRoute::ReserveBackground
                | EdgeRoute::HeartbeatBackground
                | EdgeRoute::FinishBackground
                | EdgeRoute::CancelBackground => true,
                _ => false,
            },
            _ => false,
        }),
        endpoint.rules().access == Access::Channel <==> (match endpoint {
            Endpoint::Edge(route) => match route {
                EdgeRoute::DownloadArtifact
                | EdgeRoute::InspectUpload
                | EdgeRoute::UploadArtifact => true,
                _ => false,
            },
            _ => false,
        }),
{
}

/// These routes are for every admitted caller. All that are neither among them, nor open, nor for
/// edge nodes are for operators.
pub proof fn law_these_routes_are_for_callers(endpoint: Endpoint)
    ensures
        endpoint.rules().access == Access::Caller <==> (match endpoint {
            Endpoint::Context(route) => match route {
                ContextRoute::CreateContext
                | ContextRoute::SearchDialogue => true,
                _ => false,
            },
            Endpoint::Target(route) => match route {
                TargetRoute::ListTargets
                | TargetRoute::RegisterTarget
                | TargetRoute::InspectTarget
                | TargetRoute::MutateTarget
                | TargetRoute::ListTargetAuthorizations
                | TargetRoute::AuthorizeTarget
                | TargetRoute::RevokeTargetAuthorization
                | TargetRoute::ListLeases
                | TargetRoute::RestrictLease
                | TargetRoute::RevokeLease => true,
                _ => false,
            },
            Endpoint::Edge(route) => match route {
                EdgeRoute::CreatePairingCode
                | EdgeRoute::ListNodes
                | EdgeRoute::RevokeNode => true,
                _ => false,
            },
            Endpoint::Job(route) => match route {
                JobRoute::ListJobs
                | JobRoute::InspectJob
                | JobRoute::CancelJob
                | JobRoute::SubmitTransfer
                | JobRoute::InspectTransfer
                | JobRoute::TransferOutput
                | JobRoute::CancelTransfer => true,
                _ => false,
            },
            Endpoint::Session(route) => match route {
                SessionRoute::ListSessions
                | SessionRoute::CreateSession
                | SessionRoute::CreateIndependentSession
                | SessionRoute::GetSession
                | SessionRoute::UpdateSession
                | SessionRoute::SessionTargets
                | SessionRoute::SendMessage
                | SessionRoute::ListStages
                | SessionRoute::CreateStage
                | SessionRoute::GetStage
                | SessionRoute::CancelStage
                | SessionRoute::UploadStage
                | SessionRoute::RetryTurn
                | SessionRoute::ClaimSession
                | SessionRoute::SessionEvents
                | SessionRoute::EventAttachment
                | SessionRoute::SessionContext
                | SessionRoute::SessionProjection
                | SessionRoute::SessionEncoding
                | SessionRoute::CancelSession
                | SessionRoute::WebSocket => true,
                _ => false,
            },
            Endpoint::Control(route) => match route {
                ControlRoute::CreateObjective
                | ControlRoute::ResumeObjective
                | ControlRoute::PauseObjective
                | ControlRoute::EditObjective
                | ControlRoute::DeleteObjective => true,
                _ => false,
            },
            _ => false,
        }),
{
}

/// These routes act as somebody: as the caller, as the caller whom the request may name, or, for
/// reads, as whom an operator observes.
pub proof fn law_these_routes_act_as_somebody(endpoint: Endpoint)
    ensures
        endpoint.rules().identity == Identity::Caller <==> (match endpoint {
            Endpoint::Runtime(route) => match route {
                RuntimeRoute::CreateAgent => true,
                _ => false,
            },
            Endpoint::Session(route) => match route {
                SessionRoute::CreateSession
                | SessionRoute::CreateIndependentSession
                | SessionRoute::SendMessage
                | SessionRoute::ListStages
                | SessionRoute::CreateStage
                | SessionRoute::GetStage
                | SessionRoute::CancelStage
                | SessionRoute::UploadStage
                | SessionRoute::RetryTurn
                | SessionRoute::CancelSession => true,
                _ => false,
            },
            Endpoint::Control(route) => match route {
                ControlRoute::CreateObjective => true,
                _ => false,
            },
            _ => false,
        }),
        endpoint.rules().identity == Identity::NamedCaller <==> (match endpoint {
            Endpoint::Target(route) => match route {
                TargetRoute::RegisterTarget
                | TargetRoute::InspectTarget
                | TargetRoute::MutateTarget
                | TargetRoute::ListTargetAuthorizations
                | TargetRoute::AuthorizeTarget
                | TargetRoute::RevokeTargetAuthorization
                | TargetRoute::ListLeases
                | TargetRoute::RestrictLease
                | TargetRoute::RevokeLease => true,
                _ => false,
            },
            Endpoint::Edge(route) => match route {
                EdgeRoute::CreatePairingCode
                | EdgeRoute::ListNodes
                | EdgeRoute::RevokeNode => true,
                _ => false,
            },
            Endpoint::Job(route) => match route {
                JobRoute::ListJobs
                | JobRoute::InspectJob
                | JobRoute::CancelJob
                | JobRoute::SubmitTransfer
                | JobRoute::InspectTransfer
                | JobRoute::TransferOutput
                | JobRoute::CancelTransfer => true,
                _ => false,
            },
            _ => false,
        }),
        endpoint.rules().identity == Identity::Reader <==> (match endpoint {
            Endpoint::Context(route) => match route {
                ContextRoute::SearchDialogue => true,
                _ => false,
            },
            Endpoint::Target(route) => match route {
                TargetRoute::ListTargets => true,
                _ => false,
            },
            Endpoint::Session(route) => match route {
                SessionRoute::GetSession
                | SessionRoute::SessionTargets
                | SessionRoute::SessionEvents
                | SessionRoute::EventAttachment
                | SessionRoute::SessionContext
                | SessionRoute::SessionProjection
                | SessionRoute::SessionEncoding => true,
                _ => false,
            },
            _ => false,
        }),
        endpoint.rules().identity == Identity::CallerUnlessOperator <==> (match endpoint {
            Endpoint::Session(route) => match route {
                SessionRoute::ListSessions => true,
                _ => false,
            },
            _ => false,
        }),
{
}

/// What makes something is asked for by `POST`, what replaces something by `PUT`, what changes a part
/// by `PATCH` and what removes something by `DELETE`; everything else only reads.
pub proof fn law_these_routes_change_something(endpoint: Endpoint)
    ensures
        endpoint.rules().method == Method::Post <==> (match endpoint {
            Endpoint::Runtime(route) => match route {
                RuntimeRoute::PutSecret
                | RuntimeRoute::ImportSecret
                | RuntimeRoute::CreateAgent => true,
                _ => false,
            },
            Endpoint::Provider(route) => match route {
                ProviderRoute::DiscoverModels
                | ProviderRoute::OAuthSetup
                | ProviderRoute::SubmitOAuthCallback
                | ProviderRoute::TestAccount
                | ProviderRoute::RefreshAccountModels
                | ProviderRoute::TestModelRoute
                | ProviderRoute::RefreshModelRoute
                | ProviderRoute::StartLogin
                | ProviderRoute::StartLoginUsing
                | ProviderRoute::LogoutAccount
                | ProviderRoute::ContinueLogin => true,
                _ => false,
            },
            Endpoint::Context(route) => match route {
                ContextRoute::CreateContext
                | ContextRoute::Acknowledge
                | ContextRoute::ControlThread
                | ContextRoute::SupersedeThread
                | ContextRoute::AuditProjection
                | ContextRoute::RebuildRecallIndex
                | ContextRoute::FrameLifecycle => true,
                _ => false,
            },
            Endpoint::Coordination(route) => match route {
                CoordinationRoute::Handshake
                | CoordinationRoute::Projection
                | CoordinationRoute::Evaluate
                | CoordinationRoute::Cancel => true,
                _ => false,
            },
            Endpoint::Target(route) => match route {
                TargetRoute::RegisterTarget
                | TargetRoute::AuthorizeTarget => true,
                _ => false,
            },
            Endpoint::Edge(route) => match route {
                EdgeRoute::CreatePairingCode
                | EdgeRoute::PairNode
                | EdgeRoute::NodeChallenge
                | EdgeRoute::ConnectNode
                | EdgeRoute::RotateNodeKey
                | EdgeRoute::HeartbeatNode
                | EdgeRoute::ClaimCommand
                | EdgeRoute::HeartbeatCommand
                | EdgeRoute::AppendOutput
                | EdgeRoute::FinishCommand
                | EdgeRoute::ReserveBackground
                | EdgeRoute::HeartbeatBackground
                | EdgeRoute::FinishBackground
                | EdgeRoute::CancelBackground => true,
                _ => false,
            },
            Endpoint::Job(route) => match route {
                JobRoute::CancelJob
                | JobRoute::SubmitTransfer
                | JobRoute::CancelTransfer => true,
                _ => false,
            },
            Endpoint::Session(route) => match route {
                SessionRoute::CreateSession
                | SessionRoute::CreateIndependentSession
                | SessionRoute::SendMessage
                | SessionRoute::CreateStage
                | SessionRoute::RetryTurn
                | SessionRoute::ClaimSession
                | SessionRoute::CancelSession => true,
                _ => false,
            },
            Endpoint::Control(route) => match route {
                ControlRoute::CreateObjective
                | ControlRoute::ResumeObjective
                | ControlRoute::PauseObjective
                | ControlRoute::CancelDelegation
                | ControlRoute::DecideApproval
                | ControlRoute::MutateSchedule => true,
                _ => false,
            },
            _ => false,
        }),
        endpoint.rules().method == Method::Put <==> (match endpoint {
            Endpoint::Runtime(route) => match route {
                RuntimeRoute::AutoReviewModel
                | RuntimeRoute::EvaluationPolicy
                | RuntimeRoute::UpdateInference
                | RuntimeRoute::BindAgentAccount => true,
                _ => false,
            },
            Endpoint::Provider(route) => match route {
                ProviderRoute::ProviderSetup
                | ProviderRoute::PutProviderInstance
                | ProviderRoute::PutAccountConfig
                | ProviderRoute::PutAccountModels
                | ProviderRoute::PutModelRoute => true,
                _ => false,
            },
            Endpoint::Edge(route) => match route {
                EdgeRoute::UploadArtifact => true,
                _ => false,
            },
            Endpoint::Session(route) => match route {
                SessionRoute::UploadStage => true,
                _ => false,
            },
            _ => false,
        }),
        endpoint.rules().method == Method::Patch <==> (match endpoint {
            Endpoint::Provider(route) => match route {
                ProviderRoute::ControlAccount => true,
                _ => false,
            },
            Endpoint::Context(route) => match route {
                ContextRoute::UpdateContext
                | ContextRoute::UpdateTokenBudget
                | ContextRoute::UpdateCapability => true,
                _ => false,
            },
            Endpoint::Target(route) => match route {
                TargetRoute::MutateTarget
                | TargetRoute::RestrictLease => true,
                _ => false,
            },
            Endpoint::Session(route) => match route {
                SessionRoute::UpdateSession => true,
                _ => false,
            },
            Endpoint::Control(route) => match route {
                ControlRoute::EditObjective => true,
                _ => false,
            },
            _ => false,
        }),
        endpoint.rules().method == Method::Delete <==> (match endpoint {
            Endpoint::Runtime(route) => match route {
                RuntimeRoute::DeleteSecret
                | RuntimeRoute::UnbindAgentAccount => true,
                _ => false,
            },
            Endpoint::Provider(route) => match route {
                ProviderRoute::DeleteAccount
                | ProviderRoute::CancelLogin => true,
                _ => false,
            },
            Endpoint::Target(route) => match route {
                TargetRoute::RevokeTargetAuthorization
                | TargetRoute::RevokeLease => true,
                _ => false,
            },
            Endpoint::Edge(route) => match route {
                EdgeRoute::RevokeNode => true,
                _ => false,
            },
            Endpoint::Session(route) => match route {
                SessionRoute::CancelStage => true,
                _ => false,
            },
            Endpoint::Control(route) => match route {
                ControlRoute::DeleteObjective => true,
                _ => false,
            },
            _ => false,
        }),
{
}

/// A value that the runtime gave is passed on whole, under its name where the route has one, with 201
/// where something was made, with 202 where something was taken on, and with 200 otherwise; only one
/// route answers with nothing.
pub proof fn law_values_are_passed_on(endpoint: Endpoint, value: Json)
    ensures
        answer_of(endpoint.rules(), CallOutcome::Done(value)) matches Ok(reply) && (match endpoint {
            Endpoint::Runtime(RuntimeRoute::ListAgents) => reply.status == 200 && reply.body == (Body::Named { name: "agents", value }),
            Endpoint::Provider(ProviderRoute::DiscoverModels) => reply.status == 200 && reply.body == (Body::Named { name: "models", value }),
            Endpoint::Provider(ProviderRoute::LogoutAccount) => reply.status == 200 && reply.body == (Body::Named { name: "deleted", value }),
            Endpoint::Context(ContextRoute::ListContexts) => reply.status == 200 && reply.body == (Body::Named { name: "contexts", value }),
            Endpoint::Target(TargetRoute::ListTargets) => reply.status == 200 && reply.body == (Body::Named { name: "targets", value }),
            Endpoint::Target(TargetRoute::ListTargetAuthorizations) => reply.status == 200 && reply.body == (Body::Named { name: "authorizations", value }),
            Endpoint::Target(TargetRoute::ListLeases) => reply.status == 200 && reply.body == (Body::Named { name: "leases", value }),
            Endpoint::Edge(EdgeRoute::ListNodes) => reply.status == 200 && reply.body == (Body::Named { name: "nodes", value }),
            Endpoint::Edge(EdgeRoute::FinishBackground) => reply.status == 200 && reply.body == (Body::Named { name: "committed", value }),
            Endpoint::Job(JobRoute::JobOutput) => reply.status == 200 && reply.body == (Body::Named { name: "chunks", value }),
            Endpoint::Job(JobRoute::ListJobs) => reply.status == 200 && reply.body == (Body::Named { name: "jobs", value }),
            Endpoint::Session(SessionRoute::ListStages) => reply.status == 200 && reply.body == (Body::Named { name: "stages", value }),
            Endpoint::Control(ControlRoute::ListApprovals) => reply.status == 200 && reply.body == (Body::Named { name: "approvals", value }),
            _ => if (match endpoint {
            Endpoint::Session(route) => match route {
                SessionRoute::CancelStage => true,
                _ => false,
            },
            _ => false,
        }) {
                reply.status == 204 && reply.body == Body::Empty
            } else {
                reply.body == Body::Value(value) && reply.status == (if (match endpoint {
            Endpoint::Provider(route) => match route {
                ProviderRoute::OAuthSetup
                | ProviderRoute::StartLogin
                | ProviderRoute::StartLoginUsing => true,
                _ => false,
            },
            Endpoint::Target(route) => match route {
                TargetRoute::RegisterTarget
                | TargetRoute::AuthorizeTarget => true,
                _ => false,
            },
            Endpoint::Edge(route) => match route {
                EdgeRoute::CreatePairingCode
                | EdgeRoute::PairNode => true,
                _ => false,
            },
            _ => false,
        }) {
                    201u16
                } else if (match endpoint {
            Endpoint::Job(route) => match route {
                JobRoute::SubmitTransfer => true,
                _ => false,
            },
            _ => false,
        }) {
                    202u16
                } else {
                    200u16
                })
            },
        }),
{
}

/// A refusal of the runtime keeps its own class and words, but on these routes, which have a status
/// of their own for every failure.
pub proof fn law_failures_are_answered(endpoint: Endpoint, refusal: SdkError, detail: String)
    ensures
        ({
            let fixed: Option<u16> = if (match endpoint {
            Endpoint::Runtime(route) => match route {
                RuntimeRoute::ListSecrets
                | RuntimeRoute::SecretScopes
                | RuntimeRoute::GetInference
                | RuntimeRoute::ListAgents => true,
                _ => false,
            },
            Endpoint::Provider(route) => match route {
                ProviderRoute::Providers
                | ProviderRoute::ProviderAttempts => true,
                _ => false,
            },
            Endpoint::Context(route) => match route {
                ContextRoute::ListContexts
                | ContextRoute::SearchRecall
                | ContextRoute::RecallIndex
                | ContextRoute::RebuildRecallIndex => true,
                _ => false,
            },
            Endpoint::Session(route) => match route {
                SessionRoute::SearchPrincipals => true,
                _ => false,
            },
            _ => false,
        }) {
                Some(500)
            } else if (match endpoint {
            Endpoint::Provider(route) => match route {
                ProviderRoute::ControlAccount => true,
                _ => false,
            },
            _ => false,
        }) {
                Some(409)
            } else if (match endpoint {
            Endpoint::Provider(route) => match route {
                ProviderRoute::DiscoverModels
                | ProviderRoute::StartLogin
                | ProviderRoute::StartLoginUsing
                | ProviderRoute::LogoutAccount => true,
                _ => false,
            },
            Endpoint::Context(route) => match route {
                ContextRoute::RecallFrame => true,
                _ => false,
            },
            _ => false,
        }) {
                Some(400)
            } else {
                None
            };
            let refused = answer_of(endpoint.rules(), CallOutcome::Refused(refusal));
            let failed = answer_of(endpoint.rules(), CallOutcome::Failed(detail));
            match fixed {
                Some(status) => {
                    &&& refused is Err && refused->Err_0.status == status
                    &&& failed is Err && failed->Err_0.status == status
                    &&& status != 500 ==> refused->Err_0.message == refusal.message
                        && failed->Err_0.message@ == detail@
                    &&& status == 500 ==> refused->Err_0.message@ == error::INTERNAL_MESSAGE@
                        && failed->Err_0.message@ == error::INTERNAL_MESSAGE@
                },
                None => {
                    &&& refused == Err::<Reply, ErrorReply>(error::sdk_reply(refusal))
                    &&& failed is Err && failed->Err_0.status == 500 && failed->Err_0.message@
                        == error::INTERNAL_MESSAGE@
                },
            }
        }),
{
}

/// Who is admitted. Open routes admit everybody; a device shows a token that is not blank; a channel
/// shows its claim too; the operator routes take operators and the others every admitted caller. All
/// others are answered with 401, and an admitted caller is refused only where nobody can be said to
/// be calling.
pub proof fn law_admission_follows_the_credential(
    policy: Policy,
    state: &AppState,
    headers: &HeaderMap,
    token: Option<&str>,
    query_principal_id: Option<&str>,
    r: Result<Admission, ErrorReply>,
)
    requires
        admission_is(r, policy, state, headers, token, query_principal_id),
    ensures
        ({
            let device = headers::bearer_token(headers) matches Some(text) && text::trimmed(
                text,
            ).len() > 0;
            let claim = headers.header("x-morphz-claim-token"@).readable() matches Some(text)
                && text::trimmed(text).len() > 0;
            let admitted = match policy.access {
                Access::Open => true,
                Access::Device => device,
                Access::Channel => device && claim,
                Access::Operator => auth::is_operator(state, headers, token),
                Access::Caller => auth::is_admitted(state, headers, token),
            };
            &&& !admitted ==> (r matches Err(reply) && reply.status == 401)
            &&& admitted && (policy.access is Open || policy.access is Device
                || policy.access is Channel || policy.identity is Unresolved) ==> r is Ok
            &&& policy.access is Device ==> (r matches Ok(Admission::Device { device_token })
                ==> device_token@ == text::trimmed(headers::bearer_token(headers)->0))
            &&& policy.access is Channel ==> (r matches Ok(
                Admission::Channel { device_token, claim_token },
            ) ==> device_token@ == text::trimmed(headers::bearer_token(headers)->0) && claim_token@
                == text::trimmed(headers.header("x-morphz-claim-token"@).readable()->0))
            &&& r matches Ok(Admission::Device { .. }) ==> policy.access is Device
            &&& r matches Ok(Admission::Channel { .. }) ==> policy.access is Channel
            &&& admitted && (policy.access is Operator || policy.access is Caller)
                && !(policy.identity is Unresolved) && !auth::is_operator(state, headers, token)
                && state.identity.mode == auth::ServerIdentityMode::Default ==> (r matches Ok(
                Admission::Principal(found),
            ) && found@ == state.default_principal@)
        }),
{
}

/// Whom a request names in its query counts on the routes that say so only: for every other route
/// two requests that differ in it alone are admitted alike.
pub proof fn law_named_principals_count_where_they_may(
    policy: Policy,
    state: &AppState,
    headers: &HeaderMap,
    token: Option<&str>,
    one: Option<&str>,
    other: Option<&str>,
    r: Result<Admission, ErrorReply>,
)
    requires
        policy.identity != Identity::NamedCaller,
        policy.identity != Identity::Reader,
    ensures
        admission_is(r, policy, state, headers, token, one) == admission_is(
            r,
            policy,
            state,
            headers,
            token,
            other,
        ),
{
}

/// How long a page is. Without a number the page has its usual length; a number is taken as it is
/// where the route sets no bounds, and brought within them where it does; and the other routes have
/// no pages.
pub proof fn law_pages_have_their_length(endpoint: Endpoint, asked: u64)
    ensures
        ({
            let usual: Option<u64> = match endpoint {
                Endpoint::Dashboard(DashboardRoute::RecentTurns) => Some(50),
                Endpoint::Provider(ProviderRoute::ProviderAttempts) => Some(50),
                Endpoint::Context(ContextRoute::SearchRecall) => Some(20),
                Endpoint::Context(ContextRoute::Scheduler) => Some(200),
                Endpoint::Context(ContextRoute::ListAcknowledgements) => Some(250),
                Endpoint::Context(ContextRoute::EventHistory) => Some(100),
                Endpoint::Job(JobRoute::JobOutput) => Some(200),
                Endpoint::Session(SessionRoute::SearchPrincipals) => Some(20),
                _ => None,
            };
            let most: Option<u64> = match endpoint {
                Endpoint::Dashboard(DashboardRoute::RecentTurns) => Some(512),
                Endpoint::Context(ContextRoute::SearchRecall) => Some(100),
                Endpoint::Session(SessionRoute::SearchPrincipals) => Some(100),
                _ => None,
            };
            &&& page_limit_of(endpoint, None) == usual
            &&& usual is None ==> page_limit_of(endpoint, Some(asked)) is None
            &&& usual is Some && most is None ==> page_limit_of(endpoint, Some(asked)) == Some(
                asked,
            )
            &&& most is Some ==> {
                let given = page_limit_of(endpoint, Some(asked));
                &&& given is Some && 1 <= given->0 <= most->0
                &&& 1 <= asked <= most->0 ==> given == Some(asked)
                &&& asked == 0 ==> given == Some(1u64)
                &&& asked > most->0 ==> given == most
            }
        }),
{
}

} // verus!
