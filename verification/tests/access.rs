use morphz_web::auth::{
    acting_principal, is_authorized, is_operator_authorized, request_caller, request_principal,
    request_read_principal,
    token_is_authorized, websocket_may_subscribe_globally, AppState, PrincipalAssertion,
    ServerIdentityConfig, ServerIdentityMode,
};
use morphz_web::endpoint::{
    admission, answer, endpoints, Access, Admission, CallOutcome, ContextRoute, DashboardRoute,
    EdgeRoute, Endpoint, FailureRule, Identity, JobRoute, Method, ProviderRoute, RuntimeRoute, SessionRoute, TargetRoute,
};
use morphz_web::error::{Message, SdkError, SdkErrorCode};
use morphz_web::headers::{required_u64_header, HeaderMap};
use morphz_web::ident::{
    api_id, api_id_at, bounded_title, valid_trace_id, validate_identifier, validate_principal_id,
    Title,
};
use morphz_web::json::Json;
use morphz_web::mirror::{plan_subscription, SocketScope};
use morphz_web::model::ServerDefaults;
use morphz_web::reply::{bounded_limit, reason_or, require_found, Body};
use morphz_web::server::{
    allowed_headers, allowed_methods, catalog_status, exposed_headers, is_loopback_web_origin,
    origin_host, plan_listening, service_token_variable, start_tokens, status_head, strip_brackets,
    AllowedOrigins, Server,
};

fn state(auth: Option<&str>, gateway: Option<&str>, mode: ServerIdentityMode) -> AppState {
    AppState {
        auth_token: auth.map(str::to_string),
        gateway_token: gateway.map(str::to_string),
        default_agent_id: "agent-test".to_string(),
        default_context_id: "context-test".to_string(),
        identity: ServerIdentityConfig {
            mode,
            provider_id: "morphz-site".to_string(),
            service_token_env: "MORPHZ_API_TOKEN".to_string(),
        },
        default_principal: PrincipalAssertion {
            principal_id: "principal-web-test".to_string(),
            provider_id: "local".to_string(),
            assurance: "local-owner".to_string(),
            display_name: None,
        },
    }
}

fn local() -> AppState {
    state(None, None, ServerIdentityMode::Default)
}

fn gateway() -> AppState {
    state(
        Some("dashboard-secret"),
        Some("gateway-secret"),
        ServerIdentityMode::TrustedGateway,
    )
}

fn headers(entries: &[(&str, &str)]) -> HeaderMap {
    let mut map = HeaderMap::new();
    for (name, value) in entries {
        map.append(name.to_string(), Some(value.to_string()));
    }
    map
}

fn gateway_headers(principal_id: Option<&str>) -> HeaderMap {
    let mut map = headers(&[("authorization", "Bearer gateway-secret")]);
    if let Some(principal_id) = principal_id {
        map.append(
            "x-morphz-principal".to_string(),
            Some(principal_id.to_string()),
        );
    }
    map
}

#[test]
fn dashboard_auth_accepts_local_no_token_mode() {
    assert!(token_is_authorized(None, &HeaderMap::new(), None));
}

#[test]
fn dashboard_auth_requires_matching_bearer_or_query_token() {
    let headers = headers(&[("authorization", "Bearer correct")]);
    assert!(token_is_authorized(Some("correct"), &headers, None));
    assert!(token_is_authorized(
        Some("correct"),
        &HeaderMap::new(),
        Some("correct")
    ));
    assert!(!token_is_authorized(
        Some("correct"),
        &HeaderMap::new(),
        Some("wrong")
    ));
}

#[test]
fn tokenless_loopback_cors_accepts_only_loopback_web_origins() {
    for (origin, host, address_is_loopback) in [
        ("http://localhost:5173", "localhost", false),
        ("http://127.0.0.1:3000", "127.0.0.1", true),
        ("http://[::1]:8080", "::1", true),
    ] {
        let found = origin_host(Some(origin));
        assert_eq!(found.as_deref(), Some(host), "{origin}");
        assert!(
            is_loopback_web_origin(found.as_deref(), address_is_loopback),
            "{origin}"
        );
    }
    for origin in ["https://example.com", "null", "not-an-origin"] {
        let found = origin_host(Some(origin));
        assert!(!is_loopback_web_origin(found.as_deref(), false), "{origin}");
    }
    assert!(!is_loopback_web_origin(None, false));
    assert!(is_loopback_web_origin(Some("LocalHost"), false));
    assert!(origin_host(None).is_none());
    assert!(origin_host(Some("http://exa mple")).is_none());
    assert!(origin_host(Some("/no/host")).is_none());
    assert_eq!(strip_brackets("[[::1]"), "::1");
    assert_eq!(strip_brackets("[]"), "");
    assert_eq!(strip_brackets("a[b]c"), "a[b]c");
}

#[test]
fn external_principal_ids_accept_provider_native_opaque_values() {
    assert!(validate_principal_id("o9cq80-lk788_j4zgPcOdjWMblvY@im.wechat").is_ok());
    assert!(validate_principal_id("github/user+release=bot%2F1").is_ok());
    assert!(validate_principal_id(" principal").is_err());
    assert!(validate_principal_id("principal\nforged").is_err());
}

#[test]
fn principal_ids_are_refused_with_a_reason() {
    assert_eq!(
        validate_principal_id("").err().unwrap(),
        "principal_id length must be 1..=512 bytes"
    );
    assert_eq!(
        validate_principal_id(&"x".repeat(513)).err().unwrap(),
        "principal_id length must be 1..=512 bytes"
    );
    assert!(validate_principal_id(&"x".repeat(512)).is_ok());
    assert_eq!(
        validate_principal_id("a ").err().unwrap(),
        "principal_id must not contain leading or trailing whitespace"
    );
    assert_eq!(
        validate_principal_id("a\tb").err().unwrap(),
        "principal_id must not contain control characters"
    );
}

#[test]
fn identifiers_are_short_and_plain() {
    assert!(validate_identifier("session_id", "a.b-c_d:9").is_ok());
    assert_eq!(
        validate_identifier("session_id", "").err().unwrap(),
        "session_id length must be 1..=128"
    );
    assert_eq!(
        validate_identifier("session_id", &"x".repeat(129))
            .err()
            .unwrap(),
        "session_id length must be 1..=128"
    );
    assert_eq!(
        validate_identifier("session_id", "a/b").err().unwrap(),
        "session_id may contain only ASCII letters, digits, dots, hyphens, underscores, or colons"
    );
    assert!(valid_trace_id("a-b_c.d"));
    assert!(!valid_trace_id("a:b"));
    assert!(!valid_trace_id(""));
    assert!(!valid_trace_id(&"x".repeat(129)));
}

#[test]
fn titles_are_trimmed_and_cut() {
    assert_eq!(bounded_title(None, "Fallback"), "Fallback");
    assert_eq!(bounded_title(Some("  A  ".to_string()), "Fallback"), "A");
    assert_eq!(
        bounded_title(Some("ä".repeat(300)), "Fallback")
            .chars()
            .count(),
        200
    );
    assert_eq!(Title::Fixed("x").into_text(), "x");
    assert_eq!(
        Title::Bounded {
            given: Some(" y ".to_string()),
            fallback: "z"
        }
        .into_text(),
        "y"
    );
}

#[test]
fn made_up_identifiers_carry_time_and_number() {
    assert_eq!(api_id_at("session", Some(-12), 7), "session_-12_7");
    assert_eq!(api_id_at("session", None, 0), "session_0_0");
    assert_ne!(api_id_at("a", Some(1), 2), api_id_at("a", Some(1), 12));
    let fresh = api_id("ctx", 41);
    assert!(fresh.starts_with("ctx_"));
    assert!(fresh.ends_with("_41"));
    let time: i64 = fresh["ctx_".len()..fresh.len() - "_41".len()]
        .parse()
        .unwrap();
    assert!(time > 1_600_000_000_000_000_000);
}

#[test]
fn local_mode_lets_everyone_in() {
    let state = local();
    let none = HeaderMap::new();
    assert!(is_operator_authorized(&state, &none, None));
    assert!(is_authorized(&state, &none, None));
    assert!(websocket_may_subscribe_globally(&state, &none, None));
    let principal = request_principal(&state, &none, Some("somebody")).ok().unwrap();
    assert_eq!(principal.principal_id, "principal-web-test");
}

#[test]
fn gateway_credential_opens_no_operator_surface() {
    let state = gateway();
    let caller = gateway_headers(Some("site-user-1"));
    assert!(is_authorized(&state, &caller, None));
    assert!(!is_operator_authorized(&state, &caller, None));
    assert!(!websocket_may_subscribe_globally(&state, &caller, None));
    let operator = headers(&[("authorization", "Bearer dashboard-secret")]);
    assert!(is_operator_authorized(&state, &operator, None));
    let none = HeaderMap::new();
    assert!(!is_authorized(&state, &none, None));
    assert!(!is_operator_authorized(&self::state(None, Some("g"), ServerIdentityMode::TrustedGateway), &none, None));
}

#[test]
fn gateway_callers_are_who_the_gateway_says() {
    let state = gateway();
    let found = request_principal(&state, &gateway_headers(Some("site-user-1")), None)
        .ok()
        .unwrap();
    assert_eq!(found.principal_id, "site-user-1");
    assert_eq!(found.provider_id, "morphz-site");
    assert_eq!(found.assurance, "trusted-gateway");
    assert!(found.display_name.is_none());

    let missing = request_principal(&state, &gateway_headers(None), None).err().unwrap();
    assert_eq!(missing.code, SdkErrorCode::Unauthorized);
    assert_eq!(
        missing.message.text(),
        "trusted-gateway request is missing the current Principal"
    );
    let differs = request_principal(&state, &gateway_headers(Some("a")), Some("b"))
        .err()
        .unwrap();
    assert_eq!(differs.code, SdkErrorCode::InvalidArgument);
    assert_eq!(
        differs.message.text(),
        "Principal in Header and Query does not match"
    );
    let blank = request_principal(&state, &gateway_headers(Some(" a")), None).err().unwrap();
    assert_eq!(
        blank.message.text(),
        "principal_id must not contain leading or trailing whitespace"
    );
    let mut unreadable = gateway_headers(None);
    unreadable.append("x-morphz-principal".to_string(), None);
    assert_eq!(
        request_principal(&state, &unreadable, None).err().unwrap().message.text(),
        "Principal Header is not valid UTF-8"
    );
    let mut unnamed = gateway_headers(Some("a"));
    unnamed.append("x-morphz-principal-name".to_string(), None);
    assert_eq!(
        request_principal(&state, &unnamed, None).err().unwrap().message.text(),
        "Principal Name Header is not valid UTF-8"
    );
    let mut named = gateway_headers(Some("a"));
    named.append(
        "x-morphz-principal-name".to_string(),
        Some("  Ada  ".to_string()),
    );
    let found = request_principal(&state, &named, None).ok().unwrap();
    assert_eq!(found.display_name.as_deref(), Some("Ada"));
}

#[test]
fn operators_may_look_through_the_eyes_of_another_but_act_as_themselves() {
    let state = gateway();
    let operator = headers(&[("authorization", "Bearer dashboard-secret")]);
    let seen = request_read_principal(&state, &operator, None, Some("site-user-1"))
        .ok()
        .unwrap();
    assert_eq!(seen.principal_id, "site-user-1");
    assert_eq!(seen.provider_id, "operator-directory");
    assert_eq!(seen.assurance, "operator-read");
    let acts = request_principal(&state, &operator, Some("site-user-1")).ok().unwrap();
    assert_eq!(acts.principal_id, "principal-web-test");
    let caller = gateway_headers(Some("site-user-2"));
    assert!(request_read_principal(&state, &caller, None, Some("site-user-1")).is_err());
    assert_eq!(
        request_read_principal(&state, &operator, None, Some(""))
            .err()
            .unwrap()
            .message
            .text(),
        "principal_id length must be 1..=512 bytes"
    );
}

#[test]
fn sockets_see_what_their_caller_may_see() {
    let local = local();
    let none = HeaderMap::new();
    assert!(matches!(
        plan_subscription(&local, &none, None, None, None),
        Ok(SocketScope::Everything)
    ));
    assert!(matches!(
        plan_subscription(&local, &none, None, None, Some("s".to_string())),
        Ok(SocketScope::Session(id)) if id == "s"
    ));
    let gateway = gateway();
    assert_eq!(
        plan_subscription(&gateway, &none, None, None, None).err().unwrap().status,
        401
    );
    let caller = gateway_headers(Some("site-user-1"));
    let refusal = plan_subscription(&gateway, &caller, None, None, None).err().unwrap();
    assert_eq!(refusal.status, 400);
    assert_eq!(
        refusal.message.text(),
        "a non-Operator WebSocket subscription must specify session_id"
    );
    match plan_subscription(&gateway, &caller, None, None, Some("s".to_string())) {
        Ok(SocketScope::SessionOf { principal, session_id }) => {
            assert_eq!(principal.principal_id, "site-user-1");
            assert_eq!(session_id, "s");
        }
        _ => panic!("the subscription must be confirmed for the principal"),
    }
    assert_eq!(
        plan_subscription(&gateway, &gateway_headers(None), None, None, Some("s".to_string()))
            .err()
            .unwrap()
            .status,
        401
    );
}

#[test]
fn routes_ask_for_their_credentials() {
    let gateway = gateway();
    let none = HeaderMap::new();
    let caller = gateway_headers(Some("site-user-1"));
    let operator = headers(&[("authorization", "Bearer dashboard-secret")]);
    let overview = Endpoint::Context(ContextRoute::ContextOverview);
    assert!(matches!(
        admission(overview, &gateway, &operator, None, None),
        Ok(Admission::Admitted)
    ));
    assert_eq!(
        admission(overview, &gateway, &caller, None, None).err().unwrap().status,
        401
    );
    let pair = Endpoint::Edge(EdgeRoute::PairNode);
    assert!(matches!(
        admission(pair, &gateway, &none, None, None),
        Ok(Admission::Admitted)
    ));
    let listing = Endpoint::Session(SessionRoute::GetSession);
    match admission(listing, &gateway, &operator, None, Some("site-user-2")) {
        Ok(Admission::Principal(principal)) => assert_eq!(principal.assurance, "operator-read"),
        _ => panic!("an operator reads in the name of a principal"),
    }
    let sending = Endpoint::Session(SessionRoute::SendMessage);
    match admission(sending, &gateway, &caller, None, None) {
        Ok(Admission::Principal(principal)) => assert_eq!(principal.principal_id, "site-user-1"),
        _ => panic!("a caller acts as the asserted principal"),
    }
    match admission(sending, &gateway, &operator, None, Some("site-user-2")) {
        Ok(Admission::Principal(principal)) => {
            assert_eq!(principal.principal_id, "principal-web-test")
        }
        _ => panic!("an operator sends as the owner"),
    }
    let all = Endpoint::Session(SessionRoute::ListSessions);
    assert!(matches!(
        admission(all, &gateway, &operator, None, None),
        Ok(Admission::Admitted)
    ));
    assert!(matches!(
        admission(all, &gateway, &caller, None, None),
        Ok(Admission::Principal(_))
    ));
}

#[test]
fn devices_show_their_tokens() {
    let state = gateway();
    let beat = Endpoint::Edge(EdgeRoute::HeartbeatNode);
    let device = headers(&[("authorization", "Bearer  device-1 ")]);
    match admission(beat, &state, &device, None, None) {
        Ok(Admission::Device { device_token }) => assert_eq!(device_token, "device-1"),
        _ => panic!("a device is admitted by its token"),
    }
    let refusal = admission(beat, &state, &HeaderMap::new(), None, None).err().unwrap();
    assert_eq!(refusal.status, 401);
    assert_eq!(
        refusal.message.text(),
        "Edge Node requires Authorization: Bearer <device-token>"
    );
    let download = Endpoint::Edge(EdgeRoute::DownloadArtifact);
    assert_eq!(
        admission(download, &state, &device, None, None)
            .err()
            .unwrap()
            .message
            .text(),
        "Edge Artifact channel requires x-morphz-claim-token"
    );
    let channel = headers(&[
        ("authorization", "Bearer device-1"),
        ("x-morphz-claim-token", "claim-1"),
    ]);
    match admission(download, &state, &channel, None, None) {
        Ok(Admission::Channel { device_token, claim_token }) => {
            assert_eq!(device_token, "device-1");
            assert_eq!(claim_token, "claim-1");
        }
        _ => panic!("an artifact channel is admitted by both tokens"),
    }
}

#[test]
fn the_dashboard_credential_asserts_nobody_wherever_it_stands() {
    let state = gateway();
    let named = headers(&[("x-morphz-principal", "site-user-1")]);
    let acts = |route: SessionRoute, token: &str, principal: Option<&str>| {
        match admission(Endpoint::Session(route), &state, &named, Some(token), principal) {
            Ok(Admission::Principal(found)) => found.principal_id,
            _ => panic!("the caller is let in as somebody"),
        }
    };
    let operator = "dashboard-secret";
    assert_eq!(acts(SessionRoute::SendMessage, operator, None), "principal-web-test");
    assert_eq!(
        acts(SessionRoute::SendMessage, operator, Some("site-user-1")),
        "principal-web-test"
    );
    assert_eq!(acts(SessionRoute::GetSession, operator, None), "principal-web-test");
    assert_eq!(
        acts(SessionRoute::GetSession, operator, Some("site-user-2")),
        "site-user-2"
    );
    assert_eq!(acts(SessionRoute::SendMessage, "gateway-secret", None), "site-user-1");

    let nameless = HeaderMap::new();
    let send = Endpoint::Session(SessionRoute::SendMessage);
    assert!(matches!(
        admission(send, &state, &nameless, Some(operator), None),
        Ok(Admission::Principal(found)) if found.principal_id == "principal-web-test"
    ));
    assert!(matches!(
        admission(send, &state, &nameless, Some("gateway-secret"), None),
        Err(reply) if reply.status == 401
    ));
    for endpoint in endpoints() {
        let policy = endpoint.policy();
        if policy.method != Method::Get {
            match admission(endpoint, &state, &named, Some(operator), Some("site-user-1")) {
                Ok(Admission::Principal(found)) => {
                    assert_eq!(found.principal_id, "principal-web-test")
                }
                Ok(_) => {}
                Err(reply) => assert!(policy.access == Access::Device || policy.access == Access::Channel, "{}", reply.status),
            }
        }
    }
    let written = acting_principal(&state, &named, Some(operator)).ok().unwrap();
    assert_eq!(written.principal_id, "principal-web-test");
    let written = acting_principal(&state, &named, Some("gateway-secret")).ok().unwrap();
    assert_eq!(written.principal_id, "site-user-1");
    let caller = request_caller(&state, &named, Some(operator), Some("site-user-1")).ok().unwrap();
    assert_eq!(caller.principal_id, "principal-web-test");
    assert!(acting_principal(&state, &nameless, Some("gateway-secret")).is_err());
}

#[test]
fn the_route_table_is_complete_and_consistent() {
    let all = endpoints();
    assert_eq!(all.len(), 152);
    for (position, endpoint) in all.iter().enumerate() {
        let policy = endpoint.policy();
        for other in &all[position + 1..] {
            let other = other.policy();
            assert!(policy.method != other.method || policy.path != other.path);
        }
        if policy.identity == Identity::Reader {
            assert_eq!(policy.method, Method::Get);
        }
        if policy.access == Access::Open {
            assert_eq!(policy.identity, Identity::Unresolved);
        }
    }
    let lease = Endpoint::Target(TargetRoute::RevokeLease).policy();
    assert_eq!(lease.path, "/api/capability-leases/:lease_id");
    assert_eq!(lease.method, Method::Delete);
    assert_eq!(lease.failure, FailureRule::Sdk);
}

#[test]
fn answers_follow_the_route() {
    let done = |endpoint: Endpoint| answer(endpoint, CallOutcome::Done(Json::Bool(true))).ok().unwrap();
    let transfer = done(Endpoint::Job(JobRoute::SubmitTransfer));
    assert_eq!(transfer.status, 202);
    assert!(matches!(transfer.body, Body::Value(Json::Bool(true))));
    let targets = done(Endpoint::Target(TargetRoute::ListTargets));
    assert!(matches!(targets.body, Body::Named { name: "targets", .. }));
    let cancelled = done(Endpoint::Session(SessionRoute::CancelStage));
    assert_eq!(cancelled.status, 204);
    assert!(matches!(cancelled.body, Body::Empty));

    let refused = |endpoint: Endpoint| {
        answer(
            endpoint,
            CallOutcome::Refused(SdkError {
                code: SdkErrorCode::NotFound,
                message: Message::Fixed("gone"),
            }),
        )
        .err()
        .unwrap()
    };
    assert_eq!(refused(Endpoint::Target(TargetRoute::InspectTarget)).status, 404);
    let failed = |endpoint: Endpoint| {
        answer(endpoint, CallOutcome::Failed("broken".to_string())).err().unwrap()
    };
    let discover = failed(Endpoint::Provider(ProviderRoute::DiscoverModels));
    assert_eq!(discover.status, 400);
    assert_eq!(discover.message.text(), "broken");
    assert_eq!(failed(Endpoint::Provider(ProviderRoute::ControlAccount)).status, 409);
    let agents = failed(Endpoint::Runtime(RuntimeRoute::ListAgents));
    assert_eq!(agents.status, 500);
    assert_eq!(
        agents.message.text(),
        "The server could not complete the request"
    );
}

#[test]
fn servers_start_with_safe_credentials() {
    let identity = |mode: ServerIdentityMode| ServerIdentityConfig {
        mode,
        provider_id: "morphz-site".to_string(),
        service_token_env: " MORPHZ_API_TOKEN ".to_string(),
    };
    let local = identity(ServerIdentityMode::Default);
    assert!(service_token_variable(&local).is_none());
    let tokens = start_tokens(&local, Some("  "), None).ok().unwrap();
    assert!(tokens.dashboard.is_none());
    assert!(tokens.gateway.is_none());

    let gateway = identity(ServerIdentityMode::TrustedGateway);
    assert_eq!(service_token_variable(&gateway), Some("MORPHZ_API_TOKEN"));
    let tokens = start_tokens(&gateway, Some(" a "), Some(" b ")).ok().unwrap();
    assert_eq!(tokens.dashboard.as_deref(), Some("a"));
    assert_eq!(tokens.gateway.as_deref(), Some("b"));
    let fault = |identity: &ServerIdentityConfig, dashboard: Option<&str>, service: Option<&str>| {
        start_tokens(identity, dashboard, service).err().unwrap().text()
    };
    assert_eq!(
        fault(&gateway, None, None),
        "trusted-gateway mode requires environment variable MORPHZ_API_TOKEN"
    );
    assert_eq!(
        fault(&gateway, None, Some(" ")),
        "MORPHZ_API_TOKEN for trusted-gateway mode must not be empty"
    );
    assert!(fault(&gateway, Some("a"), Some("a")).starts_with("MORPHZ_DASHBOARD_TOKEN must differ"));
    let unnamed = ServerIdentityConfig {
        mode: ServerIdentityMode::TrustedGateway,
        provider_id: "  ".to_string(),
        service_token_env: "X".to_string(),
    };
    assert_eq!(
        fault(&unnamed, None, Some("a")),
        "server.identity.provider_id must not be empty"
    );
    let unset = ServerIdentityConfig {
        mode: ServerIdentityMode::TrustedGateway,
        provider_id: "p".to_string(),
        service_token_env: " ".to_string(),
    };
    assert_eq!(
        fault(&unset, None, Some("a")),
        "server.identity.service_token_env must not be empty"
    );
}

#[test]
fn exposed_servers_have_a_token() {
    let open = plan_listening(true, Some(" ".to_string()), None).ok().unwrap();
    assert!(open.auth_token.is_none());
    assert_eq!(open.origins, AllowedOrigins::Loopback);
    let refusal = plan_listening(false, None, Some("".to_string())).err().unwrap();
    assert_eq!(
        refusal.text(),
        "non-loopback listening requires a service access token to prevent unauthenticated exposure of Event streams and the memory graph"
    );
    let guarded = plan_listening(false, None, Some(" g ".to_string())).ok().unwrap();
    assert_eq!(guarded.gateway_token.as_deref(), Some(" g "));
    assert_eq!(guarded.origins, AllowedOrigins::Any);
    assert_eq!(allowed_methods(), vec!["GET", "POST", "PATCH", "PUT", "DELETE", "OPTIONS"]);
    assert!(allowed_headers().contains(&"x-morphz-claim-token"));
    assert_eq!(exposed_headers(), vec!["x-morphz-trace-id"]);
}

#[test]
fn servers_are_built_step_by_step() {
    let defaults = || ServerDefaults {
        agent_id: "agent-test".to_string(),
        context_id: "context-test".to_string(),
    };
    let server = Server::new(7u8, defaults());
    assert_eq!(server.broadcast_capacity, 1000);
    assert_eq!(server.identity.mode, ServerIdentityMode::Default);
    assert_eq!(server.identity.mode.name(), "default");
    assert_eq!(server.identity.provider_id, "morphz-site");
    assert_eq!(server.identity.service_token_env, "MORPHZ_API_TOKEN");
    let small = Server::new_with_capacity(7u8, defaults(), 0);
    assert_eq!(small.broadcast_capacity, 1);
    let wide = Server::new_with_capacity(7u8, defaults(), 5).with_identity(ServerIdentityConfig {
        mode: ServerIdentityMode::TrustedGateway,
        provider_id: "p".to_string(),
        service_token_env: "X".to_string(),
    });
    assert_eq!(wide.broadcast_capacity, 5);
    assert_eq!(wide.identity.mode.name(), "trusted-gateway");
    assert_eq!(wide.default_agent_id, "agent-test");
}

#[test]
fn the_status_names_both_contracts() {
    let head = status_head(&gateway().identity, "7".to_string());
    assert_eq!(head.api_contract_version, "1");
    assert_eq!(head.sdk_contract_version, "7");
    assert_eq!(head.identity_mode, "trusted-gateway");
    assert_eq!(head.identity_provider_id, "morphz-site");
}

#[test]
fn an_unreadable_catalog_shows_its_error() {
    let found = catalog_status(Ok((vec!["m".to_string()], Json::List(vec![]))));
    assert_eq!(found.models, vec!["m".to_string()]);
    assert!(found.model_catalog_error.is_none());
    let lost = catalog_status(Err("offline".to_string()));
    assert!(lost.models.is_empty());
    assert!(lost.model_options.is_none());
    assert_eq!(lost.model_catalog_error.as_deref(), Some("offline"));
}

#[test]
fn numbers_are_read_from_headers() {
    let map = headers(&[("x-morphz-upload-offset", "42")]);
    assert_eq!(
        required_u64_header(&map, "x-morphz-upload-offset").ok().unwrap(),
        42
    );
    let refusal = required_u64_header(&map, "x-other").err().unwrap();
    assert_eq!(refusal.status, 400);
    assert_eq!(
        refusal.message.text(),
        "missing or invalid Header: x-other"
    );
    let bad = headers(&[("n", "-1")]);
    assert!(required_u64_header(&bad, "n").is_err());
}

#[test]
fn limits_and_reasons_have_fallbacks() {
    assert_eq!(bounded_limit(None, 50, 1, 512), 50);
    assert_eq!(bounded_limit(Some(0), 50, 1, 512), 1);
    assert_eq!(bounded_limit(Some(9999), 50, 1, 512), 512);
    assert_eq!(reason_or(&None, "revoked").as_str(), "revoked");
    assert_eq!(reason_or(&Some("  ".to_string()), "revoked").as_str(), "revoked");
    assert_eq!(reason_or(&Some("why".to_string()), "revoked").as_str(), "why");
}

#[test]
fn routes_keep_what_is_asked_of_them_within_bounds() {
    let turns = Endpoint::Dashboard(DashboardRoute::RecentTurns);
    assert_eq!(turns.page_limit(None), Some(50));
    assert_eq!(turns.page_limit(Some(0)), Some(1));
    assert_eq!(turns.page_limit(Some(513)), Some(512));
    let history = Endpoint::Context(ContextRoute::EventHistory);
    assert_eq!(history.page_limit(None), Some(100));
    assert_eq!(history.page_limit(Some(0)), Some(0));
    assert_eq!(Endpoint::Session(SessionRoute::SearchPrincipals).page_limit(Some(900)), Some(100));
    assert_eq!(Endpoint::Job(JobRoute::ListJobs).page_limit(Some(7)), None);
}

#[test]
fn what_a_path_names_must_be_there() {
    assert!(require_found(Ok(true), "Context does not exist").is_ok());
    let missing = require_found(Ok(false), "Context does not exist").err().unwrap();
    assert_eq!(missing.status, 404);
    assert_eq!(missing.message.text(), "Context does not exist");
    let broken = require_found(Err("disk".to_string()), "Context does not exist").err().unwrap();
    assert_eq!(broken.status, 500);
    assert_eq!(broken.message.text(), "The server could not complete the request");
}
