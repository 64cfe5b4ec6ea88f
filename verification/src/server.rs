use crate::auth::{ServerIdentityConfig, ServerIdentityMode};
use crate::error::Message;
use crate::headers;
use crate::headers::trim_nonempty;
use crate::json::Json;
use crate::model::ServerDefaults;
use crate::text;
use crate::text::{ascii_lowercase, chars_of, same, trim};
use vstd::prelude::*;

verus! {

/// The version of the HTTP contract that the status answer names.
pub const API_CONTRACT_VERSION: &'static str = "1";

/// The dashboard server in front of a runtime.
pub struct Server<R> {
    pub runtime: R,
    /// How many events the broadcast to the dashboards holds.
    pub broadcast_capacity: usize,
    pub default_agent_id: String,
    pub default_context_id: String,
    pub identity: ServerIdentityConfig,
}

impl<R> Server<R> {
    /// A server in its default identity mode, with room for 1000 broadcast events.
    pub fn new(runtime: R, defaults: ServerDefaults) -> (r: Server<R>)
        ensures
            r.runtime == runtime,
            r.broadcast_capacity == 1000,
            r.default_agent_id == defaults.agent_id,
            r.default_context_id == defaults.context_id,
            is_default_identity(r.identity),
    {
        Server::new_with_capacity(runtime, defaults, 1000)
    }

    /// A broadcast holds at least one event.
    pub fn new_with_capacity(runtime: R, defaults: ServerDefaults, broadcast_capacity: usize) -> (r:
        Server<R>)
        ensures
            r.runtime == runtime,
            r.broadcast_capacity == if broadcast_capacity == 0 {
                1
            } else {
                broadcast_capacity
            },
            r.default_agent_id == defaults.agent_id,
            r.default_context_id == defaults.context_id,
            is_default_identity(r.identity),
    {
        Server {
            runtime,
            broadcast_capacity: if broadcast_capacity == 0 {
                1
            } else {
                broadcast_capacity
            },
            default_agent_id: defaults.agent_id,
            default_context_id: defaults.context_id,
            identity: ServerIdentityConfig::default(),
        }
    }

    pub fn with_identity(self, identity: ServerIdentityConfig) -> (r: Server<R>)
        ensures
            r == (Server { identity, ..self }),
    {
        Server {
            runtime: self.runtime,
            broadcast_capacity: self.broadcast_capacity,
            default_agent_id: self.default_agent_id,
            default_context_id: self.default_context_id,
            identity,
        }
    }
}

pub open spec fn is_default_identity(identity: ServerIdentityConfig) -> bool {
    &&& identity.mode == ServerIdentityMode::Default
    &&& identity.provider_id@ == "morphz-site"@
    &&& identity.service_token_env@ == "MORPHZ_API_TOKEN"@
}

impl Default for ServerIdentityConfig {
    fn default() -> (r: ServerIdentityConfig)
        ensures
            is_default_identity(r),
    {
        ServerIdentityConfig {
            mode: ServerIdentityMode::Default,
            provider_id: "morphz-site".to_owned(),
            service_token_env: "MORPHZ_API_TOKEN".to_owned(),
        }
    }
}

impl ServerIdentityMode {
    pub open spec fn spec_name(self) -> &'static str {
        match self {
            ServerIdentityMode::Default => "default",
            ServerIdentityMode::TrustedGateway => "trusted-gateway",
        }
    }

    /// The name of the mode in configuration and in the status answer.
    pub fn name(self) -> (r: &'static str)
        ensures
            r == self.spec_name(),
    {
        match self {
            ServerIdentityMode::Default => "default",
            ServerIdentityMode::TrustedGateway => "trusted-gateway",
        }
    }
}

/// The environment variable that holds the gateway's service token, in the mode that has one.
pub fn service_token_variable(identity: &ServerIdentityConfig) -> (r: Option<&str>)
    ensures
        headers::opt_view(r) == match identity.mode {
            ServerIdentityMode::Default => None,
            ServerIdentityMode::TrustedGateway => headers::nonempty_trimmed(
                Some(identity.service_token_env@),
            ),
        },
{
    match identity.mode {
        ServerIdentityMode::Default => None,
        ServerIdentityMode::TrustedGateway => trim_nonempty(
            Some(identity.service_token_env.as_str()),
        ),
    }
}

/// The two credentials of a server.
pub struct ServerTokens {
    pub dashboard: Option<String>,
    pub gateway: Option<String>,
}

/// The mathematical form of [`ServerTokens`].
#[verifier::ext_equal]
pub struct TokensView {
    pub dashboard: Option<Seq<char>>,
    pub gateway: Option<Seq<char>>,
}

impl ServerTokens {
    pub open spec fn view(&self) -> TokensView {
        TokensView {
            dashboard: headers::opt_string(self.dashboard),
            gateway: headers::opt_string(self.gateway),
        }
    }
}

/// The credentials that the environment gives a server, or why it cannot start.
pub open spec fn environment_tokens(
    identity: ServerIdentityConfig,
    dashboard: Option<Seq<char>>,
    service: Option<Seq<char>>,
) -> Result<TokensView, Seq<char>> {
    let dashboard_token = headers::nonempty_trimmed(dashboard);
    let variable = text::trimmed(identity.service_token_env@);
    if identity.mode == ServerIdentityMode::Default {
        Ok(TokensView { dashboard: dashboard_token, gateway: None })
    } else if text::trimmed(identity.provider_id@).len() == 0 {
        Err("server.identity.provider_id must not be empty"@)
    } else if variable.len() == 0 {
        Err("server.identity.service_token_env must not be empty"@)
    } else if service is None {
        Err("trusted-gateway mode requires environment variable "@ + variable + ""@)
    } else if headers::nonempty_trimmed(service) is None {
        Err(""@ + variable + " for trusted-gateway mode must not be empty"@)
    } else if dashboard_token == headers::nonempty_trimmed(service) {
        Err(
            "MORPHZ_DASHBOARD_TOKEN must differ from the trusted-gateway service token; the management plane and user identity gateway require separate credentials"@,
        )
    } else {
        Ok(TokensView { dashboard: dashboard_token, gateway: headers::nonempty_trimmed(service) })
    }
}

fn owned(value: Option<&str>) -> (r: Option<String>)
    ensures
        headers::opt_string(r) == headers::opt_view(value),
        r is Some == value is Some,
{
    match value {
        Some(text) => Some(text.to_owned()),
        None => None,
    }
}

/// Reads the credentials from the values of the two environment variables: that of the dashboard
/// token, and the one that [`service_token_variable`] names.
pub fn start_tokens(
    identity: &ServerIdentityConfig,
    dashboard: Option<&str>,
    service: Option<&str>,
) -> (r: Result<ServerTokens, Message>)
    ensures
        match environment_tokens(*identity, headers::opt_view(dashboard), headers::opt_view(service)) {
            Ok(tokens) => r matches Ok(found) && found@ == tokens,
            Err(message) => r matches Err(found) && found@ == message,
        },
{
    let dashboard_token: Option<&str> = trim_nonempty(dashboard);
    if identity.mode == ServerIdentityMode::Default {
        return Ok(ServerTokens { dashboard: owned(dashboard_token), gateway: None });
    }
    if trim(identity.provider_id.as_str()).is_empty() {
        return Err(Message::Fixed("server.identity.provider_id must not be empty"));
    }
    let variable = trim(identity.service_token_env.as_str());
    if variable.is_empty() {
        return Err(Message::Fixed("server.identity.service_token_env must not be empty"));
    }
    if service.is_none() {
        return Err(
            Message::Around {
                before: "trusted-gateway mode requires environment variable ",
                value: variable.to_owned(),
                after: "",
            },
        );
    }
    let service_token: &str = match trim_nonempty(service) {
        Some(token) => token,
        None => {
            return Err(
                Message::Around {
                    before: "",
                    value: variable.to_owned(),
                    after: " for trusted-gateway mode must not be empty",
                },
            );
        },
    };
    let shared: bool = match dashboard_token {
        Some(token) => same(token, service_token),
        None => false,
    };
    if shared {
        return Err(
            Message::Fixed(
                "MORPHZ_DASHBOARD_TOKEN must differ from the trusted-gateway service token; the management plane and user identity gateway require separate credentials",
            ),
        );
    }
    Ok(ServerTokens { dashboard: owned(dashboard_token), gateway: Some(service_token.to_owned()) })
}

/// Which web origins may call the server from a browser.
#[derive(PartialEq, Eq, Structural, Clone, Copy, Debug)]
pub enum AllowedOrigins {
    /// Pages of this machine only.
    Loopback,
    Any,
}

/// How a server listens.
pub struct Listening {
    pub auth_token: Option<String>,
    pub gateway_token: Option<String>,
    pub origins: AllowedOrigins,
}

/// The token, unless it is blank.
pub open spec fn unless_blank(token: Option<String>) -> Option<String> {
    match token {
        Some(value) if text::trimmed(value@).len() > 0 => token,
        _ => None,
    }
}

fn drop_blank(token: Option<String>) -> (r: Option<String>)
    ensures
        r == unless_blank(token),
{
    match token {
        Some(value) => {
            if trim(value.as_str()).is_empty() {
                None
            } else {
                Some(value)
            }
        },
        None => None,
    }
}

pub open spec fn exposure_message() -> Message {
    Message::Fixed(
        "non-loopback listening requires a service access token to prevent unauthenticated exposure of Event streams and the memory graph",
    )
}

/// How a server listens on an address with these tokens, or why it must not.
pub open spec fn listening_of(
    loopback: bool,
    auth_token: Option<String>,
    gateway_token: Option<String>,
) -> Result<Listening, Message> {
    let tokenless = unless_blank(auth_token) is None && unless_blank(gateway_token) is None;
    if !loopback && tokenless {
        Err(exposure_message())
    } else {
        Ok(
            Listening {
                auth_token: unless_blank(auth_token),
                gateway_token: unless_blank(gateway_token),
                origins: if tokenless {
                    AllowedOrigins::Loopback
                } else {
                    AllowedOrigins::Any
                },
            },
        )
    }
}

/// Without a token a server listens on this machine alone, and answers only its pages: a page from
/// elsewhere must not read the API through the browser.
pub fn plan_listening(
    loopback: bool,
    auth_token: Option<String>,
    gateway_token: Option<String>,
) -> (r: Result<Listening, Message>)
    ensures
        r == listening_of(loopback, auth_token, gateway_token),
{
    let auth_token: Option<String> = drop_blank(auth_token);
    let gateway_token: Option<String> = drop_blank(gateway_token);
    let tokenless: bool = auth_token.is_none() && gateway_token.is_none();
    if !loopback && tokenless {
        return Err(
            Message::Fixed(
                "non-loopback listening requires a service access token to prevent unauthenticated exposure of Event streams and the memory graph",
            ),
        );
    }
    let origins: AllowedOrigins = if tokenless {
        AllowedOrigins::Loopback
    } else {
        AllowedOrigins::Any
    };
    Ok(Listening { auth_token, gateway_token, origins })
}

/// The request headers that a page may send.
pub fn allowed_headers() -> (r: Vec<&'static str>)
    ensures
        r@ == seq![
            "content-type",
            "authorization",
            "x-morphz-principal",
            "x-morphz-principal-name",
            "x-morphz-claim-token",
            "x-morphz-trace-id",
        ],
{
    vec![
        "content-type",
        "authorization",
        "x-morphz-principal",
        "x-morphz-principal-name",
        "x-morphz-claim-token",
        "x-morphz-trace-id",
    ]
}

/// The answer headers that a page may read.
pub fn exposed_headers() -> (r: Vec<&'static str>)
    ensures
        r@ == seq!["x-morphz-trace-id"],
{
    vec!["x-morphz-trace-id"]
}

/// The methods that a page may use.
pub fn allowed_methods() -> (r: Vec<&'static str>)
    ensures
        r@ == seq!["GET", "POST", "PATCH", "PUT", "DELETE", "OPTIONS"],
{
    vec!["GET", "POST", "PATCH", "PUT", "DELETE", "OPTIONS"]
}

/// The host that `http::Uri` finds in a text, `None` where the text is no URI or has no host.
pub uninterp spec fn uri_host(uri: Seq<char>) -> Option<Seq<char>>;

/// `axum::http::Uri`: `parse`, then `host`. Which part of the text is the host is a function of the
/// text alone.
#[verifier::external_body]
fn parse_uri_host(uri: &str) -> (r: Option<String>)
    ensures
        headers::opt_string(r) == uri_host(uri@),
{
    match uri.parse::<axum::http::Uri>() {
        Ok(parsed) => parsed.host().map(|host: &str| host.to_string()),
        Err(_) => None,
    }
}

pub open spec fn is_bracket(c: char) -> bool {
    c == '[' || c == ']'
}

/// A text without the brackets at its start.
pub open spec fn without_leading_brackets(s: Seq<char>) -> Seq<char>
    decreases s.len(),
{
    if s.len() > 0 && is_bracket(s[0]) {
        without_leading_brackets(s.drop_first())
    } else {
        s
    }
}

/// A text without the brackets at its end.
pub open spec fn without_trailing_brackets(s: Seq<char>) -> Seq<char>
    decreases s.len(),
{
    if s.len() > 0 && is_bracket(s.last()) {
        without_trailing_brackets(s.drop_last())
    } else {
        s
    }
}

/// A host without the brackets around it.
pub open spec fn bare_host(host: Seq<char>) -> Seq<char> {
    without_trailing_brackets(without_leading_brackets(host))
}

/// Takes the brackets off an IPv6 literal.
pub fn strip_brackets(host: &str) -> (r: String)
    ensures
        r@ == bare_host(host@),
{
    let chars = chars_of(host);
    let mut start: usize = 0;
    proof {
        assert(chars@.subrange(0, chars@.len() as int) =~= chars@);
    }
    while start < chars.len() && (chars[start] == '[' || chars[start] == ']')
        invariant
            0 <= start <= chars.len(),
            chars@ == host@,
            without_leading_brackets(host@) == without_leading_brackets(
                chars@.subrange(start as int, chars@.len() as int),
            ),
        decreases chars.len() - start,
    {
        proof {
            assert(chars@.subrange(start as int, chars@.len() as int).drop_first()
                =~= chars@.subrange(start + 1, chars@.len() as int));
        }
        start = start + 1;
    }
    let ghost middle = chars@.subrange(start as int, chars@.len() as int);
    assert(without_leading_brackets(host@) == middle);
    let mut end: usize = chars.len();
    proof {
        assert(chars@.subrange(start as int, end as int) =~= middle);
    }
    while end > start && (chars[end - 1] == '[' || chars[end - 1] == ']')
        invariant
            start <= end <= chars.len(),
            chars@ == host@,
            without_trailing_brackets(middle) == without_trailing_brackets(
                chars@.subrange(start as int, end as int),
            ),
        decreases end - start,
    {
        proof {
            assert(chars@.subrange(start as int, end as int).drop_last() =~= chars@.subrange(
                start as int,
                end - 1,
            ));
        }
        end = end - 1;
    }
    assert(without_trailing_brackets(middle) == chars@.subrange(start as int, end as int));
    host.substring_char(start, end).to_owned()
}

/// The host of a web origin, bare.
pub fn origin_host(origin: Option<&str>) -> (r: Option<String>)
    ensures
        headers::opt_string(r) == match origin {
            Some(text) => match uri_host(text@) {
                Some(host) => Some(bare_host(host)),
                None => None,
            },
            None => None,
        },
{
    match origin {
        Some(text) => match parse_uri_host(text) {
            Some(host) => Some(strip_brackets(host.as_str())),
            None => None,
        },
        None => None,
    }
}

/// Whether an origin is a page of this machine: its host is `localhost`, in whatever case, or an
/// address that is a loopback one.
pub fn is_loopback_web_origin(host: Option<&str>, address_is_loopback: bool) -> (r: bool)
    ensures
        r == match host {
            Some(name) => text::lowercase(name@) == "localhost"@ || address_is_loopback,
            None => false,
        },
{
    match host {
        Some(name) => same(ascii_lowercase(name).as_str(), "localhost") || address_is_loopback,
        None => false,
    }
}

/// What the status answer says of the model catalog.
pub struct CatalogStatus {
    pub models: Vec<String>,
    /// The options in full, where they could be read.
    pub model_options: Option<Json>,
    pub model_catalog_error: Option<String>,
}

/// A catalog that cannot be read leaves no models, and its error is shown.
pub fn catalog_status(options: Result<(Vec<String>, Json), String>) -> (r: CatalogStatus)
    ensures
        match options {
            Ok((models, full)) => r == (CatalogStatus {
                models,
                model_options: Some(full),
                model_catalog_error: None,
            }),
            Err(error) => {
                &&& r.models@.len() == 0
                &&& r.model_options is None
                &&& r.model_catalog_error == Some(error)
            },
        },
{
    match options {
        Ok((models, full)) => CatalogStatus {
            models,
            model_options: Some(full),
            model_catalog_error: None,
        },
        Err(error) => CatalogStatus {
            models: Vec::new(),
            model_options: None,
            model_catalog_error: Some(error),
        },
    }
}

/// What the status answer tells of the server itself.
pub struct StatusHead {
    pub api_contract_version: &'static str,
    pub sdk_contract_version: String,
    pub identity_mode: &'static str,
    pub identity_provider_id: String,
}

pub fn status_head(identity: &ServerIdentityConfig, sdk_contract_version: String) -> (r: StatusHead)
    ensures
        r.api_contract_version == API_CONTRACT_VERSION,
        r.sdk_contract_version == sdk_contract_version,
        r.identity_mode == identity.mode.spec_name(),
        r.identity_provider_id == identity.provider_id,
{
    StatusHead {
        api_contract_version: API_CONTRACT_VERSION,
        sdk_contract_version,
        identity_mode: identity.mode.name(),
        identity_provider_id: identity.provider_id.clone(),
    }
}

/// The two credentials that the environment gives are never the same.
pub proof fn law_credentials_are_separate(
    identity: ServerIdentityConfig,
    dashboard: Option<Seq<char>>,
    service: Option<Seq<char>>,
)
    ensures
        environment_tokens(identity, dashboard, service) matches Ok(tokens)
            ==> tokens.dashboard is None || tokens.dashboard != tokens.gateway,
{
}

/// A server behind a gateway never starts without the gateway's credential.
pub proof fn law_gateway_mode_has_a_credential(
    identity: ServerIdentityConfig,
    dashboard: Option<Seq<char>>,
    service: Option<Seq<char>>,
)
    requires
        identity.mode == ServerIdentityMode::TrustedGateway,
    ensures
        environment_tokens(identity, dashboard, service) matches Ok(tokens) ==> tokens.gateway is Some,
{
}

/// A server that can be reached from elsewhere always has a token.
pub proof fn law_exposure_needs_a_token(
    auth_token: Option<String>,
    gateway_token: Option<String>,
)
    ensures
        listening_of(false, auth_token, gateway_token) matches Ok(listening)
            ==> listening.auth_token is Some || listening.gateway_token is Some,
{
}

/// A server without a token answers only pages of its own machine.
pub proof fn law_tokenless_server_is_local(
    loopback: bool,
    auth_token: Option<String>,
    gateway_token: Option<String>,
)
    ensures
        listening_of(loopback, auth_token, gateway_token) matches Ok(listening)
            ==> listening.auth_token is None && listening.gateway_token is None ==> loopback
            && listening.origins == AllowedOrigins::Loopback,
{
}

/// Which credentials a server starts with: a local one with the dashboard's, if it has one; one behind
/// a gateway only where the gateway has a name and a credential of its own, which is not the
/// dashboard's.
pub proof fn law_servers_start_with_their_credentials(
    identity: ServerIdentityConfig,
    dashboard: Option<Seq<char>>,
    service: Option<Seq<char>>,
)
    ensures
        ({
            let tokens = environment_tokens(identity, dashboard, service);
            let shown = match dashboard {
                Some(text) => text::trimmed(text),
                None => Seq::empty(),
            };
            let secret = match service {
                Some(text) => text::trimmed(text),
                None => Seq::empty(),
            };
            let named = text::trimmed(identity.provider_id@).len() > 0 && text::trimmed(
                identity.service_token_env@,
            ).len() > 0;
            &&& identity.mode == ServerIdentityMode::Default ==> (tokens matches Ok(found)
                && found.gateway is None)
            &&& identity.mode == ServerIdentityMode::TrustedGateway ==> (tokens is Ok <==> named
                && secret.len() > 0 && shown != secret)
            &&& tokens matches Ok(found) ==> {
                &&& found.dashboard == if shown.len() > 0 {
                    Some(shown)
                } else {
                    None
                }
                &&& identity.mode == ServerIdentityMode::TrustedGateway ==> found.gateway == Some(
                    secret,
                )
            }
        }),
{
}

/// A blank credential is none, and every other one is taken as it is.
pub proof fn law_blank_credentials_are_none(token: String)
    ensures
        text::trimmed(token@).len() == 0 ==> unless_blank(Some(token)) is None,
        text::trimmed(token@).len() > 0 ==> unless_blank(Some(token)) == Some(token),
        unless_blank(None) is None,
{
}

/// How a server listens: on the machine itself without a credential it takes requests of local pages
/// only; with one it takes them from anywhere; and beyond the machine it does not listen without one.
pub proof fn law_listening_depends_on_the_credential(
    loopback: bool,
    auth_token: Option<String>,
    gateway_token: Option<String>,
)
    ensures
        ({
            let listening = listening_of(loopback, auth_token, gateway_token);
            let secured = unless_blank(auth_token) is Some || unless_blank(gateway_token) is Some;
            &&& listening is Ok <==> loopback || secured
            &&& listening matches Ok(found) ==> {
                &&& found.auth_token == unless_blank(auth_token)
                &&& found.gateway_token == unless_blank(gateway_token)
                &&& found.origins == AllowedOrigins::Any <==> secured
            }
        }),
{
}

proof fn lemma_leading_brackets(s: Seq<char>) -> (k: int)
    ensures
        0 <= k <= s.len(),
        without_leading_brackets(s) == s.subrange(k, s.len() as int),
        forall|i: int| 0 <= i < k ==> #[trigger] s[i] == '[' || s[i] == ']',
        k < s.len() ==> s[k] != '[' && s[k] != ']',
    decreases s.len(),
{
    if s.len() > 0 && is_bracket(s[0]) {
        let rest = s.drop_first();
        let k = lemma_leading_brackets(rest);
        assert(rest.subrange(k, rest.len() as int) =~= s.subrange(k + 1, s.len() as int));
        assert forall|i: int| 0 <= i < k + 1 implies #[trigger] s[i] == '[' || s[i] == ']' by {
            if i > 0 {
                assert(rest[i - 1] == s[i]);
            }
        }
        if k < rest.len() {
            assert(rest[k] == s[k + 1]);
        }
        k + 1
    } else {
        assert(s.subrange(0, s.len() as int) =~= s);
        0
    }
}

proof fn lemma_trailing_brackets(s: Seq<char>) -> (k: int)
    ensures
        0 <= k <= s.len(),
        without_trailing_brackets(s) == s.subrange(0, k),
        forall|i: int| k <= i < s.len() ==> #[trigger] s[i] == '[' || s[i] == ']',
        k > 0 ==> s[k - 1] != '[' && s[k - 1] != ']',
    decreases s.len(),
{
    if s.len() > 0 && is_bracket(s.last()) {
        let rest = s.drop_last();
        let k = lemma_trailing_brackets(rest);
        assert(rest.subrange(0, k) =~= s.subrange(0, k));
        assert forall|i: int| k <= i < s.len() implies #[trigger] s[i] == '[' || s[i] == ']' by {
            if i < rest.len() {
                assert(rest[i] == s[i]);
            }
        }
        if k > 0 {
            assert(rest[k - 1] == s[k - 1]);
        }
        k
    } else {
        assert(s.subrange(0, s.len() as int) =~= s);
        s.len() as int
    }
}

/// A host is bared of the brackets at its ends, and of nothing else.
pub proof fn law_hosts_lose_their_brackets_only(host: Seq<char>) -> (range: (int, int))
    ensures
        0 <= range.0 <= range.1 <= host.len(),
        bare_host(host) == host.subrange(range.0, range.1),
        forall|i: int|
            0 <= i < range.0 || range.1 <= i < host.len() ==> #[trigger] host[i] == '[' || host[i]
                == ']',
        range.0 < range.1 ==> host[range.0] != '[' && host[range.0] != ']' && host[range.1 - 1]
            != '[' && host[range.1 - 1] != ']',
{
    let a = lemma_leading_brackets(host);
    let rest = host.subrange(a, host.len() as int);
    let k = lemma_trailing_brackets(rest);
    assert(rest.subrange(0, k) =~= host.subrange(a, a + k));
    assert forall|i: int| 0 <= i < a || a + k <= i < host.len() implies #[trigger] host[i] == '['
        || host[i] == ']' by {
        if i >= a {
            assert(rest[i - a] == host[i]);
        }
    }
    if k > 0 {
        assert(rest[k - 1] == host[a + k - 1]);
        if a < host.len() {
            assert(rest[0] == host[a]);
        }
    }
    (a, a + k)
}

/// A server that is told nothing else vouches for its owner itself, and the modes have these names.
pub proof fn law_identities_have_their_names(identity: ServerIdentityConfig)
    ensures
        is_default_identity(identity) ==> identity.mode == ServerIdentityMode::Default
            && identity.provider_id@ == "morphz-site"@ && identity.service_token_env@
            == "MORPHZ_API_TOKEN"@,
        ServerIdentityMode::Default.spec_name()@ == "default"@,
        ServerIdentityMode::TrustedGateway.spec_name()@ == "trusted-gateway"@,
{
}

/// A server that may not listen says why.
pub proof fn law_exposed_servers_are_told_why(auth_token: Option<String>, gateway_token: Option<String>)
    requires
        unless_blank(auth_token) is None,
        unless_blank(gateway_token) is None,
    ensures
        listening_of(false, auth_token, gateway_token) matches Err(message) && message@
            == "non-loopback listening requires a service access token to prevent unauthenticated exposure of Event streams and the memory graph"@,
{
}

/// A server behind a gateway that cannot start says what is missing, and which variable it looked in.
pub proof fn law_servers_that_cannot_start_say_why(
    identity: ServerIdentityConfig,
    dashboard: Option<Seq<char>>,
    service: Option<Seq<char>>,
)
    requires
        identity.mode == ServerIdentityMode::TrustedGateway,
    ensures
        ({
            let r = environment_tokens(identity, dashboard, service);
            let variable = text::trimmed(identity.service_token_env@);
            let provided = text::trimmed(identity.provider_id@).len() > 0;
            &&& !provided ==> r == Err::<TokensView, Seq<char>>(
                "server.identity.provider_id must not be empty"@,
            )
            &&& provided && variable.len() == 0 ==> r == Err::<TokensView, Seq<char>>(
                "server.identity.service_token_env must not be empty"@,
            )
            &&& provided && variable.len() > 0 && service is None ==> r == Err::<
                TokensView,
                Seq<char>,
            >("trusted-gateway mode requires environment variable "@ + variable + ""@)
            &&& provided && variable.len() > 0 ==> (service matches Some(value) ==> (text::trimmed(
                value,
            ).len() == 0 ==> r == Err::<TokensView, Seq<char>>(
                ""@ + variable + " for trusted-gateway mode must not be empty"@,
            )))
            &&& provided && variable.len() > 0 ==> (service matches Some(value) ==> (
            dashboard matches Some(shown) ==> (text::trimmed(value).len() > 0 && text::trimmed(
                value,
            ) == text::trimmed(shown) ==> r == Err::<TokensView, Seq<char>>(
                "MORPHZ_DASHBOARD_TOKEN must differ from the trusted-gateway service token; the management plane and user identity gateway require separate credentials"@,
            ))))
        }),
{
}

} // verus!
