use crate::error;
use crate::error::{sdk_error_response, ErrorReply, Message, SdkError, SdkErrorCode};
use crate::headers;
use crate::headers::{bearer, trim_nonempty, HeaderMap, HeaderText, HeaderView};
use crate::ident;
use crate::ident::check_principal_id;
use crate::text;
use crate::text::{same, take_chars};
use vstd::prelude::*;

verus! {

/// Who vouches for the caller of a request.
#[derive(PartialEq, Eq, Structural, Clone, Copy, Debug)]
pub enum ServerIdentityMode {
    /// One local owner: every admitted request acts as the default principal.
    Default,
    /// A gateway that authenticates end users and asserts who is calling.
    TrustedGateway,
}

pub struct ServerIdentityConfig {
    pub mode: ServerIdentityMode,
    pub provider_id: String,
    pub service_token_env: String,
}

/// Who a request acts as, and on whose word.
pub struct PrincipalAssertion {
    pub principal_id: String,
    pub provider_id: String,
    pub assurance: String,
    pub display_name: Option<String>,
}

/// The mathematical form of [`PrincipalAssertion`].
#[verifier::ext_equal]
pub struct PrincipalView {
    pub principal_id: Seq<char>,
    pub provider_id: Seq<char>,
    pub assurance: Seq<char>,
    pub display_name: Option<Seq<char>>,
}

impl PrincipalAssertion {
    pub open spec fn view(&self) -> PrincipalView {
        PrincipalView {
            principal_id: self.principal_id@,
            provider_id: self.provider_id@,
            assurance: self.assurance@,
            display_name: headers::opt_string(self.display_name),
        }
    }

    pub fn duplicate(&self) -> (r: PrincipalAssertion)
        ensures
            r == *self,
    {
        PrincipalAssertion {
            principal_id: self.principal_id.clone(),
            provider_id: self.provider_id.clone(),
            assurance: self.assurance.clone(),
            display_name: match &self.display_name {
                Some(name) => Some(name.clone()),
                None => None,
            },
        }
    }
}

/// What the request handlers know of the server.
pub struct AppState {
    /// Credential of the dashboard and operator surface. It never lets a gateway assert an end
    /// user, and the gateway credential never opens the operator surface.
    pub auth_token: Option<String>,
    /// Service credential of a trusted identity gateway.
    pub gateway_token: Option<String>,
    pub default_agent_id: String,
    pub default_context_id: String,
    pub identity: ServerIdentityConfig,
    /// The administrative identity of the local owner.
    pub default_principal: PrincipalAssertion,
}

/// Whether a request presents the expected token, as a bearer token or as a query parameter.
pub open spec fn presents_token(
    expected: Seq<char>,
    headers: &HeaderMap,
    query_token: Option<&str>,
) -> bool {
    headers::bearer_token(headers) == Some(expected) || headers::opt_view(query_token) == Some(
        expected,
    )
}

/// Whether a request may use the operator surface.
pub open spec fn is_operator(
    state: &AppState,
    headers: &HeaderMap,
    query_token: Option<&str>,
) -> bool {
    match state.auth_token {
        Some(expected) => presents_token(expected@, headers, query_token),
        None => state.identity.mode == ServerIdentityMode::Default && state.gateway_token is None,
    }
}

/// Whether a request is admitted at all.
pub open spec fn is_admitted(
    state: &AppState,
    headers: &HeaderMap,
    query_token: Option<&str>,
) -> bool {
    is_operator(state, headers, query_token) || (state.gateway_token matches Some(expected)
        && presents_token(expected@, headers, query_token))
}

fn same_opt(a: Option<&str>, b: &str) -> (r: bool)
    ensures
        r == (headers::opt_view(a) == Some(b@)),
{
    match a {
        Some(text) => same(text, b),
        None => false,
    }
}

pub fn token_is_authorized(
    expected: Option<&str>,
    headers: &HeaderMap,
    query_token: Option<&str>,
) -> (r: bool)
    ensures
        r == match expected {
            None => true,
            Some(token) => presents_token(token@, headers, query_token),
        },
{
    match expected {
        None => true,
        Some(token) => same_opt(bearer(headers), token) || same_opt(query_token, token),
    }
}

pub fn is_operator_authorized(
    state: &AppState,
    headers: &HeaderMap,
    query_token: Option<&str>,
) -> (r: bool)
    ensures
        r == is_operator(state, headers, query_token),
{
    match &state.auth_token {
        Some(expected) => token_is_authorized(Some(expected.as_str()), headers, query_token),
        None => state.identity.mode == ServerIdentityMode::Default && state.gateway_token.is_none()
            && token_is_authorized(None, headers, query_token),
    }
}

pub fn is_authorized(state: &AppState, headers: &HeaderMap, query_token: Option<&str>) -> (r: bool)
    ensures
        r == is_admitted(state, headers, query_token),
{
    if is_operator_authorized(state, headers, query_token) {
        return true;
    }
    match &state.gateway_token {
        Some(expected) => token_is_authorized(Some(expected.as_str()), headers, query_token),
        None => false,
    }
}

/// A subscription to every session's events is for operators only.
pub fn websocket_may_subscribe_globally(
    state: &AppState,
    headers: &HeaderMap,
    query_token: Option<&str>,
) -> (r: bool)
    ensures
        r == is_operator(state, headers, query_token),
{
    is_operator_authorized(state, headers, query_token)
}

pub open spec fn invalid(message: Message) -> SdkError {
    SdkError { code: SdkErrorCode::InvalidArgument, message }
}

fn invalid_argument(message: Message) -> (r: SdkError)
    ensures
        r == invalid(message),
{
    SdkError { code: SdkErrorCode::InvalidArgument, message }
}

pub open spec fn display_name_of(name: Option<Seq<char>>) -> Option<Seq<char>> {
    match headers::nonempty_trimmed(name) {
        Some(text) => Some(text::first_chars(text, 200)),
        None => None,
    }
}

/// Whom a trusted gateway asserts as the caller.
pub open spec fn asserted_principal(
    state: &AppState,
    headers: &HeaderMap,
    query_principal_id: Option<&str>,
) -> Result<PrincipalView, SdkError> {
    let header = headers.header("x-morphz-principal"@);
    let name = headers.header("x-morphz-principal-name"@);
    let query = headers::opt_view(query_principal_id);
    if header is Unreadable {
        Err(invalid(Message::Fixed("Principal Header is not valid UTF-8")))
    } else if header is Text && query is Some && query != header.readable() {
        Err(invalid(Message::Fixed("Principal in Header and Query does not match")))
    } else if header is Absent && query is None {
        Err(
            SdkError {
                code: SdkErrorCode::Unauthorized,
                message: Message::Fixed("trusted-gateway request is missing the current Principal"),
            },
        )
    } else {
        let principal_id = match header.readable() {
            Some(text) => text,
            None => query->0,
        };
        match ident::principal_fault(principal_id) {
            Some(fault) => Err(invalid(Message::Principal(fault))),
            None => if name is Unreadable {
                Err(invalid(Message::Fixed("Principal Name Header is not valid UTF-8")))
            } else {
                Ok(
                    PrincipalView {
                        principal_id,
                        provider_id: state.identity.provider_id@,
                        assurance: "trusted-gateway"@,
                        display_name: display_name_of(name.readable()),
                    },
                )
            },
        }
    }
}

/// Whom a request acts as by its headers alone.
pub open spec fn principal_of(
    state: &AppState,
    headers: &HeaderMap,
    query_principal_id: Option<&str>,
) -> Result<PrincipalView, SdkError> {
    if is_operator(state, headers, None) || state.identity.mode == ServerIdentityMode::Default {
        Ok(state.default_principal@)
    } else {
        asserted_principal(state, headers, query_principal_id)
    }
}

/// Whom a request acts as, whichever way it presents its credential: an operator is never
/// anybody else than the local owner.
pub open spec fn caller_of(
    state: &AppState,
    headers: &HeaderMap,
    token: Option<&str>,
    query_principal_id: Option<&str>,
) -> Result<PrincipalView, SdkError> {
    if is_operator(state, headers, token) {
        Ok(state.default_principal@)
    } else {
        principal_of(state, headers, query_principal_id)
    }
}

/// Whose data a read-only request sees: an operator may name another principal as the scope of
/// observation.
pub open spec fn read_principal_of(
    state: &AppState,
    headers: &HeaderMap,
    operator_token: Option<&str>,
    query_principal_id: Option<&str>,
) -> Result<PrincipalView, SdkError> {
    match query_principal_id {
        Some(principal_id) if is_operator(state, headers, operator_token) =>
            match ident::principal_fault(principal_id@) {
                Some(fault) => Err(invalid(Message::Principal(fault))),
                None => Ok(
                    PrincipalView {
                        principal_id: principal_id@,
                        provider_id: "operator-directory"@,
                        assurance: "operator-read"@,
                        display_name: None,
                    },
                ),
            },
        _ => caller_of(state, headers, operator_token, query_principal_id),
    }
}

/// Whether an executed resolution gave what the specification says.
pub open spec fn resolves(
    r: Result<PrincipalAssertion, SdkError>,
    expected: Result<PrincipalView, SdkError>,
) -> bool {
    match expected {
        Ok(view) => r matches Ok(principal) && principal@ == view,
        Err(error) => r == Err::<PrincipalAssertion, SdkError>(error),
    }
}

/// Whom a request acts as when its URL carries no credential.
pub fn request_principal(
    state: &AppState,
    headers: &HeaderMap,
    query_principal_id: Option<&str>,
) -> (r: Result<PrincipalAssertion, SdkError>)
    ensures
        resolves(r, principal_of(state, headers, query_principal_id)),
{
    if is_operator_authorized(state, headers, None) {
        return Ok(state.default_principal.duplicate());
    }
    if state.identity.mode == ServerIdentityMode::Default {
        return Ok(state.default_principal.duplicate());
    }
    let header_principal_id: Option<&str> = match headers.get("x-morphz-principal") {
        HeaderText::Absent => None,
        HeaderText::Unreadable => {
            return Err(invalid_argument(Message::Fixed("Principal Header is not valid UTF-8")));
        },
        HeaderText::Text(text) => Some(text),
    };
    let principal_id: &str = match (header_principal_id, query_principal_id) {
        (Some(header), Some(query)) => {
            if !same(header, query) {
                return Err(
                    invalid_argument(
                        Message::Fixed("Principal in Header and Query does not match"),
                    ),
                );
            }
            header
        },
        (Some(header), None) => header,
        (None, Some(query)) => query,
        (None, None) => {
            return Err(
                SdkError {
                    code: SdkErrorCode::Unauthorized,
                    message: Message::Fixed(
                        "trusted-gateway request is missing the current Principal",
                    ),
                },
            );
        },
    };
    match check_principal_id(principal_id) {
        Some(fault) => {
            return Err(invalid_argument(Message::Principal(fault)));
        },
        None => {},
    }
    let name: Option<&str> = match headers.get("x-morphz-principal-name") {
        HeaderText::Absent => None,
        HeaderText::Unreadable => {
            return Err(
                invalid_argument(Message::Fixed("Principal Name Header is not valid UTF-8")),
            );
        },
        HeaderText::Text(text) => Some(text),
    };
    let display_name: Option<String> = match trim_nonempty(name) {
        Some(text) => Some(take_chars(text, 200).to_owned()),
        None => None,
    };
    Ok(
        PrincipalAssertion {
            principal_id: principal_id.to_owned(),
            provider_id: state.identity.provider_id.clone(),
            assurance: "trusted-gateway".to_owned(),
            display_name,
        },
    )
}

/// Whom a request acts as whose credential may stand in its URL.
pub fn request_caller(
    state: &AppState,
    headers: &HeaderMap,
    token: Option<&str>,
    query_principal_id: Option<&str>,
) -> (r: Result<PrincipalAssertion, SdkError>)
    ensures
        resolves(r, caller_of(state, headers, token, query_principal_id)),
{
    if is_operator_authorized(state, headers, token) {
        Ok(state.default_principal.duplicate())
    } else {
        request_principal(state, headers, query_principal_id)
    }
}

/// Whom an admitted request writes as, or the answer that refuses it. The principal that an
/// operator observes plays no part in it.
pub fn acting_principal(state: &AppState, headers: &HeaderMap, token: Option<&str>) -> (r: Result<
    PrincipalAssertion,
    ErrorReply,
>)
    ensures
        match caller_of(state, headers, token, None) {
            Ok(view) => r matches Ok(principal) && principal@ == view,
            Err(refusal) => r == Err::<PrincipalAssertion, ErrorReply>(error::sdk_reply(refusal)),
        },
{
    match request_caller(state, headers, token, None) {
        Ok(principal) => Ok(principal),
        Err(refusal) => Err(sdk_error_response(refusal)),
    }
}

/// Whose data a read-only request sees.
pub fn request_read_principal(
    state: &AppState,
    headers: &HeaderMap,
    operator_token: Option<&str>,
    query_principal_id: Option<&str>,
) -> (r: Result<PrincipalAssertion, SdkError>)
    ensures
        resolves(r, read_principal_of(state, headers, operator_token, query_principal_id)),
{
    match query_principal_id {
        Some(principal_id) => {
            if is_operator_authorized(state, headers, operator_token) {
                return match check_principal_id(principal_id) {
                    Some(fault) => Err(invalid_argument(Message::Principal(fault))),
                    None => Ok(
                        PrincipalAssertion {
                            principal_id: principal_id.to_owned(),
                            provider_id: "operator-directory".to_owned(),
                            assurance: "operator-read".to_owned(),
                            display_name: None,
                        },
                    ),
                };
            }
        },
        None => {},
    }
    request_caller(state, headers, operator_token, query_principal_id)
}

/// The gateway's service credential alone never opens the operator surface.
pub proof fn law_gateway_credential_is_not_operator(
    state: &AppState,
    headers: &HeaderMap,
    query_token: Option<&str>,
)
    requires
        state.gateway_token is Some,
        state.auth_token matches Some(token) ==> !presents_token(token@, headers, query_token),
    ensures
        !is_operator(state, headers, query_token),
{
}

/// In trusted-gateway mode nobody is an operator without the dashboard credential.
pub proof fn law_gateway_mode_has_no_tokenless_operator(
    state: &AppState,
    headers: &HeaderMap,
    query_token: Option<&str>,
)
    requires
        state.identity.mode == ServerIdentityMode::TrustedGateway,
        is_operator(state, headers, query_token),
    ensures
        state.auth_token matches Some(token) && presents_token(token@, headers, query_token),
{
}

/// Without any configured credential, default mode admits every request as operator.
pub proof fn law_local_mode_is_open(
    state: &AppState,
    headers: &HeaderMap,
    query_token: Option<&str>,
)
    requires
        state.identity.mode == ServerIdentityMode::Default,
        state.auth_token is None,
        state.gateway_token is None,
    ensures
        is_operator(state, headers, query_token),
        is_admitted(state, headers, query_token),
{
}

/// The dashboard credential never asserts an end user: wherever an operator presents it, and
/// whomever the request names, an operator acts as the local owner.
pub proof fn law_operators_act_as_the_local_owner(
    state: &AppState,
    headers: &HeaderMap,
    token: Option<&str>,
    query_principal_id: Option<&str>,
)
    requires
        is_operator(state, headers, token),
    ensures
        caller_of(state, headers, token, query_principal_id) == Ok::<PrincipalView, SdkError>(
            state.default_principal@,
        ),
{
}

/// The principal that an operator names for observation is the one whose data a read shows, and
/// never the one that the operator acts as; naming nobody, an operator reads as the local owner.
pub proof fn law_observation_scope_is_read_only(
    state: &AppState,
    headers: &HeaderMap,
    token: Option<&str>,
    query_principal_id: Option<&str>,
)
    requires
        is_operator(state, headers, token),
    ensures
        caller_of(state, headers, token, query_principal_id) == Ok::<PrincipalView, SdkError>(
            state.default_principal@,
        ),
        match query_principal_id {
            Some(id) => read_principal_of(state, headers, token, query_principal_id) matches Ok(
                scope,
            ) ==> scope.principal_id == id@ && scope.assurance == "operator-read"@,
            None => read_principal_of(state, headers, token, query_principal_id) == Ok::<
                PrincipalView,
                SdkError,
            >(state.default_principal@),
        },
{
}

/// A gateway caller reads as the principal that it acts as, which the gateway asserted.
pub proof fn law_gateway_caller_is_bound_to_asserted_principal(
    state: &AppState,
    headers: &HeaderMap,
    token: Option<&str>,
    query_principal_id: Option<&str>,
)
    requires
        state.identity.mode == ServerIdentityMode::TrustedGateway,
        !is_operator(state, headers, token),
    ensures
        read_principal_of(state, headers, token, query_principal_id) == caller_of(
            state,
            headers,
            token,
            query_principal_id,
        ),
        caller_of(state, headers, token, query_principal_id) matches Ok(principal) ==> {
            &&& ident::principal_fault(principal.principal_id) is None
            &&& principal.assurance == "trusted-gateway"@
            &&& headers.header("x-morphz-principal"@) matches HeaderView::Text(text)
                ==> principal.principal_id == text
            &&& query_principal_id matches Some(id) ==> principal.principal_id == id@
        },
{
}

/// Who is an operator: with a dashboard credential, exactly the requests that present it as their
/// bearer token or in their URL; without one, every request of a local server that no gateway fronts,
/// and none otherwise.
pub proof fn law_operators_present_the_dashboard_credential(
    state: &AppState,
    headers: &HeaderMap,
    query_token: Option<&str>,
)
    ensures
        state.auth_token matches Some(secret) ==> (is_operator(state, headers, query_token) <==> (
        headers::bearer_token(headers) == Some(secret@) || (query_token matches Some(shown)
            && shown@ == secret@))),
        state.auth_token is None ==> (is_operator(state, headers, query_token) <==> state.identity.mode
            == ServerIdentityMode::Default && state.gateway_token is None),
{
}

/// Who is admitted: operators, and the requests that present the gateway's credential; nobody else.
pub proof fn law_callers_present_a_credential(
    state: &AppState,
    headers: &HeaderMap,
    query_token: Option<&str>,
)
    ensures
        is_operator(state, headers, query_token) ==> is_admitted(state, headers, query_token),
        !is_operator(state, headers, query_token) ==> (is_admitted(state, headers, query_token)
            <==> (state.gateway_token matches Some(secret) && (headers::bearer_token(headers)
            == Some(secret@) || (query_token matches Some(shown) && shown@ == secret@)))),
{
}

/// Whom a gateway speaks for is read from the request: from the header or the URL, which must not
/// name different principals. Nobody named is unauthorized; a name that cannot be read or that is no
/// principal is a bad argument; and everything else is taken on the gateway's word.
pub proof fn law_gateways_name_the_principal(
    state: &AppState,
    headers: &HeaderMap,
    query_principal_id: Option<&str>,
)
    requires
        state.identity.mode == ServerIdentityMode::TrustedGateway,
        !is_operator(state, headers, None),
    ensures
        ({
            let r = principal_of(state, headers, query_principal_id);
            let header = headers.header("x-morphz-principal"@);
            let name = headers.header("x-morphz-principal-name"@);
            let told: Option<Seq<char>> = match header {
                HeaderView::Text(text) => Some(text),
                _ => match query_principal_id {
                    Some(id) => Some(id@),
                    None => None,
                },
            };
            let torn = header matches HeaderView::Text(text) && (query_principal_id matches Some(id)
                && id@ != text);
            let good = !(header is Unreadable) && !torn && told is Some && ident::principal_fault(
                told->0,
            ) is None && !(name is Unreadable);
            &&& good <==> r is Ok
            &&& r matches Ok(principal) ==> principal.principal_id == told->0
                && principal.provider_id == state.identity.provider_id@ && principal.assurance
                == "trusted-gateway"@
            &&& header is Absent && query_principal_id is None <==> (r matches Err(e) && e.code
                == SdkErrorCode::Unauthorized)
            &&& r matches Err(e) ==> e.code == SdkErrorCode::Unauthorized || e.code
                == SdkErrorCode::InvalidArgument
            &&& header is Absent && name is Absent ==> (r matches Ok(principal)
                ==> principal.display_name is None)
        }),
{
}

/// A display name is what the gateway wrote, without the spaces round it and cut to two hundred
/// characters; a blank one is none.
pub proof fn law_display_names_are_short(name: Seq<char>)
    ensures
        display_name_of(None) is None,
        display_name_of(Some(name)) is None <==> text::trimmed(name).len() == 0,
        display_name_of(Some(name)) matches Some(shown) ==> {
            &&& 0 < shown.len() <= 200
            &&& shown.len() <= text::trimmed(name).len()
            &&& shown == text::trimmed(name).subrange(0, shown.len() as int)
            &&& text::trimmed(name).len() <= 200 ==> shown == text::trimmed(name)
            &&& text::trimmed(name).len() > 200 ==> shown.len() == 200
        },
{
    if text::trimmed(name).len() > 0 {
        text::law_cutting_keeps_the_front(text::trimmed(name), 200);
    }
}

/// What an operator reads: the data of the principal whom the request names, unless that is no
/// principal at all.
pub proof fn law_operators_observe_whom_they_name(
    state: &AppState,
    headers: &HeaderMap,
    token: Option<&str>,
    id: &str,
)
    requires
        is_operator(state, headers, token),
    ensures
        ident::principal_fault(id@) is None ==> (read_principal_of(
            state,
            headers,
            token,
            Some(id),
        ) matches Ok(scope) && scope.principal_id == id@ && scope.provider_id
            == "operator-directory"@ && scope.assurance == "operator-read"@
            && scope.display_name is None),
        ident::principal_fault(id@) is Some ==> (read_principal_of(
            state,
            headers,
            token,
            Some(id),
        ) matches Err(e) && e.code == SdkErrorCode::InvalidArgument),
{
}

/// On a local server everybody who is admitted acts as the owner.
pub proof fn law_local_callers_are_the_owner(
    state: &AppState,
    headers: &HeaderMap,
    token: Option<&str>,
    query_principal_id: Option<&str>,
)
    requires
        state.identity.mode == ServerIdentityMode::Default,
    ensures
        caller_of(state, headers, token, query_principal_id) == Ok::<PrincipalView, SdkError>(
            state.default_principal@,
        ),
        principal_of(state, headers, query_principal_id) == Ok::<PrincipalView, SdkError>(
            state.default_principal@,
        ),
{
}

/// A gateway whose caller cannot be told is told why.
pub proof fn law_unknown_callers_are_told_why(
    state: &AppState,
    headers: &HeaderMap,
    query_principal_id: Option<&str>,
)
    ensures
        ({
            let r = asserted_principal(state, headers, query_principal_id);
            let header = headers.header("x-morphz-principal"@);
            let name = headers.header("x-morphz-principal-name"@);
            &&& header is Unreadable ==> (r matches Err(e) && e.message@
                == "Principal Header is not valid UTF-8"@)
            &&& header is Absent && query_principal_id is None ==> (r matches Err(e) && e.message@
                == "trusted-gateway request is missing the current Principal"@)
            &&& header matches HeaderView::Text(text) ==> (query_principal_id matches Some(id) ==> (
            id@ != text ==> (r matches Err(e) && e.message@
                == "Principal in Header and Query does not match"@)))
            &&& header matches HeaderView::Text(text) ==> (query_principal_id is None && name
                is Unreadable && ident::principal_fault(text) is None ==> (r matches Err(e)
                && e.message@ == "Principal Name Header is not valid UTF-8"@))
            &&& header matches HeaderView::Text(text) ==> (query_principal_id is None ==> (
            ident::principal_fault(text) matches Some(fault) ==> (r matches Err(e) && e.message
                == Message::Principal(fault))))
        }),
{
}

/// What a resolution gives is what it should: the same principal, or the same refusal.
pub proof fn law_resolutions_give_what_they_should(
    principal: PrincipalAssertion,
    view: PrincipalView,
    given: SdkError,
    refusal: SdkError,
)
    ensures
        resolves(Ok(principal), Ok(view)) ==> principal@ == view,
        resolves(Err(given), Err(refusal)) ==> given == refusal,
        !resolves(Ok(principal), Err(refusal)),
        !resolves(Err(given), Ok(view)),
{
}

} // verus!
