use crate::error;
use crate::error::{error_response, ErrorReply, Message};
use crate::ident;
use crate::ident::api_id;
use crate::reply::{Body, Reply};
use crate::text;
use crate::text::{char_is_alphanumeric, chars_of, join, same, trim, Text};
use vstd::hash_set::StringHashSet;
use vstd::prelude::*;

verus! {

#[derive(PartialEq, Eq, Structural, Clone, Copy, Debug)]
pub enum ModelProtocol {
    OpenaiResponses,
    OpenaiChat,
    AnthropicMessages,
    GeminiContent,
}

/// The vendor behind the service `anthropic`, as the runtime's configuration names it. Its adapters
/// and providers carry the name.
pub struct MessagesVendor {
    pub name: String,
    pub label: String,
}

/// What is fixed about an OAuth service.
pub struct OAuthProfile {
    pub provider_id: Text,
    pub provider_adapter: Text,
    pub protocol: ModelProtocol,
    pub base_url: Text,
    pub auth_adapter: Text,
    pub login_adapter: Option<&'static str>,
    pub secret_backend: Option<&'static str>,
    pub account_label: Text,
}

/// The mathematical form of [`OAuthProfile`].
#[verifier::ext_equal]
pub struct ProfileView {
    pub provider_id: Seq<char>,
    pub provider_adapter: Seq<char>,
    pub protocol: ModelProtocol,
    pub base_url: Seq<char>,
    pub auth_adapter: Seq<char>,
    pub login_adapter: Option<&'static str>,
    pub secret_backend: Option<&'static str>,
    pub account_label: Seq<char>,
}

impl OAuthProfile {
    pub open spec fn view(&self) -> ProfileView {
        ProfileView {
            provider_id: self.provider_id@,
            provider_adapter: self.provider_adapter@,
            protocol: self.protocol,
            base_url: self.base_url@,
            auth_adapter: self.auth_adapter@,
            login_adapter: self.login_adapter,
            secret_backend: self.secret_backend,
            account_label: self.account_label@,
        }
    }
}

/// An account that is to be set up with an OAuth service.
pub struct OAuthProviderSetup {
    pub profile: OAuthProfile,
    pub account_id: String,
    pub credential_ref: String,
}

/// The adapter with which accounts of the vendor log in.
pub open spec fn vendor_adapter(vendor: MessagesVendor) -> Seq<char> {
    vendor.name@ + "-oauth"@
}

/// The profile of a service, `None` where the service is not known.
pub open spec fn profile_of(
    service: Seq<char>,
    antigravity_base_url: Seq<char>,
    vendor: MessagesVendor,
) -> Option<ProfileView> {
    if service == "codex"@ || service == "codex-device"@ {
        Some(
            ProfileView {
                provider_id: "codex-subscription"@,
                provider_adapter: "openai-codex"@,
                protocol: ModelProtocol::OpenaiResponses,
                base_url: "https://chatgpt.com/backend-api/codex"@,
                auth_adapter: "codex-oauth"@,
                login_adapter: Some(
                    if service == "codex-device"@ {
                        "codex-device-oauth"
                    } else {
                        "codex-oauth"
                    },
                ),
                secret_backend: Some("morphz_env_file"),
                account_label: "Codex"@,
            },
        )
    } else if service == "kimi"@ {
        Some(
            ProfileView {
                provider_id: "kimi-code"@,
                provider_adapter: "kimi-code"@,
                protocol: ModelProtocol::OpenaiChat,
                base_url: "https://api.kimi.com/coding/v1"@,
                auth_adapter: "kimi-oauth"@,
                login_adapter: None,
                secret_backend: Some("morphz_env_file"),
                account_label: "Kimi"@,
            },
        )
    } else if service == vendor.name@ || service == "anthropic"@ {
        Some(
            ProfileView {
                provider_id: vendor.name@ + "-subscription"@,
                provider_adapter: vendor.name@ + "-code"@,
                protocol: ModelProtocol::AnthropicMessages,
                base_url: "https://api.anthropic.com/v1"@,
                auth_adapter: vendor_adapter(vendor),
                login_adapter: None,
                secret_backend: Some("morphz_env_file"),
                account_label: vendor.label@,
            },
        )
    } else if service == "antigravity"@ {
        Some(
            ProfileView {
                provider_id: "antigravity-subscription"@,
                provider_adapter: "google-antigravity"@,
                protocol: ModelProtocol::GeminiContent,
                base_url: antigravity_base_url,
                auth_adapter: "antigravity-oauth"@,
                login_adapter: None,
                secret_backend: Some("morphz_env_file"),
                account_label: "Antigravity"@,
            },
        )
    } else if service == "xai"@ {
        Some(
            ProfileView {
                provider_id: "xai-subscription"@,
                provider_adapter: "xai-subscription"@,
                protocol: ModelProtocol::OpenaiResponses,
                base_url: "https://cli-chat-proxy.grok.com/v1"@,
                auth_adapter: "xai-oauth"@,
                login_adapter: None,
                secret_backend: Some("morphz_env_file"),
                account_label: "xAI"@,
            },
        )
    } else {
        None
    }
}

/// A character as it stands in the name of an environment variable.
pub open spec fn variable_char(c: char) -> char {
    if 'a' <= c <= 'z' {
        (c as u8 - 32) as char
    } else if text::is_alphanumeric(c) {
        c
    } else {
        '_'
    }
}

/// The name under which the credential of an account is kept.
pub open spec fn credential_ref_of(account_id: Seq<char>) -> Seq<char> {
    "MORPHZ_OAUTH_"@ + account_id.map_values(|c: char| variable_char(c))
}

fn credential_ref_text(account_id: &str) -> (r: String)
    ensures
        r@ == credential_ref_of(account_id@),
{
    let chars = chars_of(account_id);
    let mut out = "MORPHZ_OAUTH_".to_owned();
    let mut i: usize = 0;
    proof {
        assert(account_id@.subrange(0, 0) =~= Seq::<char>::empty());
        assert(credential_ref_of(account_id@.subrange(0, 0)) =~= "MORPHZ_OAUTH_"@);
    }
    while i < chars.len()
        invariant
            chars@ == account_id@,
            0 <= i <= chars.len(),
            out@ == credential_ref_of(account_id@.subrange(0, i as int)),
        decreases chars.len() - i,
    {
        let c: char = chars[i];
        let shown: char = if 'a' <= c && c <= 'z' {
            (c as u8 - 32) as char
        } else if char_is_alphanumeric(c) {
            c
        } else {
            '_'
        };
        out.push(shown);
        proof {
            assert(out@ =~= credential_ref_of(account_id@.subrange(0, i + 1)));
        }
        i = i + 1;
    }
    proof {
        assert(account_id@.subrange(0, account_id@.len() as int) =~= account_id@);
    }
    out
}

fn find_profile(service: &str, antigravity_base_url: String, vendor: &MessagesVendor) -> (r: Option<
    OAuthProfile,
>)
    ensures
        match profile_of(service@, antigravity_base_url@, *vendor) {
            Some(profile) => r matches Some(found) && found@ == profile,
            None => r is None,
        },
{
    let name: &str = vendor.name.as_str();
    let device: bool = same(service, "codex-device");
    if same(service, "codex") || device {
        Some(
            OAuthProfile {
                provider_id: Text::Fixed("codex-subscription"),
                provider_adapter: Text::Fixed("openai-codex"),
                protocol: ModelProtocol::OpenaiResponses,
                base_url: Text::Fixed("https://chatgpt.com/backend-api/codex"),
                auth_adapter: Text::Fixed("codex-oauth"),
                login_adapter: Some(
                    if device {
                        "codex-device-oauth"
                    } else {
                        "codex-oauth"
                    },
                ),
                secret_backend: Some("morphz_env_file"),
                account_label: Text::Fixed("Codex"),
            },
        )
    } else if same(service, "kimi") {
        Some(
            OAuthProfile {
                provider_id: Text::Fixed("kimi-code"),
                provider_adapter: Text::Fixed("kimi-code"),
                protocol: ModelProtocol::OpenaiChat,
                base_url: Text::Fixed("https://api.kimi.com/coding/v1"),
                auth_adapter: Text::Fixed("kimi-oauth"),
                login_adapter: None,
                secret_backend: Some("morphz_env_file"),
                account_label: Text::Fixed("Kimi"),
            },
        )
    } else if same(service, name) || same(service, "anthropic") {
        Some(
            OAuthProfile {
                provider_id: Text::Owned(join(name, "-subscription")),
                provider_adapter: Text::Owned(join(name, "-code")),
                protocol: ModelProtocol::AnthropicMessages,
                base_url: Text::Fixed("https://api.anthropic.com/v1"),
                auth_adapter: Text::Owned(join(name, "-oauth")),
                login_adapter: None,
                secret_backend: Some("morphz_env_file"),
                account_label: Text::Owned(vendor.label.clone()),
            },
        )
    } else if same(service, "antigravity") {
        Some(
            OAuthProfile {
                provider_id: Text::Fixed("antigravity-subscription"),
                provider_adapter: Text::Fixed("google-antigravity"),
                protocol: ModelProtocol::GeminiContent,
                base_url: Text::Owned(antigravity_base_url),
                auth_adapter: Text::Fixed("antigravity-oauth"),
                login_adapter: None,
                secret_backend: Some("morphz_env_file"),
                account_label: Text::Fixed("Antigravity"),
            },
        )
    } else if same(service, "xai") {
        Some(
            OAuthProfile {
                provider_id: Text::Fixed("xai-subscription"),
                provider_adapter: Text::Fixed("xai-subscription"),
                protocol: ModelProtocol::OpenaiResponses,
                base_url: Text::Fixed("https://cli-chat-proxy.grok.com/v1"),
                auth_adapter: Text::Fixed("xai-oauth"),
                login_adapter: None,
                secret_backend: Some("morphz_env_file"),
                account_label: Text::Fixed("xAI"),
            },
        )
    } else {
        None
    }
}

/// The account that is set up for an OAuth service under a given identifier.
pub fn oauth_account_setup(
    service: &str,
    account_id: String,
    antigravity_base_url: String,
    vendor: &MessagesVendor,
) -> (r: Result<OAuthProviderSetup, &'static str>)
    ensures
        match profile_of(text::trimmed(service@), antigravity_base_url@, *vendor) {
            Some(profile) => r matches Ok(setup) && setup.profile@ == profile && setup.account_id
                == account_id && setup.credential_ref@ == credential_ref_of(account_id@),
            None => r == Err::<OAuthProviderSetup, &'static str>(
                "this OAuth service is not integrated with Runtime",
            ),
        },
{
    let credential_ref = credential_ref_text(account_id.as_str());
    match find_profile(trim(service), antigravity_base_url, vendor) {
        Some(profile) => Ok(OAuthProviderSetup { profile, account_id, credential_ref }),
        None => Err("this OAuth service is not integrated with Runtime"),
    }
}

/// The account that is set up for an OAuth service, under a fresh identifier with the given running
/// number.
pub fn oauth_provider_setup(
    service: &str,
    counter: u64,
    antigravity_base_url: String,
    vendor: &MessagesVendor,
) -> (r: Result<OAuthProviderSetup, &'static str>)
    ensures
        match profile_of(text::trimmed(service@), antigravity_base_url@, *vendor) {
            Some(profile) => r matches Ok(setup) && setup.profile@ == profile && is_account_number(
                setup,
                counter as nat,
            ) && text::starts_with(setup.account_id@, "account_"@),
            None => r == Err::<OAuthProviderSetup, &'static str>(
                "this OAuth service is not integrated with Runtime",
            ),
        },
{
    let r = oauth_account_setup(
        service,
        api_id("account", counter),
        antigravity_base_url,
        vendor,
    );
    proof {
        if r is Ok {
            lemma_account_is_numbered(r->Ok_0, counter as nat);
        }
    }
    r
}

/// Whether an account goes by a running number, at whatever time it was made.
pub open spec fn is_account_number(setup: OAuthProviderSetup, counter: nat) -> bool {
    &&& setup.credential_ref@ == credential_ref_of(setup.account_id@)
    &&& exists|nanos: int|
        setup.account_id@ == #[trigger] ident::api_id_text("account"@, nanos, counter)
}

/// The name of a credential ends in the number that the name of its account ends in.
proof fn lemma_credential_is_numbered(account_id: Seq<char>, n: nat)
    requires
        text::is_numbered(account_id, n),
    ensures
        text::is_numbered(credential_ref_of(account_id), n),
{
    text::lemma_decimal_is_read_back(n);
    let tail = seq!['_'] + text::decimal(n);
    let name = credential_ref_of(account_id);
    let from = account_id.len() - tail.len();
    let start = name.len() - tail.len();
    assert forall|k: int| 0 <= k < tail.len() implies name[start + k] == #[trigger] tail[k] by {
        assert(account_id.subrange(from, account_id.len() as int)[k] == tail[k]);
        assert(account_id[from + k] == tail[k]);
        assert(k > 0 ==> tail[k] == text::decimal(n)[k - 1]);
        assert(name[start + k] == variable_char(account_id[from + k]));
    }
    assert(name.subrange(start, name.len() as int) =~= tail);
}

/// Two accounts that were set up under different running numbers share neither their identifier nor
/// the name of their credential.
pub proof fn law_setups_never_share_a_name(
    a: OAuthProviderSetup,
    counter_a: nat,
    b: OAuthProviderSetup,
    counter_b: nat,
)
    requires
        is_account_number(a, counter_a),
        is_account_number(b, counter_b),
        counter_a != counter_b,
    ensures
        a.account_id@ != b.account_id@,
        a.credential_ref@ != b.credential_ref@,
{
    lemma_account_is_numbered(a, counter_a);
    lemma_account_is_numbered(b, counter_b);
    text::lemma_numbers_tell_texts_apart(a.account_id@, counter_a, b.account_id@, counter_b);
    lemma_credential_is_numbered(a.account_id@, counter_a);
    lemma_credential_is_numbered(b.account_id@, counter_b);
    text::lemma_numbers_tell_texts_apart(
        a.credential_ref@,
        counter_a,
        b.credential_ref@,
        counter_b,
    );
}

proof fn lemma_account_is_numbered(setup: OAuthProviderSetup, counter: nat)
    requires
        is_account_number(setup, counter),
    ensures
        text::is_numbered(setup.account_id@, counter),
        text::starts_with(setup.account_id@, "account_"@),
{
    let nanos = choose|nanos: int|
        setup.account_id@ == #[trigger] ident::api_id_text("account"@, nanos, counter);
    ident::lemma_api_id_is_numbered("account"@, nanos, counter);
    reveal_strlit("account");
    reveal_strlit("_");
    reveal_strlit("account_");
    assert("account"@ + "_"@ =~= "account_"@);
}

/// A service that the dashboard offers, and the adapter that it needs.
pub struct OAuthProviderSetupServiceDescriptor {
    pub id: &'static str,
    pub auth_adapter: Text,
}

/// The mathematical form of [`OAuthProviderSetupServiceDescriptor`].
#[verifier::ext_equal]
pub struct DescriptorView {
    pub id: &'static str,
    pub auth_adapter: Seq<char>,
}

impl OAuthProviderSetupServiceDescriptor {
    pub open spec fn view(&self) -> DescriptorView {
        DescriptorView { id: self.id, auth_adapter: self.auth_adapter@ }
    }
}

pub open spec fn service_descriptors(vendor: MessagesVendor) -> Seq<DescriptorView> {
    seq![
        DescriptorView { id: "codex", auth_adapter: "codex-oauth"@ },
        DescriptorView { id: "kimi", auth_adapter: "kimi-oauth"@ },
        DescriptorView { id: "anthropic", auth_adapter: vendor_adapter(vendor) },
        DescriptorView { id: "antigravity", auth_adapter: "antigravity-oauth"@ },
        DescriptorView { id: "xai", auth_adapter: "xai-oauth"@ },
    ]
}

/// Some descriptors in their mathematical form.
pub open spec fn views(descriptors: Seq<OAuthProviderSetupServiceDescriptor>) -> Seq<
    DescriptorView,
> {
    descriptors.map_values(|service: OAuthProviderSetupServiceDescriptor| service@)
}

pub fn oauth_provider_setup_service_descriptors(vendor: &MessagesVendor) -> (r: Vec<
    OAuthProviderSetupServiceDescriptor,
>)
    ensures
        views(r@) == service_descriptors(*vendor),
{
    let all: Vec<OAuthProviderSetupServiceDescriptor> = vec![
        OAuthProviderSetupServiceDescriptor {
            id: "codex",
            auth_adapter: Text::Fixed("codex-oauth"),
        },
        OAuthProviderSetupServiceDescriptor {
            id: "kimi",
            auth_adapter: Text::Fixed("kimi-oauth"),
        },
        OAuthProviderSetupServiceDescriptor {
            id: "anthropic",
            auth_adapter: Text::Owned(join(vendor.name.as_str(), "-oauth")),
        },
        OAuthProviderSetupServiceDescriptor {
            id: "antigravity",
            auth_adapter: Text::Fixed("antigravity-oauth"),
        },
        OAuthProviderSetupServiceDescriptor {
            id: "xai",
            auth_adapter: Text::Fixed("xai-oauth"),
        },
    ];
    proof {
        assert(views(all@) =~= service_descriptors(*vendor));
    }
    all
}

/// The offered services whose adapter is registered, in order.
pub fn available_services(registered: &StringHashSet, vendor: &MessagesVendor) -> (r: Vec<
    OAuthProviderSetupServiceDescriptor,
>)
    ensures
        views(r@) == service_descriptors(*vendor).filter(
            |service: DescriptorView| registered@.contains(service.auth_adapter),
        ),
{
    let mut rest = oauth_provider_setup_service_descriptors(vendor);
    let ghost all = views(rest@);
    let ghost keep = |service: DescriptorView| registered@.contains(service.auth_adapter);
    let mut services: Vec<OAuthProviderSetupServiceDescriptor> = Vec::new();
    let mut i: usize = 0;
    let count: usize = rest.len();
    proof {
        reveal(Seq::filter);
        assert(all.subrange(0, 0) =~= Seq::<DescriptorView>::empty());
    }
    while i < count
        invariant
            0 <= i <= count,
            all.len() == count,
            rest@.len() == count - i,
            views(rest@) == all.subrange(i as int, count as int),
            keep == |service: DescriptorView| registered@.contains(service.auth_adapter),
            views(services@) == all.subrange(0, i as int).filter(keep),
        decreases count - i,
    {
        let ghost before = services@;
        let ghost left = rest@;
        let service = rest.remove(0);
        proof {
            reveal(Seq::filter);
            assert(views(left)[0] == left[0]@);
            assert(service@ == all[i as int]);
            assert(all.subrange(0, i + 1).drop_last() =~= all.subrange(0, i as int));
            assert(views(rest@) =~= all.subrange(i + 1, count as int)) by {
                assert forall|k: int| 0 <= k < rest@.len() implies views(rest@)[k] == all.subrange(
                    i + 1,
                    count as int,
                )[k] by {
                    assert(rest@[k] == left[k + 1]);
                    assert(views(left)[k + 1] == left[k + 1]@);
                }
            }
            assert(views(before.push(service)) =~= views(before).push(service@));
        }
        if registered.contains(service.auth_adapter.as_str()) {
            services.push(service);
        }
        i = i + 1;
    }
    proof {
        assert(all.subrange(0, all.len() as int) =~= all);
    }
    services
}

/// What an authorization service hands to the redirect page.
pub struct OAuthCallbackQuery {
    pub state: String,
    pub code: Option<String>,
    pub error: Option<String>,
    pub error_description: Option<String>,
}

pub open spec fn is_blank(text: Seq<char>) -> bool {
    text::trimmed(text).len() == 0
}

/// The error that a redirect reports: its description where there is one.
pub open spec fn callback_error(query: OAuthCallbackQuery) -> Option<String> {
    match query.error_description {
        Some(description) if !is_blank(description@) => Some(description),
        _ => match query.error {
            Some(code) if !is_blank(code@) => Some(code),
            _ => None,
        },
    }
}

/// Whether a redirect delivers an authorization code.
pub open spec fn callback_succeeds(query: OAuthCallbackQuery) -> bool {
    callback_error(query) is None && (query.code matches Some(code) && !is_blank(code@))
}

/// What is submitted for a redirect, and whether it was a success.
pub struct OAuthCallback {
    pub state: String,
    pub code: Option<String>,
    pub error: Option<String>,
    pub success: bool,
}

pub fn oauth_callback(query: OAuthCallbackQuery) -> (r: OAuthCallback)
    ensures
        r == (OAuthCallback {
            state: query.state,
            code: query.code,
            error: callback_error(query),
            success: callback_succeeds(query),
        }),
{
    let described: bool = match &query.error_description {
        Some(description) => !trim(description.as_str()).is_empty(),
        None => false,
    };
    let coded: bool = match &query.error {
        Some(code) => !trim(code.as_str()).is_empty(),
        None => false,
    };
    let has_code: bool = match &query.code {
        Some(code) => !trim(code.as_str()).is_empty(),
        None => false,
    };
    let success: bool = !described && !coded && has_code;
    let error: Option<String> = if described {
        query.error_description
    } else if coded {
        query.error
    } else {
        None
    };
    OAuthCallback { state: query.state, code: query.code, error, success }
}

/// The page that a redirect ends on.
pub struct OAuthCallbackPage {
    pub status: u16,
    pub title: &'static str,
    pub detail: &'static str,
}

/// The page that a redirect ends on, given whether the runtime took it and whether it was a success.
pub open spec fn callback_page(submitted: bool, success: bool) -> OAuthCallbackPage {
    if !submitted {
        OAuthCallbackPage {
            status: 400,
            title: "Morphz login expired",
            detail:
                "This authorization request does not exist or has expired. Return to the Dashboard and log in again.",
        }
    } else if success {
        OAuthCallbackPage {
            status: 200,
            title: "Morphz login complete",
            detail: "The credential was delivered securely to Runtime. You may close this page.",
        }
    } else {
        OAuthCallbackPage {
            status: 400,
            title: "Morphz login failed",
            detail:
                "The authorization service returned an error. Return to the Dashboard for details.",
        }
    }
}

/// The page for a redirect, once it was submitted.
pub fn oauth_callback_page(submitted: bool, success: bool) -> (r: OAuthCallbackPage)
    ensures
        r == callback_page(submitted, success),
{
    if !submitted {
        OAuthCallbackPage {
            status: 400,
            title: "Morphz login expired",
            detail:
                "This authorization request does not exist or has expired. Return to the Dashboard and log in again.",
        }
    } else if success {
        OAuthCallbackPage {
            status: 200,
            title: "Morphz login complete",
            detail: "The credential was delivered securely to Runtime. You may close this page.",
        }
    } else {
        OAuthCallbackPage {
            status: 400,
            title: "Morphz login failed",
            detail:
                "The authorization service returned an error. Return to the Dashboard for details.",
        }
    }
}

/// The headers under which the page of a redirect is shown: no browser keeps it.
pub fn callback_page_headers() -> (r: Vec<(&'static str, &'static str)>)
    ensures
        r@ == seq![("content-type", "text/html; charset=utf-8"), ("cache-control", "no-store")],
{
    vec![("content-type", "text/html; charset=utf-8"), ("cache-control", "no-store")]
}

impl OAuthCallbackPage {
    /// The page in HTML.
    pub fn html(&self) -> (r: String)
        ensures
            r@
                == "<!doctype html><meta charset=\"utf-8\"><meta name=\"viewport\" content=\"width=device-width\"><title>"@
                + self.title@
                + "</title><style>body{font:16px system-ui;margin:10vh auto;max-width:34rem;padding:2rem;color:#20222a}h1{font-size:1.5rem}</style><h1>"@
                + self.title@ + "</h1><p>"@ + self.detail@ + "</p>"@,
    {
        let a = join(
            "<!doctype html><meta charset=\"utf-8\"><meta name=\"viewport\" content=\"width=device-width\"><title>",
            self.title,
        );
        let b = join(
            a.as_str(),
            "</title><style>body{font:16px system-ui;margin:10vh auto;max-width:34rem;padding:2rem;color:#20222a}h1{font-size:1.5rem}</style><h1>",
        );
        let c = join(join(b.as_str(), self.title).as_str(), "</h1><p>");
        join(join(c.as_str(), self.detail).as_str(), "</p>")
    }
}

/// Every offered service can be set up, and its account uses the adapter that the offer names.
pub proof fn law_offered_services_can_be_set_up(
    i: int,
    antigravity_base_url: Seq<char>,
    vendor: MessagesVendor,
)
    requires
        0 <= i < service_descriptors(vendor).len(),
    ensures
        profile_of(
            text::trimmed(service_descriptors(vendor)[i].id@),
            antigravity_base_url,
            vendor,
        ) matches Some(profile) && profile.auth_adapter == service_descriptors(
            vendor,
        )[i].auth_adapter,
{
    reveal_strlit("codex");
    reveal_strlit("codex-device");
    reveal_strlit("kimi");
    reveal_strlit("anthropic");
    reveal_strlit("antigravity");
    reveal_strlit("xai");
    reveal_strlit("-oauth");
    reveal_strlit("antigravity-oauth");
    reveal_strlit("xai-oauth");
    assert("antigravity"@ + "-oauth"@ =~= "antigravity-oauth"@);
    assert("xai"@ + "-oauth"@ =~= "xai-oauth"@);
    let id = service_descriptors(vendor)[i].id@;
    assert(!text::is_space(id[0]));
    assert(!text::is_space(id.last()));
    assert(text::trimmed(id) == id);
    assert("kimi"@[0] != "codex"@[0] && "anthropic"@[0] != "kimi"@[0]);
    assert("antigravity"@.len() != "anthropic"@.len());
    assert("xai"@[0] != "codex"@[0]);
}

/// A redirect that reports an error is never taken for a success.
pub proof fn law_reported_error_is_no_success(query: OAuthCallbackQuery)
    requires
        callback_error(query) is Some,
    ensures
        !callback_succeeds(query),
{
}

/// With a runtime that takes a redirect only while a login waits for its state, and then waits no
/// longer: a redirect for a state that nobody waits for is refused whatever it carries, one with a
/// code for a state that is waited for succeeds, and a second one for the same state is refused.
pub proof fn law_redirects_are_taken_once(
    waiting: Set<Seq<char>>,
    query: OAuthCallbackQuery,
    second: OAuthCallbackQuery,
)
    requires
        second.state@ == query.state@,
    ensures
        !waiting.contains(query.state@) ==> callback_page(
            waiting.contains(query.state@),
            callback_succeeds(query),
        ).status == 400,
        waiting.contains(query.state@) ==> (callback_page(
            waiting.contains(query.state@),
            callback_succeeds(query),
        ).status == 200 <==> callback_succeeds(query)),
        callback_page(
            waiting.remove(query.state@).contains(second.state@),
            callback_succeeds(second),
        ).status == 400,
{
}

/// The answer to a login that is given up: there is nothing to say of one that was there, one that
/// was not is not found, and a refusal is passed on.
pub fn login_cancelled_reply(cancelled: Result<bool, String>) -> (r: Result<Reply, ErrorReply>)
    ensures
        r == match cancelled {
            Ok(true) => Ok::<Reply, ErrorReply>(Reply { status: 204, body: Body::Empty }),
            Ok(false) => Ok(Reply { status: 404, body: Body::Empty }),
            Err(detail) => Err(error::error_reply(400, Message::Owned(detail))),
        },
{
    match cancelled {
        Ok(true) => Ok(Reply { status: 204, body: Body::Empty }),
        Ok(false) => Ok(Reply { status: 404, body: Body::Empty }),
        Err(detail) => Err(error_response(400, Message::Owned(detail))),
    }
}

proof fn lemma_service_names_differ()
    ensures
        "codex"@ != "codex-device"@,
        "codex"@ != "kimi"@,
        "codex"@ != "anthropic"@,
        "codex"@ != "antigravity"@,
        "codex"@ != "xai"@,
        "codex-device"@ != "kimi"@,
        "codex-device"@ != "anthropic"@,
        "codex-device"@ != "antigravity"@,
        "codex-device"@ != "xai"@,
        "kimi"@ != "anthropic"@,
        "kimi"@ != "antigravity"@,
        "kimi"@ != "xai"@,
        "anthropic"@ != "antigravity"@,
        "anthropic"@ != "xai"@,
        "antigravity"@ != "xai"@,
{
    reveal_strlit("codex");
    reveal_strlit("codex-device");
    reveal_strlit("kimi");
    reveal_strlit("anthropic");
    reveal_strlit("antigravity");
    reveal_strlit("xai");
    assert("codex"@.len() == 5);
    assert("codex-device"@.len() == 12);
    assert("kimi"@.len() == 4);
    assert("anthropic"@.len() == 9);
    assert("antigravity"@.len() == 11);
    assert("xai"@.len() == 3);
}

/// Which services can be signed in to, and where each of them is reached: these and no others, each
/// under its own protocol and address, all with their secrets kept in the environment file.
pub proof fn law_services_are_reached_at_their_own_address(
    service: Seq<char>,
    antigravity_base_url: Seq<char>,
    vendor: MessagesVendor,
)
    requires
        vendor.name@ != "codex"@,
        vendor.name@ != "codex-device"@,
        vendor.name@ != "kimi"@,
        vendor.name@ != "antigravity"@,
        vendor.name@ != "xai"@,
    ensures
        ({
            let profile = profile_of(service, antigravity_base_url, vendor);
            let codex = service == "codex"@ || service == "codex-device"@;
            let messages = service == vendor.name@ || service == "anthropic"@;
            let kimi = service == "kimi"@;
            let antigravity = service == "antigravity"@;
            let xai = service == "xai"@;
            &&& profile is Some <==> codex || messages || kimi || antigravity || xai
            &&& profile matches Some(found) ==> {
                &&& codex ==> found.base_url == "https://chatgpt.com/backend-api/codex"@
                    && found.protocol == ModelProtocol::OpenaiResponses && found.auth_adapter
                    == "codex-oauth"@ && found.provider_id == "codex-subscription"@
                    && found.provider_adapter == "openai-codex"@ && found.account_label == "Codex"@
                &&& messages ==> found.base_url == "https://api.anthropic.com/v1"@ && found.protocol
                    == ModelProtocol::AnthropicMessages && found.auth_adapter == vendor.name@
                    + "-oauth"@ && found.provider_id == vendor.name@ + "-subscription"@
                    && found.provider_adapter == vendor.name@ + "-code"@ && found.account_label
                    == vendor.label@
                &&& kimi ==> found.base_url == "https://api.kimi.com/coding/v1"@ && found.protocol
                    == ModelProtocol::OpenaiChat && found.auth_adapter == "kimi-oauth"@
                    && found.provider_id == "kimi-code"@ && found.provider_adapter == "kimi-code"@
                    && found.account_label == "Kimi"@
                &&& antigravity ==> found.base_url == antigravity_base_url && found.protocol
                    == ModelProtocol::GeminiContent && found.auth_adapter == "antigravity-oauth"@
                    && found.provider_id == "antigravity-subscription"@ && found.provider_adapter
                    == "google-antigravity"@ && found.account_label == "Antigravity"@
                &&& xai ==> found.base_url == "https://cli-chat-proxy.grok.com/v1"@
                    && found.protocol == ModelProtocol::OpenaiResponses && found.auth_adapter
                    == "xai-oauth"@ && found.provider_id == "xai-subscription"@
                    && found.provider_adapter == "xai-subscription"@ && found.account_label
                    == "xAI"@
                &&& found.login_adapter is Some <==> codex
                &&& service == "codex-device"@ ==> found.login_adapter == Some("codex-device-oauth")
                &&& service == "codex"@ ==> found.login_adapter == Some("codex-oauth")
                &&& found.secret_backend == Some("morphz_env_file")
            }
        }),
{
    lemma_service_names_differ();
}

/// The variable that keeps an account's credential is named after the account: letters in capitals,
/// digits as they are, and everything else as an underscore, behind one prefix.
pub proof fn law_credentials_are_named_after_their_account(account_id: Seq<char>, i: int)
    requires
        0 <= i < account_id.len(),
    ensures
        ({
            let name = credential_ref_of(account_id);
            let prefix = "MORPHZ_OAUTH_"@;
            let c = account_id[i];
            let v = name[prefix.len() + i];
            &&& name.len() == prefix.len() + account_id.len()
            &&& text::starts_with(name, prefix)
            &&& 'a' <= c <= 'z' ==> v as int == c as int - 32
            &&& !('a' <= c <= 'z') && text::is_alphanumeric(c) ==> v == c
            &&& !('a' <= c <= 'z') && !text::is_alphanumeric(c) ==> v == '_'
        }),
{
    let mapped = account_id.map_values(|c: char| variable_char(c));
    let prefix = "MORPHZ_OAUTH_"@;
    assert(mapped[i] == variable_char(account_id[i]));
    assert((prefix + mapped)[prefix.len() + i] == mapped[i]);
    assert((prefix + mapped).subrange(0, prefix.len() as int) =~= prefix);
}

/// What a redirect tells: the description of an error comes before its code, blank ones do not count,
/// and it is a success exactly where it tells of no error and brings a code.
pub proof fn law_redirects_tell_of_errors_first(query: OAuthCallbackQuery)
    ensures
        ({
            let described = query.error_description matches Some(text) && text::trimmed(text@).len()
                > 0;
            let named = query.error matches Some(text) && text::trimmed(text@).len() > 0;
            let coded = query.code matches Some(text) && text::trimmed(text@).len() > 0;
            &&& described ==> callback_error(query) == query.error_description
            &&& !described && named ==> callback_error(query) == query.error
            &&& !described && !named ==> callback_error(query) is None
            &&& callback_succeeds(query) <==> !described && !named && coded
        }),
{
}

/// The page that ends a login in the browser: complete only where the redirect was taken and was a
/// success, and with a status to match.
pub proof fn law_login_pages_tell_the_outcome(submitted: bool, success: bool)
    ensures
        callback_page(submitted, success).status == 200 <==> submitted && success,
        callback_page(submitted, success).status != 200 ==> callback_page(submitted, success).status
            == 400,
        callback_page(submitted, success).title == if !submitted {
            "Morphz login expired"
        } else if success {
            "Morphz login complete"
        } else {
            "Morphz login failed"
        },
        callback_page(submitted, success).detail == if !submitted {
            "This authorization request does not exist or has expired. Return to the Dashboard and log in again."
        } else if success {
            "The credential was delivered securely to Runtime. You may close this page."
        } else {
            "The authorization service returned an error. Return to the Dashboard for details."
        },
{
}

/// Every service that can be signed in to is offered, under the adapter of its profile.
pub proof fn law_every_service_is_offered(
    service: Seq<char>,
    antigravity_base_url: Seq<char>,
    vendor: MessagesVendor,
)
    requires
        profile_of(service, antigravity_base_url, vendor) is Some,
    ensures
        exists|i: int|
            0 <= i < service_descriptors(vendor).len() && (#[trigger] service_descriptors(
                vendor,
            )[i]).auth_adapter == profile_of(
                service,
                antigravity_base_url,
                vendor,
            )->0.auth_adapter,
{
    let all = service_descriptors(vendor);
    assert(all.len() == 5);
    assert(all[0].auth_adapter == "codex-oauth"@);
    assert(all[1].auth_adapter == "kimi-oauth"@);
    assert(all[2].auth_adapter == vendor_adapter(vendor));
    assert(all[3].auth_adapter == "antigravity-oauth"@);
    assert(all[4].auth_adapter == "xai-oauth"@);
}

} // verus!
