use crate::error;
use crate::error::{error_response, ErrorReply, Message};
use crate::headers;
use crate::headers::{HeaderMap, HeaderText, HeaderView};
use crate::ident;
use crate::ident::valid_trace_id;
use crate::json::Json;
use crate::reply::{value_reply, Body, Reply};
use crate::text;
use crate::text::{
    char_is_alphanumeric, chars_of, decimal_text, find, has_prefix, join, replacen_first, same,
    split_on, trim, Text,
};
use vstd::prelude::*;

verus! {

/// The files of the built dashboard, as they are part of the program.
pub struct DashboardAssets<'a> {
    /// The entry page.
    pub index: &'a str,
    pub app_js: &'a [u8],
    pub app_css: &'a [u8],
    pub favicon: &'a [u8],
    pub icons: &'a [u8],
}

/// A file of the dashboard besides its entry page.
#[derive(PartialEq, Eq, Structural, Clone, Copy, Debug)]
pub enum DashboardFile {
    AppScript,
    AppStyle,
    Favicon,
    Icons,
}

/// A configured value that cannot be used, with the reason.
pub struct InvalidInput {
    pub message: String,
}

pub fn invalid_dashboard_base_path(message: &str) -> (r: InvalidInput)
    ensures
        r.message@ == message@,
{
    InvalidInput { message: message.to_owned() }
}

pub open spec fn base_path_char(c: char) -> bool {
    text::is_alphanumeric(c) || c == '/' || c == '-' || c == '_' || c == '.' || c == '~' || c == '%'
}

pub open spec fn is_dot_segment(segment: Seq<char>) -> bool {
    segment == "."@ || segment == ".."@
}

/// The nonempty segments, each after a slash.
pub open spec fn joined(segments: Seq<Seq<char>>) -> Seq<char>
    decreases segments.len(),
{
    if segments.len() == 0 {
        Seq::empty()
    } else if segments.last().len() == 0 {
        joined(segments.drop_last())
    } else {
        joined(segments.drop_last()).push('/') + segments.last()
    }
}

/// The mount point of the dashboard in normal form, or why the configured one is refused.
pub open spec fn base_path(value: Seq<char>) -> Result<Seq<char>, Seq<char>> {
    let path = text::trimmed(value);
    if path.len() == 0 || path == "/"@ {
        Ok("/"@)
    } else if path[0] != '/' {
        Err("MORPHZ_DASHBOARD_BASE_PATH must start with '/'"@)
    } else if exists|i: int| 0 <= i < path.len() && !base_path_char(#[trigger] path[i]) {
        Err(
            "MORPHZ_DASHBOARD_BASE_PATH contains a character that is unsafe in an HTML base URL"@,
        )
    } else if exists|i: int|
        0 <= i < text::split(path, '/').len() && is_dot_segment(
            #[trigger] text::split(path, '/')[i],
        ) {
        Err("MORPHZ_DASHBOARD_BASE_PATH cannot contain dot segments"@)
    } else {
        Ok(joined(text::split(path, '/')).push('/'))
    }
}

/// The mount point of the dashboard in normal form: it starts and ends with a slash, and no two
/// slashes follow each other.
pub fn normalize_dashboard_base_path(value: &str) -> (r: Result<String, InvalidInput>)
    ensures
        match base_path(value@) {
            Ok(path) => r matches Ok(text) && text@ == path,
            Err(reason) => r matches Err(error) && error.message@ == reason,
        },
{
    let trimmed = trim(value);
    if trimmed.is_empty() || same(trimmed, "/") {
        return Ok("/".to_owned());
    }
    let chars = chars_of(trimmed);
    if chars[0] != '/' {
        return Err(
            invalid_dashboard_base_path("MORPHZ_DASHBOARD_BASE_PATH must start with '/'"),
        );
    }
    let mut i: usize = 0;
    while i < chars.len()
        invariant
            chars@ == trimmed@,
            trimmed@ == text::trimmed(value@),
            trimmed@.len() > 0,
            trimmed@ != "/"@,
            trimmed@[0] == '/',
            0 <= i <= chars.len(),
            forall|j: int| 0 <= j < i ==> base_path_char(#[trigger] trimmed@[j]),
        decreases chars.len() - i,
    {
        let c: char = chars[i];
        if !(char_is_alphanumeric(c) || c == '/' || c == '-' || c == '_' || c == '.' || c == '~'
            || c == '%') {
            proof {
                assert(!base_path_char(trimmed@[i as int]));
            }
            return Err(
                invalid_dashboard_base_path(
                    "MORPHZ_DASHBOARD_BASE_PATH contains a character that is unsafe in an HTML base URL",
                ),
            );
        }
        i = i + 1;
    }
    let segments = split_on(trimmed, '/');
    let ghost pieces = text::split(trimmed@, '/');
    let mut k: usize = 0;
    let mut normalized = String::new();
    proof {
        assert(pieces.subrange(0, 0) =~= Seq::<Seq<char>>::empty());
    }
    while k < segments.len()
        invariant
            trimmed@ == text::trimmed(value@),
            trimmed@.len() > 0,
            trimmed@ != "/"@,
            trimmed@[0] == '/',
            forall|j: int| 0 <= j < trimmed@.len() ==> base_path_char(#[trigger] trimmed@[j]),
            pieces == text::split(trimmed@, '/'),
            segments.len() == pieces.len(),
            forall|j: int| 0 <= j < segments.len() ==> (#[trigger] segments[j])@ == pieces[j],
            0 <= k <= segments.len(),
            forall|j: int| 0 <= j < k ==> !is_dot_segment(#[trigger] pieces[j]),
            normalized@ == joined(pieces.subrange(0, k as int)),
        decreases segments.len() - k,
    {
        let segment = segments[k].as_str();
        proof {
            assert(pieces.subrange(0, k + 1).drop_last() =~= pieces.subrange(0, k as int));
            assert(pieces.subrange(0, k + 1).last() == segment@);
        }
        if same(segment, ".") || same(segment, "..") {
            proof {
                assert(is_dot_segment(pieces[k as int]));
            }
            return Err(
                invalid_dashboard_base_path(
                    "MORPHZ_DASHBOARD_BASE_PATH cannot contain dot segments",
                ),
            );
        }
        if !segment.is_empty() {
            let ghost before = normalized@;
            normalized.append("/");
            normalized.append(segment);
            proof {
                reveal_strlit("/");
                assert(normalized@ =~= before.push('/') + segment@);
            }
        }
        k = k + 1;
    }
    proof {
        assert(pieces.subrange(0, pieces.len() as int) =~= pieces);
    }
    let ghost before = normalized@;
    normalized.append("/");
    proof {
        reveal_strlit("/");
        assert(normalized@ =~= before.push('/'));
    }
    Ok(normalized)
}

/// The dashboard's entry page for a mount point: its base element names that mount point.
pub open spec fn index_with_base(index: Seq<char>, base_path: Seq<char>) -> Seq<char> {
    let element = "<base href=\""@ + base_path + "\">"@;
    if text::find_from(index, "<base href=\"/\">"@, 0) is Some {
        text::replace_first(index, "<base href=\"/\">"@, element)
    } else {
        text::replace_first(index, "<base href=\"/\" />"@, element)
    }
}

/// The entry page for a mount point.
pub fn dashboard_index_html(index: &str, base_path: &str) -> (r: String)
    ensures
        r@ == index_with_base(index@, base_path@),
{
    let element = join(join("<base href=\"", base_path).as_str(), "\">");
    if find(index, "<base href=\"/\">").is_some() {
        replacen_first(index, "<base href=\"/\">", element.as_str())
    } else {
        replacen_first(index, "<base href=\"/\" />", element.as_str())
    }
}

/// The mount point that the environment names, the root where it names none.
pub fn configured_dashboard_base_path(variable: Option<&str>) -> (r: Result<String, InvalidInput>)
    ensures
        match configured_base_path(headers::opt_view(variable)) {
            Ok(path) => r matches Ok(found) && found@ == path,
            Err(reason) => r matches Err(fault) && fault.message@ == reason,
        },
{
    match variable {
        Some(value) => normalize_dashboard_base_path(value),
        None => normalize_dashboard_base_path("/"),
    }
}

pub open spec fn configured_base_path(variable: Option<Seq<char>>) -> Result<
    Seq<char>,
    Seq<char>,
> {
    base_path(
        match variable {
            Some(value) => value,
            None => "/"@,
        },
    )
}

/// An answer with a file or a page of the dashboard. Browsers ask again before they use what they
/// have kept of it.
pub struct DashboardReply<T> {
    pub status: u16,
    pub headers: Vec<(&'static str, &'static str)>,
    pub body: T,
}

/// The headers of a file or a page of the dashboard.
pub open spec fn asset_headers(content_type: &'static str) -> Seq<(&'static str, &'static str)> {
    seq![("content-type", content_type), ("cache-control", "no-cache")]
}

pub fn embedded_asset<T>(content_type: &'static str, body: T) -> (r: DashboardReply<T>)
    ensures
        r.status == 200,
        r.headers@ == asset_headers(content_type),
        r.body == body,
{
    DashboardReply {
        status: 200,
        headers: vec![("content-type", content_type), ("cache-control", "no-cache")],
        body,
    }
}

/// The answer with a file of the dashboard.
pub fn dashboard_file<'a>(assets: &DashboardAssets<'a>, file: DashboardFile) -> (r: DashboardReply<
    &'a [u8],
>)
    ensures
        r.status == 200,
        r.headers@ == asset_headers(
            match file {
                DashboardFile::AppScript => "text/javascript; charset=utf-8",
                DashboardFile::AppStyle => "text/css; charset=utf-8",
                DashboardFile::Favicon | DashboardFile::Icons => "image/svg+xml",
            },
        ),
        r.body == match file {
            DashboardFile::AppScript => assets.app_js,
            DashboardFile::AppStyle => assets.app_css,
            DashboardFile::Favicon => assets.favicon,
            DashboardFile::Icons => assets.icons,
        },
{
    match file {
        DashboardFile::AppScript => embedded_asset(
            "text/javascript; charset=utf-8",
            assets.app_js,
        ),
        DashboardFile::AppStyle => embedded_asset("text/css; charset=utf-8", assets.app_css),
        DashboardFile::Favicon => embedded_asset("image/svg+xml", assets.favicon),
        DashboardFile::Icons => embedded_asset("image/svg+xml", assets.icons),
    }
}

/// Whether an answer is the entry page, for the mount point that the environment names. A mount
/// point that cannot be used leaves the page at the root.
pub open spec fn is_entry_page(
    reply: DashboardReply<String>,
    index: Seq<char>,
    variable: Option<Seq<char>>,
) -> bool {
    &&& reply.status == 200
    &&& reply.headers@ == asset_headers("text/html; charset=utf-8")
    &&& reply.body@ == index_with_base(
        index,
        match configured_base_path(variable) {
            Ok(path) => path,
            Err(_) => "/"@,
        },
    )
}

/// The answer with the entry page.
pub fn dashboard_index(index: &str, variable: Option<&str>) -> (r: DashboardReply<String>)
    ensures
        is_entry_page(r, index@, headers::opt_view(variable)),
{
    let html = match configured_dashboard_base_path(variable) {
        Ok(path) => dashboard_index_html(index, path.as_str()),
        Err(_) => dashboard_index_html(index, "/"),
    };
    embedded_asset("text/html; charset=utf-8", html)
}

/// Whether a path belongs to the API and not to the dashboard's client-side routes.
pub open spec fn is_reserved_path(path: Seq<char>) -> bool {
    text::starts_with(path, "/api/"@) || path == "/api"@ || path == "/ws"@
}

/// A path without a route: the API answers that it does not exist, any other path gets the
/// dashboard's entry page.
pub fn dashboard_fallback(path: &str, index: &str, variable: Option<&str>) -> (r: Result<
    DashboardReply<String>,
    ErrorReply,
>)
    ensures
        if is_reserved_path(path@) {
            r == Err::<DashboardReply<String>, ErrorReply>(
                error::error_reply(404, Message::Fixed("API route does not exist")),
            )
        } else {
            r matches Ok(reply) && is_entry_page(reply, index@, headers::opt_view(variable))
        },
{
    if has_prefix(path, "/api/") || same(path, "/api") || same(path, "/ws") {
        Err(error_response(404, Message::Fixed("API route does not exist")))
    } else {
        Ok(dashboard_index(index, variable))
    }
}

/// The headers of the metrics: no browser keeps them.
pub fn metrics_headers() -> (r: Vec<(&'static str, &'static str)>)
    ensures
        r@ == seq![
            ("content-type", "text/plain; version=0.0.4; charset=utf-8"),
            ("cache-control", "no-store"),
        ],
{
    vec![
        ("content-type", "text/plain; version=0.0.4; charset=utf-8"),
        ("cache-control", "no-store"),
    ]
}

/// The timeline of a turn, as far as the process still holds it.
pub fn turn_trace_reply(root_turn_id: String, found: Option<Json>) -> (r: Result<Reply, ErrorReply>)
    ensures
        r == match found {
            Some(trace) => Ok::<Reply, ErrorReply>(Reply { status: 200, body: Body::Value(trace) }),
            None => Err(
                error::error_reply(
                    404,
                    Message::Around {
                        before: "No retained observability timeline exists for turn '",
                        value: root_turn_id,
                        after: "'",
                    },
                ),
            ),
        },
{
    match found {
        Some(trace) => Ok(value_reply(200, trace)),
        None => Err(
            error_response(
                404,
                Message::Around {
                    before: "No retained observability timeline exists for turn '",
                    value: root_turn_id,
                    after: "'",
                },
            ),
        ),
    }
}

/// The reason phrase that the HTTP library has for a status, `None` where it has none.
pub uninterp spec fn reason_phrase(status: u16) -> Option<Seq<char>>;

/// `axum::http::StatusCode::from_u16`, then `canonical_reason`: the reason phrase of the status,
/// which is a function of the status alone.
#[verifier::external_body]
fn canonical_reason(status: u16) -> (r: Option<&'static str>)
    ensures
        headers::opt_view(r) == reason_phrase(status),
{
    axum::http::StatusCode::from_u16(status).ok().and_then(|code| code.canonical_reason())
}

/// The sentence for a failure that the web framework answered by itself.
pub open spec fn framework_failure(status: u16, reason: Option<Seq<char>>) -> Seq<char> {
    if status == 400 || status == 422 {
        "Invalid request"@
    } else if status == 405 {
        "Method is not allowed for this API route"@
    } else if status == 413 {
        "Request body exceeds the configured limit"@
    } else if status == 415 {
        "Unsupported request content type"@
    } else if 500 <= status < 600 {
        "Unhandled API failure"@
    } else {
        match reason {
            Some(text) => text,
            None => "Request failed"@,
        }
    }
}

/// Whether an answer is replaced by the error envelope: a failure of an API path that is not JSON
/// yet.
pub open spec fn needs_envelope(
    path: Seq<char>,
    status: u16,
    content_type: Option<Seq<char>>,
) -> bool {
    &&& path == "/api"@ || text::starts_with(path, "/api/"@)
    &&& 400 <= status < 600
    &&& !(content_type matches Some(value) && text::starts_with(value, "application/json"@))
}

/// The envelope for a failure of the web framework, given the reason phrase of its status.
pub fn framework_error(status: u16, reason: Option<&'static str>) -> (r: ErrorReply)
    ensures
        r.status == status,
        r.code == error::code_for_status(status),
        r.message@ == if status == 500 {
            error::INTERNAL_MESSAGE@
        } else {
            framework_failure(status, headers::opt_view(reason))
        },
{
    let message: &'static str = if status == 400 || status == 422 {
        "Invalid request"
    } else if status == 405 {
        "Method is not allowed for this API route"
    } else if status == 413 {
        "Request body exceeds the configured limit"
    } else if status == 415 {
        "Unsupported request content type"
    } else if 500 <= status && status < 600 {
        "Unhandled API failure"
    } else {
        match reason {
            Some(text) => text,
            None => "Request failed",
        }
    };
    error_response(status, Message::Fixed(message))
}

/// The envelope that replaces an answer, `None` where the answer stays as it is.
///
/// Rejections of the web framework happen before any handler runs. They are brought into the same
/// envelope, while successful and already structured answers stay untouched.
pub fn normalize_api_error_response(
    path: &str,
    status: u16,
    content_type: Option<&str>,
) -> (r: Option<ErrorReply>)
    ensures
        r is Some == needs_envelope(path@, status, headers::opt_view(content_type)),
        r matches Some(reply) ==> {
            &&& reply.status == status
            &&& reply.code == error::code_for_status(status)
            &&& reply.message@ == if status == 500 {
                error::INTERNAL_MESSAGE@
            } else {
                framework_failure(status, reason_phrase(status))
            }
        },
{
    let is_api: bool = same(path, "/api") || has_prefix(path, "/api/");
    if !is_api || !(400 <= status && status < 600) {
        return None;
    }
    match content_type {
        Some(value) => {
            if has_prefix(value, "application/json") {
                return None;
            }
        },
        None => {},
    }
    Some(framework_error(status, canonical_reason(status)))
}

/// The headers that survive when an answer is replaced by the error envelope.
pub fn keeps_header(name: &str) -> (r: bool)
    ensures
        r == (name@ == "allow"@ || name@ == "retry-after"@ || name@ == "www-authenticate"@),
{
    same(name, "allow") || same(name, "retry-after") || same(name, "www-authenticate")
}

/// The trace identifier that a caller brought along, where it is usable.
pub open spec fn caller_trace_id(headers: &HeaderMap) -> Option<Seq<char>> {
    match headers.header("x-morphz-trace-id"@) {
        HeaderView::Text(text) if ident::is_trace_id(text) => Some(text),
        _ => None,
    }
}

/// The trace identifier of a request: the caller's where it is usable, else a fresh one.
pub fn request_trace_id(headers: &HeaderMap, fresh: String) -> (r: String)
    ensures
        r@ == match caller_trace_id(headers) {
            Some(text) => text,
            None => fresh@,
        },
{
    match headers.get("x-morphz-trace-id") {
        HeaderText::Text(text) => if valid_trace_id(text) {
            text.to_owned()
        } else {
            fresh
        },
        _ => fresh,
    }
}

/// The route under which a request is counted.
pub fn observed_route(matched: Option<String>) -> (r: Text)
    ensures
        r == match matched {
            Some(route) => Text::Owned(route),
            None => Text::Fixed("__unmatched__"),
        },
{
    match matched {
        Some(route) => Text::Owned(route),
        None => Text::Fixed("__unmatched__"),
    }
}

/// The class under which a status is counted.
pub fn status_class(status: u16) -> (r: String)
    ensures
        r@ == text::decimal((status / 100) as nat) + "xx"@,
{
    join(decimal_text((status / 100) as u64).as_str(), "xx")
}

proof fn lemma_joined_split(segments: Seq<Seq<char>>)
    requires
        forall|i: int, j: int|
            0 <= i < segments.len() && 0 <= j < segments[i].len() ==> #[trigger] segments[i][j]
                != '/',
    ensures
        joined(text::split(joined(segments), '/')) == joined(segments),
        forall|i: int|
            0 <= i < text::split(joined(segments), '/').len() ==> (#[trigger] text::split(
                joined(segments),
                '/',
            )[i]).len() == 0 || segments.contains(text::split(joined(segments), '/')[i]),
    decreases segments.len(),
{
    if segments.len() == 0 {
        let pieces = text::split(Seq::<char>::empty(), '/');
        assert(pieces =~= seq![Seq::<char>::empty()]);
        assert(pieces.drop_last() =~= Seq::<Seq<char>>::empty());
        reveal_with_fuel(joined, 2);
        assert(joined(pieces) =~= Seq::<char>::empty());
    } else {
        let front = segments.drop_last();
        let last = segments.last();
        assert forall|i: int, j: int|
            0 <= i < front.len() && 0 <= j < front[i].len() implies #[trigger] front[i][j]
            != '/' by {
            assert(front[i][j] == segments[i][j]);
        }
        lemma_joined_split(front);
        let before = text::split(joined(front), '/');
        if last.len() > 0 {
            assert forall|j: int| 0 <= j < last.len() implies last[j] != '/' by {
                assert(segments[segments.len() - 1][j] != '/');
            }
            text::lemma_split_concat(joined(front), last, '/');
            text::lemma_split_single(last, '/');
            let all = text::split(joined(segments), '/');
            assert(all =~= before.push(last));
            assert(all.drop_last() =~= before);
        }
        let all = text::split(joined(segments), '/');
        assert forall|i: int| 0 <= i < all.len() implies (#[trigger] all[i]).len() == 0
            || segments.contains(all[i]) by {
            if i < before.len() {
                assert(all[i] == before[i]);
                if before[i].len() > 0 {
                    let k = choose|k: int| 0 <= k < front.len() && front[k] == before[i];
                    assert(segments[k] == all[i]);
                }
            } else {
                assert(all[i] == segments[segments.len() - 1]);
            }
        }
    }
}

proof fn lemma_joined_chars(segments: Seq<Seq<char>>, i: int)
    requires
        0 <= i < joined(segments).len(),
    ensures
        joined(segments)[i] == '/' || exists|k: int, j: int|
            0 <= k < segments.len() && 0 <= j < segments[k].len() && #[trigger] segments[k][j]
                == joined(segments)[i],
        joined(segments)[0] == '/',
    decreases segments.len(),
{
    let front = segments.drop_last();
    let last = segments.last();
    if last.len() == 0 {
        lemma_joined_chars(front, i);
        if joined(front)[i] != '/' {
            let (k, j) = choose|k: int, j: int|
                0 <= k < front.len() && 0 <= j < front[k].len() && #[trigger] front[k][j] == joined(
                    front,
                )[i];
            assert(segments[k][j] == joined(segments)[i]);
        }
    } else {
        if joined(front).len() > 0 {
            lemma_joined_chars(front, 0);
        }
        if i < joined(front).len() {
            lemma_joined_chars(front, i);
            if joined(front)[i] != '/' {
                let (k, j) = choose|k: int, j: int|
                    0 <= k < front.len() && 0 <= j < front[k].len() && #[trigger] front[k][j]
                        == joined(front)[i];
                assert(segments[k][j] == joined(segments)[i]);
            }
        } else if i > joined(front).len() {
            assert(segments[segments.len() - 1][i - joined(front).len() - 1] == joined(
                segments,
            )[i]);
        }
    }
}

/// A normal form starts and ends with a slash.
pub proof fn law_base_path_is_a_directory(value: Seq<char>)
    ensures
        base_path(value) matches Ok(path) ==> path.len() > 0 && path[0] == '/' && path.last()
            == '/',
{
    reveal_strlit("/");
    let path = text::trimmed(value);
    if path.len() != 0 && path != "/"@ && base_path(value) is Ok {
        let segments = text::split(path, '/');
        if joined(segments).len() > 0 {
            lemma_joined_chars(segments, 0);
        }
    }
}

/// A normal form is accepted again and is its own normal form.
pub proof fn law_base_path_normalization_is_idempotent(value: Seq<char>)
    ensures
        base_path(value) matches Ok(path) ==> base_path(path) == Ok::<Seq<char>, Seq<char>>(path),
{
    if base_path(value) is Ok {
        let path = base_path(value)->Ok_0;
        law_base_path_is_a_directory(value);
        reveal_strlit("/");
        reveal_strlit(".");
        reveal_strlit("..");
        assert(!text::is_space('/'));
        assert(text::trimmed(path) == path);
        if path == "/"@ {
        } else {
            let given = text::trimmed(value);
            let segments = text::split(given, '/');
            text::lemma_split_pieces(given, '/');
            lemma_joined_split(segments);
            let j = joined(segments);
            text::lemma_split_concat(j, Seq::<char>::empty(), '/');
            assert(j.push('/') + Seq::<char>::empty() =~= j.push('/'));
            let again = text::split(path, '/');
            assert(again =~= text::split(j, '/').push(Seq::<char>::empty()));
            assert(again.drop_last() =~= text::split(j, '/'));
            assert(joined(again) == j);
            assert forall|i: int| 0 <= i < path.len() implies base_path_char(
                #[trigger] path[i],
            ) by {
                if i < j.len() {
                    lemma_joined_chars(segments, i);
                    if j[i] != '/' {
                        let (k, m) = choose|k: int, m: int|
                            0 <= k < segments.len() && 0 <= m < segments[k].len()
                                && #[trigger] segments[k][m] == j[i];
                        let c = segments[k][m];
                        assert(given.contains(c));
                        let p = choose|p: int| 0 <= p < given.len() && given[p] == c;
                        assert(base_path_char(given[p]));
                    }
                }
            }
            assert forall|i: int| 0 <= i < again.len() implies !is_dot_segment(
                #[trigger] again[i],
            ) by {
                if i < again.len() - 1 {
                    assert(again[i] == text::split(j, '/')[i]);
                    if again[i].len() > 0 {
                        let k = choose|k: int| 0 <= k < segments.len() && segments[k] == again[i];
                        assert(!is_dot_segment(segments[k]));
                    }
                }
            }
        }
    }
}

/// A missing API route is never answered with the dashboard page, every other path is.
pub proof fn law_fallback_never_masks_the_api(rest: Seq<char>)
    ensures
        is_reserved_path("/api/"@ + rest),
{
    let path = "/api/"@ + rest;
    assert(path.subrange(0, "/api/"@.len() as int) =~= "/api/"@);
}

/// An answer in the error envelope is not wrapped a second time.
pub proof fn law_envelopes_are_not_rewrapped(path: Seq<char>, status: u16, rest: Seq<char>)
    ensures
        !needs_envelope(path, status, Some("application/json"@ + rest)),
{
    let value = "application/json"@ + rest;
    assert(value.subrange(0, "application/json"@.len() as int) =~= "application/json"@);
}

/// A base path is refused for cause only: it starts with a slash, holds nothing but letters, digits
/// and the marks that are safe in an address, and has no dot segments. A blank one is the root.
pub proof fn law_base_paths_are_refused_for_cause_only(value: Seq<char>)
    ensures
        ({
            let path = text::trimmed(value);
            let root = path.len() == 0 || path == "/"@;
            let safe = forall|i: int|
                0 <= i < path.len() ==> ({
                    let c = #[trigger] path[i];
                    text::is_alphanumeric(c) || c == '/' || c == '-' || c == '_' || c == '.' || c
                        == '~' || c == '%'
                });
            let dots = exists|i: int|
                0 <= i < text::split(path, '/').len() && (#[trigger] text::split(path, '/')[i]
                    == "."@ || text::split(path, '/')[i] == ".."@);
            &&& root ==> base_path(value) == Ok::<Seq<char>, Seq<char>>("/"@)
            &&& !root ==> (base_path(value) is Ok <==> path[0] == '/' && safe && !dots)
        }),
{
    let path = text::trimmed(value);
    if exists|i: int|
        0 <= i < text::split(path, '/').len() && is_dot_segment(
            #[trigger] text::split(path, '/')[i],
        ) {
        let i = choose|i: int|
            0 <= i < text::split(path, '/').len() && is_dot_segment(
                #[trigger] text::split(path, '/')[i],
            );
        assert(text::split(path, '/')[i] == "."@ || text::split(path, '/')[i] == ".."@);
    }
    if exists|i: int|
        0 <= i < text::split(path, '/').len() && (#[trigger] text::split(path, '/')[i] == "."@
            || text::split(path, '/')[i] == ".."@) {
        let i = choose|i: int|
            0 <= i < text::split(path, '/').len() && (#[trigger] text::split(path, '/')[i] == "."@
                || text::split(path, '/')[i] == ".."@);
        assert(is_dot_segment(text::split(path, '/')[i]));
    }
}

/// Joining leaves out the empty segments and puts a slash before each of the others, in order.
pub proof fn law_segments_are_joined_in_order(segments: Seq<Seq<char>>, segment: Seq<char>)
    ensures
        joined(Seq::<Seq<char>>::empty()) == Seq::<char>::empty(),
        segment.len() == 0 ==> joined(segments.push(segment)) == joined(segments),
        segment.len() > 0 ==> joined(segments.push(segment)) == joined(segments) + seq!['/']
            + segment,
{
    assert(segments.push(segment).drop_last() =~= segments);
    assert(segments.push(segment).last() == segment);
    assert(joined(segments).push('/') =~= joined(segments) + seq!['/']);
}

/// The entry page is the given one with the configured base path in its base element, and with
/// nothing else changed; a page without a base element is given out as it is.
pub proof fn law_pages_get_their_base(before: Seq<char>, after: Seq<char>, base: Seq<char>)
    requires
        text::find_from(before + "<base href=\"/\">"@ + after, "<base href=\"/\">"@, 0) == Some(
            before.len() as int,
        ),
    ensures
        index_with_base(before + "<base href=\"/\">"@ + after, base) == before + (
        "<base href=\""@ + base + "\">"@) + after,
{
    let pattern = "<base href=\"/\">"@;
    let page = before + pattern + after;
    assert(page.subrange(0, before.len() as int) =~= before);
    assert(page.subrange(before.len() as int + pattern.len(), page.len() as int) =~= after);
}

/// A page without a base element is given out as it is.
pub proof fn law_pages_without_base_stay_as_they_are(index: Seq<char>, base: Seq<char>)
    requires
        text::find_from(index, "<base href=\"/\">"@, 0) is None,
        text::find_from(index, "<base href=\"/\" />"@, 0) is None,
    ensures
        index_with_base(index, base) == index,
{
}

/// The entry page is served under the configured path, under the root where none is configured or the
/// configured one is refused, as a page that is not kept without asking.
pub proof fn law_entry_pages_are_served_under_their_path(
    reply: DashboardReply<String>,
    index: Seq<char>,
    variable: Option<Seq<char>>,
)
    requires
        is_entry_page(reply, index, variable),
    ensures
        reply.status == 200,
        reply.headers@.len() == 2,
        reply.headers@[0] == ("content-type", "text/html; charset=utf-8"),
        reply.headers@[1] == ("cache-control", "no-cache"),
        variable matches Some(value) ==> (base_path(value) matches Ok(path) ==> reply.body@
            == index_with_base(index, path)),
        variable matches Some(value) ==> (base_path(value) is Err ==> reply.body@
            == index_with_base(index, "/"@)),
        variable is None ==> reply.body@ == index_with_base(index, "/"@),
{
    reveal_strlit("/");
    if variable is None {
        assert(configured_base_path(variable) == base_path("/"@));
        law_base_path_is_a_directory("/"@);
        assert(!text::is_space('/'));
        assert(text::trimmed("/"@) == "/"@);
    }
}

/// Paths of the programming interface and of the socket never show the page; every other path does.
pub proof fn law_reserved_paths(path: Seq<char>)
    ensures
        is_reserved_path("/api"@),
        is_reserved_path("/ws"@),
        text::starts_with(path, "/api/"@) ==> is_reserved_path(path),
        is_reserved_path(path) ==> text::starts_with(path, "/api/"@) || path == "/api"@ || path
            == "/ws"@,
{
}

/// What a failure of the framework is told as: by its status, and by the phrase for the status where
/// there are no words of our own.
pub proof fn law_framework_failures_are_told_by_status(status: u16, reason: Option<Seq<char>>)
    ensures
        status == 400 || status == 422 ==> framework_failure(status, reason) == "Invalid request"@,
        status == 405 ==> framework_failure(status, reason)
            == "Method is not allowed for this API route"@,
        status == 413 ==> framework_failure(status, reason)
            == "Request body exceeds the configured limit"@,
        status == 415 ==> framework_failure(status, reason) == "Unsupported request content type"@,
        500 <= status <= 599 ==> framework_failure(status, reason) == "Unhandled API failure"@,
        status < 400 || 400 < status < 405 || 405 < status < 413 || status == 414 || 415 < status
            < 422 || 422 < status < 500 || status >= 600 ==> framework_failure(status, reason)
            == match reason {
            Some(phrase) => phrase,
            None => "Request failed"@,
        },
{
}

/// An answer is wrapped exactly where it is a failure of the programming interface that is not
/// wrapped yet.
pub proof fn law_bare_failures_are_wrapped(
    path: Seq<char>,
    status: u16,
    content_type: Option<Seq<char>>,
)
    ensures
        ({
            let api = path == "/api"@ || text::starts_with(path, "/api/"@);
            let wrapped = content_type matches Some(value) && text::starts_with(
                value,
                "application/json"@,
            );
            &&& needs_envelope(path, status, content_type) ==> api && 400 <= status <= 599
                && !wrapped
            &&& api && 400 <= status <= 599 && !wrapped ==> needs_envelope(
                path,
                status,
                content_type,
            )
        }),
{
}

/// A caller's trace identifier is taken as it was sent, where it is one.
pub proof fn law_trace_identifiers_of_callers_are_kept(headers: &HeaderMap, text: Seq<char>)
    ensures
        headers.header("x-morphz-trace-id"@) == HeaderView::Text(text) ==> caller_trace_id(headers)
            == if ident::is_trace_id(text) {
            Some(text)
        } else {
            None
        },
        !(headers.header("x-morphz-trace-id"@) is Text) ==> caller_trace_id(headers) is None,
{
}

} // verus!
