use morphz_web::dashboard::{
    configured_dashboard_base_path, dashboard_fallback, dashboard_file, dashboard_index,
    dashboard_index_html, framework_error, keeps_header, metrics_headers,
    normalize_api_error_response, normalize_dashboard_base_path, observed_route, request_trace_id,
    status_class, turn_trace_reply, DashboardAssets, DashboardFile,
};
use morphz_web::error::{
    error_response, http_error_code, sdk_error_response, unauthorized_response, ErrorCode, Message,
    SdkError, SdkErrorCode,
};
use morphz_web::headers::HeaderMap;
use morphz_web::json::Json;
use morphz_web::recent::{RecentDashboardEventIds, DASHBOARD_RECENT_EVENT_IDS};
use morphz_web::reply::Body;

/// A small dashboard with the parts that every build of it has.
fn assets() -> DashboardAssets<'static> {
    DashboardAssets {
        index: "<!doctype html><base href=\"/\" /><link rel=\"stylesheet\" href=\"./assets/app.css\" /><script src=\"./assets/app.js\"></script>",
        app_js: b"start();",
        app_css: b"body {}",
        favicon: b"<svg></svg>",
        icons: b"<svg><g/></svg>",
    }
}

#[test]
fn dashboard_event_deduplication_is_bounded_and_retryable() {
    let mut recent = RecentDashboardEventIds::default();
    assert!(recent.insert("event-a"));
    assert!(!recent.insert("event-a"));
    recent.remove("event-a");
    assert!(recent.insert("event-a"));

    for index in 0..=DASHBOARD_RECENT_EVENT_IDS {
        assert!(recent.insert(&format!("event-{index}")));
    }
    assert!(recent.order.len() <= DASHBOARD_RECENT_EVENT_IDS);
    assert!(recent.ids.len() <= DASHBOARD_RECENT_EVENT_IDS);
}

#[test]
fn the_oldest_event_is_forgotten_first() {
    let mut recent = RecentDashboardEventIds::default();
    for index in 0..DASHBOARD_RECENT_EVENT_IDS {
        assert!(recent.insert(&format!("event-{index}")));
    }
    assert!(!recent.insert("event-0"));
    assert!(recent.insert("one-more"));
    assert!(!recent.insert("event-1"));
    assert!(recent.insert("event-0"));
}

#[test]
fn embedded_dashboard_assets_form_a_self_contained_entrypoint() {
    let assets = assets();
    let index = assets.index;
    assert!(index.contains("./assets/app.js"));
    assert!(index.contains("./assets/app.css"));
    assert!(index.contains("<base href=\"/\" />"));
    assert!(!dashboard_file(&assets, DashboardFile::AppScript).body.is_empty());
    assert!(!dashboard_file(&assets, DashboardFile::AppStyle).body.is_empty());
    assert!(
        std::str::from_utf8(dashboard_file(&assets, DashboardFile::Favicon).body)
            .unwrap()
            .contains("<svg")
    );
}

#[test]
fn files_of_the_dashboard_are_served_as_they_are() {
    let assets = assets();
    let of = |file: DashboardFile| {
        let reply = dashboard_file(&assets, file);
        assert_eq!(reply.status, 200);
        assert_eq!(reply.headers[1], ("cache-control", "no-cache"));
        (reply.headers[0].1, reply.body)
    };
    assert_eq!(
        of(DashboardFile::AppScript),
        ("text/javascript; charset=utf-8", assets.app_js)
    );
    assert_eq!(of(DashboardFile::AppStyle), ("text/css; charset=utf-8", assets.app_css));
    assert_eq!(of(DashboardFile::Favicon), ("image/svg+xml", assets.favicon));
    assert_eq!(of(DashboardFile::Icons), ("image/svg+xml", assets.icons));
    assert_eq!(
        metrics_headers(),
        vec![
            ("content-type", "text/plain; version=0.0.4; charset=utf-8"),
            ("cache-control", "no-store"),
        ]
    );
}

#[test]
fn the_entry_page_is_rebased_on_what_is_configured() {
    let index = assets().index;
    let page = dashboard_index(index, Some("/console"));
    assert_eq!(page.status, 200);
    assert_eq!(
        page.headers,
        vec![
            ("content-type", "text/html; charset=utf-8"),
            ("cache-control", "no-cache"),
        ]
    );
    assert!(page.body.contains("<base href=\"/console/\">"));
    assert!(dashboard_index(index, None).body.contains("<base href=\"/\">"));
    assert!(dashboard_index(index, Some("../x")).body.contains("<base href=\"/\">"));
    assert_eq!(configured_dashboard_base_path(None).ok().unwrap(), "/");
    assert_eq!(configured_dashboard_base_path(Some("/a")).ok().unwrap(), "/a/");
    assert!(configured_dashboard_base_path(Some("a")).is_err());
}

#[test]
fn dashboard_base_path_is_normalized_and_injected_into_embedded_html() {
    assert_eq!(normalize_dashboard_base_path("").ok().unwrap(), "/");
    assert_eq!(
        normalize_dashboard_base_path("/console").ok().unwrap(),
        "/console/"
    );
    assert_eq!(
        normalize_dashboard_base_path("/internal//console///")
            .ok()
            .unwrap(),
        "/internal/console/"
    );
    assert!(normalize_dashboard_base_path("console").is_err());
    assert!(normalize_dashboard_base_path("/console/../admin").is_err());
    assert!(normalize_dashboard_base_path("/console/\"bad").is_err());

    let cloud_index = dashboard_index_html(assets().index, "/console/");
    assert!(cloud_index.contains("<base href=\"/console/\">"));
    assert!(cloud_index.contains("./assets/app.js"));
}

#[test]
fn base_path_refusals_say_why() {
    let refused = |value: &str| normalize_dashboard_base_path(value).err().unwrap().message;
    assert_eq!(
        refused("console"),
        "MORPHZ_DASHBOARD_BASE_PATH must start with '/'"
    );
    assert_eq!(
        refused("/a b"),
        "MORPHZ_DASHBOARD_BASE_PATH contains a character that is unsafe in an HTML base URL"
    );
    assert_eq!(
        refused("/a/./b"),
        "MORPHZ_DASHBOARD_BASE_PATH cannot contain dot segments"
    );
    assert_eq!(normalize_dashboard_base_path("  /a  ").ok().unwrap(), "/a/");
    assert_eq!(normalize_dashboard_base_path("///").ok().unwrap(), "/");
}

#[test]
fn normalizing_a_base_path_again_changes_nothing() {
    for value in ["", "/", "/console", "/internal//console///", " /a/%20/~b "] {
        let once = normalize_dashboard_base_path(value).ok().unwrap();
        assert_eq!(normalize_dashboard_base_path(&once).ok().unwrap(), once);
        assert!(once.starts_with('/'));
        assert!(once.ends_with('/'));
    }
}

#[test]
fn only_the_first_base_tag_is_rewritten() {
    assert_eq!(
        dashboard_index_html("<base href=\"/\" /><base href=\"/\" />", "/x/"),
        "<base href=\"/x/\"><base href=\"/\" />"
    );
    assert_eq!(dashboard_index_html("no base", "/x/"), "no base");
}

#[test]
fn fallback_serves_pages_but_not_the_api() {
    let fallback = |path: &str| dashboard_fallback(path, assets().index, None);
    let route = fallback("/contexts/context-a/threads/thread-b").ok().unwrap();
    assert_eq!(route.status, 200);
    assert!(route.headers.contains(&("content-type", "text/html; charset=utf-8")));
    assert!(route.body.contains("./assets/app.js"));
    assert!(fallback("/apiary").is_ok());
    for path in ["/api/not-real", "/api", "/ws"] {
        let refusal = fallback(path).err().unwrap();
        assert_eq!(refusal.status, 404, "{path}");
        assert_eq!(refusal.message.text(), "API route does not exist");
    }
}

#[test]
fn api_failures_have_one_envelope_and_hide_internal_details() {
    let bad = error_response(400, Message::Owned("bad input".to_string()));
    assert_eq!(bad.code.as_str(), "invalid_argument");
    assert_eq!(bad.message.text(), "bad input");

    let internal = error_response(
        500,
        Message::Owned("database password and implementation detail".to_string()),
    );
    assert_eq!(internal.code.as_str(), "internal");
    assert_eq!(
        internal.message.text(),
        "The server could not complete the request"
    );

    let unavailable = sdk_error_response(SdkError {
        code: SdkErrorCode::Unavailable,
        message: Message::Fixed(
            "Edge pairing storage is temporarily unavailable; retry the same request",
        ),
    });
    assert_eq!(unavailable.status, 503);
    assert_eq!(unavailable.code.as_str(), "unavailable");

    let rejection = normalize_api_error_response("/api/objectives", 400, Some("text/plain"))
        .unwrap();
    assert_eq!(rejection.status, 400);
    assert_eq!(rejection.code.as_str(), "invalid_argument");
    assert_eq!(rejection.message.text(), "Invalid request");
    assert!(normalize_api_error_response("/assets/missing.js", 404, Some("text/plain")).is_none());
    assert!(normalize_api_error_response("/api/x", 400, Some("application/json")).is_none());
    assert!(normalize_api_error_response("/api/x", 200, None).is_none());
}

#[test]
fn framework_failures_are_told_in_standard_words() {
    let told = |status: u16| {
        normalize_api_error_response("/api/x", status, None)
            .unwrap()
            .message
            .text()
    };
    assert_eq!(told(405), "Method is not allowed for this API route");
    assert_eq!(told(413), "Request body exceeds the configured limit");
    assert_eq!(told(415), "Unsupported request content type");
    assert_eq!(told(422), "Invalid request");
    assert_eq!(told(404), "Not Found");
    assert_eq!(told(500), "The server could not complete the request");
    assert_eq!(told(502), "Unhandled API failure");
    assert_eq!(told(499), "Request failed");
    assert_eq!(framework_error(410, Some("Gone")).message.text(), "Gone");
}

#[test]
fn every_status_has_its_code() {
    let expected = [
        (400, ErrorCode::InvalidArgument),
        (401, ErrorCode::Unauthorized),
        (403, ErrorCode::Forbidden),
        (404, ErrorCode::NotFound),
        (409, ErrorCode::Conflict),
        (413, ErrorCode::ResourceExhausted),
        (416, ErrorCode::InvalidArgument),
        (418, ErrorCode::RequestFailed),
        (422, ErrorCode::InvalidArgument),
        (429, ErrorCode::ResourceExhausted),
        (502, ErrorCode::Internal),
        (503, ErrorCode::Unavailable),
        (504, ErrorCode::DeadlineExceeded),
        (500, ErrorCode::Internal),
    ];
    for (status, code) in expected {
        assert_eq!(http_error_code(status), code, "{status}");
    }
    let unauthorized = unauthorized_response();
    assert_eq!(unauthorized.status, 401);
    assert_eq!(unauthorized.code, ErrorCode::Unauthorized);
}

#[test]
fn every_backend_refusal_has_its_status() {
    let expected = [
        (SdkErrorCode::InvalidArgument, 400, "invalid_argument"),
        (SdkErrorCode::Unauthorized, 401, "unauthorized"),
        (SdkErrorCode::Forbidden, 403, "forbidden"),
        (SdkErrorCode::NotFound, 404, "not_found"),
        (SdkErrorCode::Conflict, 409, "conflict"),
        (SdkErrorCode::Unavailable, 503, "unavailable"),
        (SdkErrorCode::Internal, 500, "internal"),
    ];
    for (code, status, name) in expected {
        let reply = sdk_error_response(SdkError {
            code,
            message: Message::Fixed("words"),
        });
        assert_eq!(reply.status, status);
        assert_eq!(reply.code.as_str(), name);
        let shown = reply.message.text();
        if status == 500 {
            assert_eq!(shown, "The server could not complete the request");
        } else {
            assert_eq!(shown, "words");
        }
    }
}

#[test]
fn trace_identifiers_are_taken_over_where_they_are_usable() {
    let mut headers = HeaderMap::new();
    assert_eq!(request_trace_id(&headers, "fresh".to_string()), "fresh");
    headers.append(
        "x-morphz-trace-id".to_string(),
        Some("trace-1.a_c".to_string()),
    );
    assert_eq!(request_trace_id(&headers, "fresh".to_string()), "trace-1.a_c");
    let mut spaced = HeaderMap::new();
    spaced.append("x-morphz-trace-id".to_string(), Some("a b".to_string()));
    assert_eq!(request_trace_id(&spaced, "fresh".to_string()), "fresh");
}

#[test]
fn requests_are_counted_by_route_and_class() {
    assert_eq!(status_class(204), "2xx");
    assert_eq!(status_class(503), "5xx");
    assert_eq!(observed_route(None).as_str(), "__unmatched__");
    assert_eq!(observed_route(Some("/api/x".to_string())).as_str(), "/api/x");
    assert!(!keeps_header("content-length"));
    assert!(keeps_header("allow"));
    assert!(keeps_header("retry-after"));
    assert!(keeps_header("www-authenticate"));
}

#[test]
fn a_turn_without_a_timeline_is_not_found() {
    let found = turn_trace_reply("turn-a".to_string(), Some(Json::Bool(true))).ok().unwrap();
    assert_eq!(found.status, 200);
    assert!(matches!(found.body, Body::Value(Json::Bool(true))));
    let missing = turn_trace_reply("turn-a".to_string(), None).err().unwrap();
    assert_eq!(missing.status, 404);
    assert_eq!(
        missing.message.text(),
        "No retained observability timeline exists for turn 'turn-a'"
    );
}
