use onedrive_driver_rs::error::{
    parse_upstream_message, ErrorMessage, GraphError, OAuthErrorResponse, OneDriveApiError,
    RequestFailure, ServiceError,
};

fn request_failed(is_timeout: bool, is_connect: bool) -> OneDriveApiError {
    OneDriveApiError::RequestFailed(RequestFailure {
        is_timeout,
        is_connect,
        description: "boom".to_string(),
    })
}

fn answer(error: OneDriveApiError) -> ErrorMessage {
    ErrorMessage::from_api_error(error, None, None)
}

#[test]
fn new_and_with_request_path() {
    let m = ErrorMessage::new(404, "/a", "missing");
    assert_eq!((m.status, m.request_path.as_str(), m.message.as_str()), (404, "/a", "missing"));
    let m = m.with_request_path("/b");
    assert_eq!((m.status, m.request_path.as_str(), m.message.as_str()), (404, "/b", "missing"));
}

#[test]
fn request_failures_are_bad_gateway() {
    let m = answer(request_failed(true, true));
    assert_eq!((m.status, m.message.as_str()), (502, "OneDrive request timed out"));
    let m = answer(request_failed(false, true));
    assert_eq!((m.status, m.message.as_str()), (502, "Failed to connect to OneDrive"));
    let m = answer(request_failed(false, false));
    assert_eq!((m.status, m.message.as_str()), (502, "OneDrive request failed"));
    assert_eq!(m.request_path, "");
}

#[test]
fn service_errors() {
    let m = answer(OneDriveApiError::Service(ServiceError::MissingOneDriveConfig));
    assert_eq!((m.status, m.message.as_str()), (409, "OneDrive config is missing"));
    let m = answer(OneDriveApiError::Service(ServiceError::MissingOneDriveConfigField(
        "ONEDRIVE_CLIENT_ID".to_string(),
    )));
    assert_eq!(
        (m.status, m.message.as_str()),
        (409, "ONEDRIVE_CLIENT_ID is empty in OneDrive config")
    );
    let m = answer(OneDriveApiError::Service(ServiceError::Database("locked".to_string())));
    assert_eq!((m.status, m.message.as_str()), (500, "Database operation failed"));
}

#[test]
fn url_and_token_errors() {
    let m = answer(OneDriveApiError::GraphUrlBuild("bad".to_string()));
    assert_eq!((m.status, m.message.as_str()), (500, "Failed to build Microsoft Graph request URL"));
    let m = answer(OneDriveApiError::InvalidExpiresIn(-5));
    assert_eq!(
        (m.status, m.message.as_str()),
        (502, "Invalid expires_in value returned by OneDrive: -5")
    );
    let m = answer(OneDriveApiError::InvalidExpiresIn(0));
    assert_eq!(m.message, "Invalid expires_in value returned by OneDrive: 0");
    let m = answer(OneDriveApiError::InvalidExpiresIn(i64::MIN));
    assert_eq!(m.message, "Invalid expires_in value returned by OneDrive: -9223372036854775808");
}

#[test]
fn upstream_status_keeps_its_status() {
    let e = OneDriveApiError::UpstreamStatus { status: 404, body: "  ".to_string() };
    let m = answer(e);
    assert_eq!((m.status, m.message.as_str()), (404, "OneDrive upstream returned HTTP 404"));
    let e = OneDriveApiError::UpstreamStatus { status: 503, body: "\n down for maintenance \t".to_string() };
    let m = answer(e);
    assert_eq!((m.status, m.message.as_str()), (503, "down for maintenance"));
}

#[test]
fn upstream_graph_and_oauth_bodies() {
    let graph = GraphError {
        code: Some("itemNotFound".to_string()),
        message: Some("The resource could not be found.".to_string()),
    };
    let e = OneDriveApiError::UpstreamStatus { status: 404, body: "{...}".to_string() };
    let m = ErrorMessage::from_api_error(e, Some(graph), None);
    assert_eq!((m.status, m.message.as_str()), (404, "itemNotFound: The resource could not be found."));

    let oauth = OAuthErrorResponse {
        error: Some("invalid_grant".to_string()),
        error_description: Some("AADSTS70000: expired".to_string()),
    };
    let e = OneDriveApiError::UpstreamStatus { status: 400, body: "{...}".to_string() };
    let m = ErrorMessage::from_api_error(e, None, Some(oauth));
    assert_eq!((m.status, m.message.as_str()), (400, "invalid_grant: AADSTS70000: expired"));
}

#[test]
fn graph_error_text_prefers_complete_pairs() {
    let g = |c: Option<&str>, m: Option<&str>| GraphError {
        code: c.map(|s| s.to_string()),
        message: m.map(|s| s.to_string()),
    }
    .into_message();
    assert_eq!(g(Some("c"), Some("m")), "c: m");
    assert_eq!(g(Some(" "), Some("m")), "m");
    assert_eq!(g(None, Some(" m ")), " m ");
    assert_eq!(g(Some("c"), Some("\t")), "c");
    assert_eq!(g(Some("c"), None), "c");
    assert_eq!(g(Some(""), None), "OneDrive upstream returned an error");
    assert_eq!(g(None, None), "OneDrive upstream returned an error");
}

#[test]
fn oauth_error_text_prefers_complete_pairs() {
    let o = |c: Option<&str>, d: Option<&str>| OAuthErrorResponse {
        error: c.map(|s| s.to_string()),
        error_description: d.map(|s| s.to_string()),
    }
    .into_message();
    assert_eq!(o(Some("e"), Some("d")), "e: d");
    assert_eq!(o(None, Some("d")), "d");
    assert_eq!(o(Some("e"), Some("\u{3000}")), "e");
    assert_eq!(o(Some(" "), Some(" ")), "OneDrive upstream returned an error");
}

#[test]
fn upstream_message_prefers_graph_then_oauth_then_body() {
    let graph = GraphError { code: None, message: Some("g".to_string()) };
    let oauth = OAuthErrorResponse { error: Some("o".to_string()), error_description: None };
    assert_eq!(parse_upstream_message(500, "b", Some(graph), Some(oauth)), "g");
    let oauth = OAuthErrorResponse { error: Some("o".to_string()), error_description: None };
    assert_eq!(parse_upstream_message(500, "b", None, Some(oauth)), "o");
    assert_eq!(parse_upstream_message(500, " b ", None, None), "b");
    assert_eq!(parse_upstream_message(0, "", None, None), "OneDrive upstream returned HTTP 0");
    assert_eq!(parse_upstream_message(65535, "\u{a0}", None, None), "OneDrive upstream returned HTTP 65535");
}

#[test]
fn errors_describe_themselves() {
    assert_eq!(request_failed(false, false).describe(), "request failed: boom");
    assert_eq!(
        OneDriveApiError::Service(ServiceError::MissingOneDriveConfig).describe(),
        "onedrive config is missing"
    );
    assert_eq!(
        ServiceError::MissingOneDriveConfigField("X".to_string()).describe(),
        "X is empty in onedrive config"
    );
    assert_eq!(
        ServiceError::Database("gone".to_string()).describe(),
        "database operation failed: gone"
    );
    assert_eq!(
        OneDriveApiError::UpstreamStatus { status: 401, body: "nope".to_string() }.describe(),
        "upstream returned status 401: nope"
    );
    assert_eq!(
        OneDriveApiError::GraphUrlBuild("x".to_string()).describe(),
        "failed to build Graph URL: x"
    );
    assert_eq!(
        OneDriveApiError::InvalidExpiresIn(-1).describe(),
        "invalid expires_in value: -1"
    );
}
