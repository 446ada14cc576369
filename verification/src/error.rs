//! Errors of the OneDrive service and how they become the JSON error
//! message that the HTTP layer answers with.
use vstd::prelude::*;
use crate::text::{
    decimal, is_blank, is_blank_text, push_decimal, push_signed_decimal, push_text, signed_decimal,
    trim_text, trim_white, TrimClass,
};

verus! {

broadcast use vstd::string::group_string_axioms;

/// HTTP status 400.
pub const STATUS_BAD_REQUEST: u16 = 400;

/// HTTP status 401.
pub const STATUS_UNAUTHORIZED: u16 = 401;

/// HTTP status 404.
pub const STATUS_NOT_FOUND: u16 = 404;

/// HTTP status 409.
pub const STATUS_CONFLICT: u16 = 409;

/// HTTP status 500.
pub const STATUS_INTERNAL_SERVER_ERROR: u16 = 500;

/// HTTP status 502.
pub const STATUS_BAD_GATEWAY: u16 = 502;

/// What went wrong when a request to OneDrive could not be completed: the
/// classification that the HTTP client reported and its description.
pub struct RequestFailure {
    pub is_timeout: bool,
    pub is_connect: bool,
    pub description: String,
}

/// Failures of the service layer itself.
pub enum ServiceError {
    /// No OneDrive configuration has been stored yet.
    MissingOneDriveConfig,
    /// A stored configuration field (named here) is blank.
    MissingOneDriveConfigField(String),
    /// The database reported an error (its description).
    Database(String),
}

/// Failures of a call to the OneDrive API.
pub enum OneDriveApiError {
    RequestFailed(RequestFailure),
    Service(ServiceError),
    UpstreamStatus { status: u16, body: String },
    GraphUrlBuild(String),
    InvalidExpiresIn(i64),
}

/// The JSON body of an error answer.
pub struct ErrorMessage {
    pub status: u16,
    pub request_path: String,
    pub message: String,
}

/// The `error` object of a Microsoft Graph error body.
pub struct GraphError {
    pub code: Option<String>,
    pub message: Option<String>,
}

/// An OAuth error body.
pub struct OAuthErrorResponse {
    pub error: Option<String>,
    pub error_description: Option<String>,
}

// ---------------------------------------------------------------------------
// Specifications
// ---------------------------------------------------------------------------

pub open spec fn opt_view(o: Option<String>) -> Option<Seq<char>> {
    match o {
        Some(s) => Some(s@),
        None => None,
    }
}

/// The text of an upstream error body that carries an error code and a
/// description: both when both are present and not blank, else the
/// description, else the code, else a fixed text.
pub open spec fn code_and_detail_text(code: Option<Seq<char>>, detail: Option<Seq<char>>) -> Seq<char> {
    if code is Some && detail is Some && !is_blank(code->0) && !is_blank(detail->0) {
        code->0 + ": "@ + detail->0
    } else if detail is Some && !is_blank(detail->0) {
        detail->0
    } else if code is Some && !is_blank(code->0) {
        code->0
    } else {
        "OneDrive upstream returned an error"@
    }
}

pub open spec fn graph_error_text(e: GraphError) -> Seq<char> {
    code_and_detail_text(opt_view(e.code), opt_view(e.message))
}

pub open spec fn oauth_error_text(e: OAuthErrorResponse) -> Seq<char> {
    code_and_detail_text(opt_view(e.error), opt_view(e.error_description))
}

/// The message for an upstream error answer with the given status and body.
/// `graph` is the body read as a Graph error body, `oauth` the body read as
/// an OAuth error body, each `None` where the body is not one.
pub open spec fn upstream_text(
    status: u16,
    body: Seq<char>,
    graph: Option<GraphError>,
    oauth: Option<OAuthErrorResponse>,
) -> Seq<char> {
    match graph {
        Some(g) => graph_error_text(g),
        None => match oauth {
            Some(o) => oauth_error_text(o),
            None => if trim_white(body).len() == 0 {
                "OneDrive upstream returned HTTP "@ + decimal(status as nat)
            } else {
                trim_white(body)
            },
        },
    }
}

/// The HTTP status that answers an API error.
pub open spec fn api_error_status(e: OneDriveApiError) -> u16 {
    match e {
        OneDriveApiError::GraphUrlBuild(_) => STATUS_INTERNAL_SERVER_ERROR,
        OneDriveApiError::RequestFailed(_) => STATUS_BAD_GATEWAY,
        OneDriveApiError::InvalidExpiresIn(_) => STATUS_BAD_GATEWAY,
        OneDriveApiError::Service(ServiceError::MissingOneDriveConfig) => STATUS_CONFLICT,
        OneDriveApiError::Service(ServiceError::MissingOneDriveConfigField(_)) => STATUS_CONFLICT,
        OneDriveApiError::Service(ServiceError::Database(_)) => STATUS_INTERNAL_SERVER_ERROR,
        OneDriveApiError::UpstreamStatus { status, .. } => status,
    }
}

/// The message that answers an API error; `graph` and `oauth` are the
/// readings of an upstream error body (see `upstream_text`).
pub open spec fn api_error_text(
    e: OneDriveApiError,
    graph: Option<GraphError>,
    oauth: Option<OAuthErrorResponse>,
) -> Seq<char> {
    match e {
        OneDriveApiError::RequestFailed(f) => if f.is_timeout {
            "OneDrive request timed out"@
        } else if f.is_connect {
            "Failed to connect to OneDrive"@
        } else {
            "OneDrive request failed"@
        },
        OneDriveApiError::Service(ServiceError::MissingOneDriveConfig) => "OneDrive config is missing"@,
        OneDriveApiError::Service(ServiceError::MissingOneDriveConfigField(field)) => field@
            + " is empty in OneDrive config"@,
        OneDriveApiError::Service(ServiceError::Database(_)) => "Database operation failed"@,
        OneDriveApiError::UpstreamStatus { status, body } => upstream_text(status, body@, graph, oauth),
        OneDriveApiError::GraphUrlBuild(_) => "Failed to build Microsoft Graph request URL"@,
        OneDriveApiError::InvalidExpiresIn(n) => "Invalid expires_in value returned by OneDrive: "@
            + signed_decimal(n as int),
    }
}

/// How a service error describes itself.
pub open spec fn service_error_description(e: ServiceError) -> Seq<char> {
    match e {
        ServiceError::MissingOneDriveConfig => "onedrive config is missing"@,
        ServiceError::MissingOneDriveConfigField(field) => field@ + " is empty in onedrive config"@,
        ServiceError::Database(d) => "database operation failed: "@ + d@,
    }
}

/// How an API error describes itself.
pub open spec fn api_error_description(e: OneDriveApiError) -> Seq<char> {
    match e {
        OneDriveApiError::RequestFailed(f) => "request failed: "@ + f.description@,
        OneDriveApiError::Service(s) => service_error_description(s),
        OneDriveApiError::UpstreamStatus { status, body } => "upstream returned status "@ + decimal(
            status as nat,
        ) + ": "@ + body@,
        OneDriveApiError::GraphUrlBuild(d) => "failed to build Graph URL: "@ + d@,
        OneDriveApiError::InvalidExpiresIn(n) => "invalid expires_in value: "@ + signed_decimal(n as int),
    }
}

// ---------------------------------------------------------------------------
// Executable functions
// ---------------------------------------------------------------------------

impl ErrorMessage {
    /// An error message with the given status, request path and text.
    pub fn new(status: u16, request_path: &str, message: &str) -> (r: Self)
        ensures
            r.status == status,
            r.request_path@ == request_path@,
            r.message@ == message@,
    {
        ErrorMessage { status, request_path: request_path.to_owned(), message: message.to_owned() }
    }

    /// The same message for another request path.
    pub fn with_request_path(self, request_path: &str) -> (r: Self)
        ensures
            r.status == self.status,
            r.message == self.message,
            r.request_path@ == request_path@,
    {
        let mut this = self;
        this.request_path = request_path.to_owned();
        this
    }
}

fn option_text(o: &Option<String>) -> (r: Option<&str>)
    ensures
        match r {
            Some(t) => opt_view(*o) == Some(t@),
            None => o is None,
        },
{
    match o {
        Some(s) => Some(s.as_str()),
        None => None,
    }
}

fn code_and_detail_message(code: Option<&str>, detail: Option<&str>) -> (r: String)
    ensures
        r@ == code_and_detail_text(
            match code {
                Some(c) => Some(c@),
                None => None,
            },
            match detail {
                Some(d) => Some(d@),
                None => None,
            },
        ),
{
    let code_ok = match code {
        Some(c) => !is_blank_text(c),
        None => false,
    };
    let detail_ok = match detail {
        Some(d) => !is_blank_text(d),
        None => false,
    };
    if code_ok && detail_ok {
        let mut r = code.unwrap().to_owned();
        push_text(&mut r, ": ");
        push_text(&mut r, detail.unwrap());
        r
    } else if detail_ok {
        detail.unwrap().to_owned()
    } else if code_ok {
        code.unwrap().to_owned()
    } else {
        "OneDrive upstream returned an error".to_owned()
    }
}

impl GraphError {
    /// The text that a Graph error body stands for.
    pub fn into_message(self) -> (r: String)
        ensures
            r@ == graph_error_text(self),
    {
        code_and_detail_message(option_text(&self.code), option_text(&self.message))
    }
}

impl OAuthErrorResponse {
    /// The text that an OAuth error body stands for.
    pub fn into_message(self) -> (r: String)
        ensures
            r@ == oauth_error_text(self),
    {
        code_and_detail_message(option_text(&self.error), option_text(&self.error_description))
    }
}

/// The message for an upstream error answer: the Graph reading of the body
/// if there is one, else the OAuth reading, else the trimmed body, else a
/// text that names the status.
pub fn parse_upstream_message(
    status: u16,
    body: &str,
    graph: Option<GraphError>,
    oauth: Option<OAuthErrorResponse>,
) -> (r: String)
    ensures
        r@ == upstream_text(status, body@, graph, oauth),
{
    match graph {
        Some(g) => g.into_message(),
        None => match oauth {
            Some(o) => o.into_message(),
            None => {
                let trimmed = trim_text(body, TrimClass::WhiteSpace);
                if trimmed.as_str().is_empty() {
                    let mut r = "OneDrive upstream returned HTTP ".to_owned();
                    push_decimal(&mut r, status as u64);
                    r
                } else {
                    trimmed
                }
            },
        },
    }
}

/// The HTTP status that answers an API error.
pub fn api_error_status_code(error: &OneDriveApiError) -> (r: u16)
    ensures
        r == api_error_status(*error),
{
    match error {
        OneDriveApiError::GraphUrlBuild(_) => STATUS_INTERNAL_SERVER_ERROR,
        OneDriveApiError::RequestFailed(_) | OneDriveApiError::InvalidExpiresIn(_) => STATUS_BAD_GATEWAY,
        OneDriveApiError::Service(ServiceError::MissingOneDriveConfig)
        | OneDriveApiError::Service(ServiceError::MissingOneDriveConfigField(_)) => STATUS_CONFLICT,
        OneDriveApiError::Service(ServiceError::Database(_)) => STATUS_INTERNAL_SERVER_ERROR,
        OneDriveApiError::UpstreamStatus { status, .. } => *status,
    }
}

/// The message that answers an API error.
pub fn onedrive_api_error_message(
    error: OneDriveApiError,
    graph: Option<GraphError>,
    oauth: Option<OAuthErrorResponse>,
) -> (r: String)
    ensures
        r@ == api_error_text(error, graph, oauth),
{
    match error {
        OneDriveApiError::RequestFailed(f) => {
            if f.is_timeout {
                "OneDrive request timed out".to_owned()
            } else if f.is_connect {
                "Failed to connect to OneDrive".to_owned()
            } else {
                "OneDrive request failed".to_owned()
            }
        },
        OneDriveApiError::Service(ServiceError::MissingOneDriveConfig) => {
            "OneDrive config is missing".to_owned()
        },
        OneDriveApiError::Service(ServiceError::MissingOneDriveConfigField(field)) => {
            let mut r = field;
            push_text(&mut r, " is empty in OneDrive config");
            r
        },
        OneDriveApiError::Service(ServiceError::Database(_)) => "Database operation failed".to_owned(),
        OneDriveApiError::UpstreamStatus { status, body } => parse_upstream_message(
            status,
            body.as_str(),
            graph,
            oauth,
        ),
        OneDriveApiError::GraphUrlBuild(_) => "Failed to build Microsoft Graph request URL".to_owned(),
        OneDriveApiError::InvalidExpiresIn(expires_in) => {
            let mut r = "Invalid expires_in value returned by OneDrive: ".to_owned();
            push_signed_decimal(&mut r, expires_in);
            r
        },
    }
}

impl ErrorMessage {
    /// The error message that answers an API error, with an empty request
    /// path. `graph` and `oauth` are the readings of the body of an
    /// upstream error answer as a Graph error body and as an OAuth error
    /// body (`None` where the body is not one); other errors ignore them.
    pub fn from_api_error(
        error: OneDriveApiError,
        graph: Option<GraphError>,
        oauth: Option<OAuthErrorResponse>,
    ) -> (r: Self)
        ensures
            r.status == api_error_status(error),
            r.request_path@ == Seq::<char>::empty(),
            r.message@ == api_error_text(error, graph, oauth),
    {
        let status = api_error_status_code(&error);
        let message = onedrive_api_error_message(error, graph, oauth);
        ErrorMessage { status, request_path: String::new(), message }
    }
}

impl ServiceError {
    /// How the error describes itself.
    pub fn describe(&self) -> (r: String)
        ensures
            r@ == service_error_description(*self),
    {
        match self {
            ServiceError::MissingOneDriveConfig => "onedrive config is missing".to_owned(),
            ServiceError::MissingOneDriveConfigField(field) => {
                let mut r = field.clone();
                push_text(&mut r, " is empty in onedrive config");
                r
            },
            ServiceError::Database(d) => {
                let mut r = "database operation failed: ".to_owned();
                push_text(&mut r, d.as_str());
                r
            },
        }
    }
}

impl OneDriveApiError {
    /// How the error describes itself.
    pub fn describe(&self) -> (r: String)
        ensures
            r@ == api_error_description(*self),
    {
        match self {
            OneDriveApiError::RequestFailed(f) => {
                let mut r = "request failed: ".to_owned();
                push_text(&mut r, f.description.as_str());
                r
            },
            OneDriveApiError::Service(s) => s.describe(),
            OneDriveApiError::UpstreamStatus { status, body } => {
                let mut r = "upstream returned status ".to_owned();
                push_decimal(&mut r, *status as u64);
                push_text(&mut r, ": ");
                push_text(&mut r, body.as_str());
                r
            },
            OneDriveApiError::GraphUrlBuild(d) => {
                let mut r = "failed to build Graph URL: ".to_owned();
                push_text(&mut r, d.as_str());
                r
            },
            OneDriveApiError::InvalidExpiresIn(n) => {
                let mut r = "invalid expires_in value: ".to_owned();
                push_signed_decimal(&mut r, *n);
                r
            },
        }
    }
}

} // verus!
