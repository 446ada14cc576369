//! The decisions of the HTTP handlers: which OneDrive path a request names,
//! what a download request is answered with, and how a failure becomes an
//! error answer for the request.
use vstd::prelude::*;
use crate::error::{
    api_error_status, api_error_text, ErrorMessage, GraphError, OAuthErrorResponse, OneDriveApiError,
    STATUS_BAD_REQUEST, STATUS_NOT_FOUND,
};
use crate::models::{FileListItem, FileListItemType};
use crate::text::{lemma_trim_ends, strip_prefixes, strip_prefixes_text, trim, trim_text, TrimClass};

pub mod admin;

verus! {

broadcast use vstd::string::group_string_axioms;

/// The route prefix of the file list.
pub const LIST_ROUTE: &'static str = "/api/list";

/// The route prefix of downloads.
pub const DOWNLOAD_ROUTE: &'static str = "/api/download";

/// The OneDrive path that a request path names under a route:
/// `request_path.trim_start_matches(route).trim_matches('/')`. It neither
/// starts nor ends with a slash.
pub fn route_relative_path(request_path: &str, route: &str) -> (r: String)
    ensures
        r@ == trim(strip_prefixes(request_path@, route@), TrimClass::Slash),
        r@.len() > 0 ==> r@[0] != '/' && r@.last() != '/',
{
    let stripped = strip_prefixes_text(request_path, route);
    proof {
        lemma_trim_ends(stripped@, TrimClass::Slash);
    }
    trim_text(stripped.as_str(), TrimClass::Slash)
}

/// The error answer for an API failure during the request at
/// `request_path` (`graph` and `oauth` as for
/// `ErrorMessage::from_api_error`).
pub fn api_error_answer(
    error: OneDriveApiError,
    graph: Option<GraphError>,
    oauth: Option<OAuthErrorResponse>,
    request_path: &str,
) -> (r: ErrorMessage)
    ensures
        r.status == api_error_status(error),
        r.message@ == api_error_text(error, graph, oauth),
        r.request_path@ == request_path@,
{
    ErrorMessage::from_api_error(error, graph, oauth).with_request_path(request_path)
}

/// Where a download request for `item` is redirected: its download URL if
/// it is a file that has a non-empty one; a folder is refused with 400, a
/// file without a download URL with 404.
pub fn download_target(item: &FileListItem, request_path: &str) -> (r: Result<String, ErrorMessage>)
    ensures
        match item.item_type {
            FileListItemType::File => match item.download_url {
                Some(u) if u@.len() > 0 => r matches Ok(t) && t@ == u@,
                _ => r matches Err(e) && e.status == STATUS_NOT_FOUND && e.request_path@
                    == request_path@ && e.message@ == "download url not found"@,
            },
            FileListItemType::Folder => r matches Err(e) && e.status == STATUS_BAD_REQUEST
                && e.request_path@ == request_path@ && e.message@
                == "folder cannot be downloaded directly"@,
        },
{
    match item.item_type {
        FileListItemType::File => match &item.download_url {
            Some(download_url) => {
                if !download_url.as_str().is_empty() {
                    Ok(download_url.clone())
                } else {
                    Err(ErrorMessage::new(STATUS_NOT_FOUND, request_path, "download url not found"))
                }
            },
            None => Err(ErrorMessage::new(STATUS_NOT_FOUND, request_path, "download url not found")),
        },
        FileListItemType::Folder => Err(
            ErrorMessage::new(STATUS_BAD_REQUEST, request_path, "folder cannot be downloaded directly"),
        ),
    }
}

} // verus!
