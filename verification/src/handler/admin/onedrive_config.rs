//! Reading and replacing the stored OneDrive configuration.
use vstd::prelude::*;
use crate::entity::onedrive_config::{Model, ONEDRIVE_CONFIG_ID};
use crate::error::{ErrorMessage, STATUS_CONFLICT, STATUS_INTERNAL_SERVER_ERROR};
use crate::handler::admin::internal_error;

verus! {

broadcast use vstd::string::group_string_axioms;

/// The body of a configuration update.
pub struct Request {
    pub one_drive_root_path: String,
    pub one_drive_client_id: String,
    pub one_drive_client_secret: String,
    pub one_drive_refresh_token: String,
}

/// The stored configuration as answered to the administrator.
pub struct Response {
    pub id: i32,
    pub one_drive_root_path: String,
    pub one_drive_client_id: String,
    pub one_drive_client_secret: String,
    pub one_drive_refresh_token: String,
}

/// The answer that a stored row becomes: every field carried over.
pub open spec fn response_of(config: Model) -> Response {
    Response {
        id: config.id,
        one_drive_root_path: config.onedrive_root_path,
        one_drive_client_id: config.onedrive_client_id,
        one_drive_client_secret: config.onedrive_client_secret,
        one_drive_refresh_token: config.onedrive_refresh_token,
    }
}

impl From<Model> for Response {
    fn from(config: Model) -> (r: Self) {
        Response {
            id: config.id,
            one_drive_root_path: config.onedrive_root_path,
            one_drive_client_id: config.onedrive_client_id,
            one_drive_client_secret: config.onedrive_client_secret,
            one_drive_refresh_token: config.onedrive_refresh_token,
        }
    }
}

impl vstd::std_specs::convert::FromSpecImpl<Model> for Response {
    open spec fn obeys_from_spec() -> bool {
        true
    }

    open spec fn from_spec(config: Model) -> Response {
        response_of(config)
    }
}

/// The answer to a configuration read: the stored row, or 409 before any
/// configuration has been stored.
pub fn config_response(config: Option<Model>, request_path: &str) -> (r: Result<Response, ErrorMessage>)
    ensures
        match config {
            Some(c) => r == Ok::<Response, ErrorMessage>(response_of(c)),
            None => r matches Err(e) && e.status == STATUS_CONFLICT && e.request_path@
                == request_path@ && e.message@ == "onedrive config is not initialized"@,
        },
{
    match config {
        None => Err(
            ErrorMessage::new(STATUS_CONFLICT, request_path, "onedrive config is not initialized"),
        ),
        Some(c) => Ok(Response::from(c)),
    }
}

/// The answer to a configuration read: a failed authentication first, then
/// a failed database read (500), then the stored row or 409.
pub fn config_read_outcome(
    authentication: Result<(), ErrorMessage>,
    read: Result<Option<Model>, String>,
    request_path: &str,
) -> (r: Result<Response, ErrorMessage>)
    ensures
        match authentication {
            Err(e) => r == Err::<Response, ErrorMessage>(e),
            Ok(()) => match read {
                Err(d) => r matches Err(e) && e.status == STATUS_INTERNAL_SERVER_ERROR
                    && e.request_path@ == request_path@ && e.message@
                    == "failed to query onedrive config"@ + ": "@ + d@,
                Ok(Some(c)) => r == Ok::<Response, ErrorMessage>(response_of(c)),
                Ok(None) => r matches Err(e) && e.status == STATUS_CONFLICT && e.request_path@
                    == request_path@ && e.message@ == "onedrive config is not initialized"@,
            },
        },
{
    match authentication {
        Ok(()) => {},
        Err(e) => return Err(e),
    }
    match read {
        Err(d) => Err(internal_error(request_path, "failed to query onedrive config", d.as_str())),
        Ok(config) => config_response(config, request_path),
    }
}

/// How a configuration update writes its row: a failed authentication
/// first, then a failed database read (500); otherwise `true` where a row is
/// stored already and is replaced, `false` where the first row is inserted.
/// `existing` tells whether the read found the row.
pub fn config_update_plan(
    authentication: Result<(), ErrorMessage>,
    existing: Result<bool, String>,
    request_path: &str,
) -> (r: Result<bool, ErrorMessage>)
    ensures
        match authentication {
            Err(e) => r == Err::<bool, ErrorMessage>(e),
            Ok(()) => match existing {
                Err(d) => r matches Err(e) && e.status == STATUS_INTERNAL_SERVER_ERROR
                    && e.request_path@ == request_path@ && e.message@
                    == "failed to query onedrive config"@ + ": "@ + d@,
                Ok(found) => r == Ok::<bool, ErrorMessage>(found),
            },
        },
{
    match authentication {
        Ok(()) => {},
        Err(e) => return Err(e),
    }
    match existing {
        Err(d) => Err(internal_error(request_path, "failed to query onedrive config", d.as_str())),
        Ok(found) => Ok(found),
    }
}

/// The answer to a configuration update once its row was written: the
/// stored row, or 500 where the write failed.
pub fn config_saved_outcome(saved: Result<Model, String>, request_path: &str) -> (r: Result<
    Response,
    ErrorMessage,
>)
    ensures
        match saved {
            Ok(c) => r == Ok::<Response, ErrorMessage>(response_of(c)),
            Err(d) => r matches Err(e) && e.status == STATUS_INTERNAL_SERVER_ERROR
                && e.request_path@ == request_path@ && e.message@
                == "failed to save onedrive config"@ + ": "@ + d@,
        },
{
    match saved {
        Ok(c) => Ok(Response::from(c)),
        Err(d) => Err(internal_error(request_path, "failed to save onedrive config", d.as_str())),
    }
}

/// The row that a configuration update stores: the only row, with the
/// fields of the request.
pub fn config_row_from_request(request: Request) -> (r: Model)
    ensures
        r.id == ONEDRIVE_CONFIG_ID,
        r.onedrive_root_path == request.one_drive_root_path,
        r.onedrive_client_id == request.one_drive_client_id,
        r.onedrive_client_secret == request.one_drive_client_secret,
        r.onedrive_refresh_token == request.one_drive_refresh_token,
{
    Model {
        id: ONEDRIVE_CONFIG_ID,
        onedrive_root_path: request.one_drive_root_path,
        onedrive_client_id: request.one_drive_client_id,
        onedrive_client_secret: request.one_drive_client_secret,
        onedrive_refresh_token: request.one_drive_refresh_token,
    }
}

/// What a configuration read answers after an update is what the update
/// sent: the row an update stores is answered with the request's fields
/// under the id of the only row.
pub proof fn lemma_read_gives_back_update(request: Request, row: Model)
    requires
        row.id == ONEDRIVE_CONFIG_ID,
        row.onedrive_root_path == request.one_drive_root_path,
        row.onedrive_client_id == request.one_drive_client_id,
        row.onedrive_client_secret == request.one_drive_client_secret,
        row.onedrive_refresh_token == request.one_drive_refresh_token,
    ensures
        response_of(row) == (Response {
            id: ONEDRIVE_CONFIG_ID,
            one_drive_root_path: request.one_drive_root_path,
            one_drive_client_id: request.one_drive_client_id,
            one_drive_client_secret: request.one_drive_client_secret,
            one_drive_refresh_token: request.one_drive_refresh_token,
        }),
{
}

} // verus!
