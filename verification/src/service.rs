//! The decisions of the OneDrive service: which stored configuration is
//! usable, when a cached token can be reused, how a token answer becomes a
//! cached token and how an upstream failure is reported.
use vstd::prelude::*;
use crate::entity::onedrive_config::Model;
use crate::error::{OneDriveApiError, ServiceError};
use crate::models::TokenResponse;
use crate::state::{expired_at, expiry_of, AccessToken};
use crate::text::{is_blank, is_blank_text, push_text};

verus! {

broadcast use vstd::string::group_string_axioms;

/// The configuration the service works with.
pub struct OneDriveConfig {
    pub root_path: String,
    pub client_id: String,
    pub client_secret: String,
    pub refresh_token: String,
}

/// `value` unless it is blank, in which case the error names the field.
pub fn non_empty_config_field(value: String, field_name: &str) -> (r: Result<String, ServiceError>)
    ensures
        is_blank(value@) ==> (r matches Err(ServiceError::MissingOneDriveConfigField(f)) && f@
            == field_name@),
        !is_blank(value@) ==> r == Ok::<String, ServiceError>(value),
{
    if is_blank_text(value.as_str()) {
        Err(ServiceError::MissingOneDriveConfigField(field_name.to_owned()))
    } else {
        Ok(value)
    }
}

/// The usable configuration of a stored row: a missing row is an error,
/// and so is a blank client id, client secret or refresh token (checked in
/// that order); the root path is taken as it is.
pub fn onedrive_config_from_model(model: Option<Model>) -> (r: Result<OneDriveConfig, ServiceError>)
    ensures
        match model {
            None => r matches Err(ServiceError::MissingOneDriveConfig),
            Some(m) => if is_blank(m.onedrive_client_id@) {
                r matches Err(ServiceError::MissingOneDriveConfigField(f)) && f@ == "ONEDRIVE_CLIENT_ID"@
            } else if is_blank(m.onedrive_client_secret@) {
                r matches Err(ServiceError::MissingOneDriveConfigField(f)) && f@
                    == "ONEDRIVE_CLIENT_SECRET"@
            } else if is_blank(m.onedrive_refresh_token@) {
                r matches Err(ServiceError::MissingOneDriveConfigField(f)) && f@
                    == "ONEDRIVE_REFRESH_TOKEN"@
            } else {
                r matches Ok(c) && c.root_path == m.onedrive_root_path && c.client_id
                    == m.onedrive_client_id && c.client_secret == m.onedrive_client_secret
                    && c.refresh_token == m.onedrive_refresh_token
            },
        },
{
    let config = match model {
        Some(m) => m,
        None => return Err(ServiceError::MissingOneDriveConfig),
    };
    let client_id = match non_empty_config_field(config.onedrive_client_id, "ONEDRIVE_CLIENT_ID") {
        Ok(v) => v,
        Err(e) => return Err(e),
    };
    let client_secret = match non_empty_config_field(
        config.onedrive_client_secret,
        "ONEDRIVE_CLIENT_SECRET",
    ) {
        Ok(v) => v,
        Err(e) => return Err(e),
    };
    let refresh_token = match non_empty_config_field(
        config.onedrive_refresh_token,
        "ONEDRIVE_REFRESH_TOKEN",
    ) {
        Ok(v) => v,
        Err(e) => return Err(e),
    };
    Ok(OneDriveConfig { root_path: config.onedrive_root_path, client_id, client_secret, refresh_token })
}

/// The cached access token, if there is one and it is not expired at `now`.
pub fn reusable_access_token(cached: &Option<AccessToken>, now: u128) -> (r: Option<String>)
    ensures
        match cached {
            Some(t) => if !expired_at(*t, now) {
                r matches Some(s) && s@ == t.access_token@
            } else {
                r is None
            },
            None => r is None,
        },
{
    match cached {
        Some(token) => {
            if !token.is_expired(now) {
                Some(token.access_token.clone())
            } else {
                None
            }
        },
        None => None,
    }
}

/// The form fields of a refresh-token request.
pub fn token_request_form(config: &OneDriveConfig) -> (r: Vec<(String, String)>)
    ensures
        r.len() == 4,
        r[0].0@ == "client_id"@ && r[0].1@ == config.client_id@,
        r[1].0@ == "client_secret"@ && r[1].1@ == config.client_secret@,
        r[2].0@ == "refresh_token"@ && r[2].1@ == config.refresh_token@,
        r[3].0@ == "grant_type"@ && r[3].1@ == "refresh_token"@,
{
    let mut r: Vec<(String, String)> = Vec::new();
    r.push(("client_id".to_owned(), config.client_id.clone()));
    r.push(("client_secret".to_owned(), config.client_secret.clone()));
    r.push(("refresh_token".to_owned(), config.refresh_token.clone()));
    r.push(("grant_type".to_owned(), "refresh_token".to_owned()));
    r
}

/// The token to cache from a token answer received at `now`; a lifetime
/// that is not positive is refused.
pub fn access_token_from_response(response: TokenResponse, now: u128) -> (r: Result<
    AccessToken,
    OneDriveApiError,
>)
    requires
        response.expires_in > 0 ==> expiry_of(response.expires_in as u64, now) <= u128::MAX,
    ensures
        response.expires_in <= 0 ==> (r matches Err(OneDriveApiError::InvalidExpiresIn(n)) && n
            == response.expires_in),
        response.expires_in > 0 ==> (r matches Ok(t) && t.access_token == response.access_token
            && t.expires_at == expiry_of(response.expires_in as u64, now)),
{
    if response.expires_in <= 0 {
        return Err(OneDriveApiError::InvalidExpiresIn(response.expires_in));
    }
    Ok(AccessToken::new(response.access_token, response.expires_in as u64, now))
}

/// `StatusCode::is_success`: the status is in `200..300`.
pub fn is_success_status(status: u16) -> (r: bool)
    ensures
        r == (200 <= status < 300),
{
    200 <= status && status < 300
}

/// The error for an unsuccessful upstream answer: its status with its body,
/// or, where the body could not be read, a text that says so.
pub fn upstream_status_error(status: u16, body: Result<String, String>) -> (r: OneDriveApiError)
    ensures
        match body {
            Ok(b) => r == OneDriveApiError::UpstreamStatus { status, body: b },
            Err(e) => r matches OneDriveApiError::UpstreamStatus { status: s, body: t } && s == status
                && t@ == "failed to read upstream error body: "@ + e@,
        },
{
    match body {
        Ok(b) => OneDriveApiError::UpstreamStatus { status, body: b },
        Err(e) => {
            let mut t = "failed to read upstream error body: ".to_owned();
            push_text(&mut t, e.as_str());
            OneDriveApiError::UpstreamStatus { status, body: t }
        },
    }
}

} // verus!
