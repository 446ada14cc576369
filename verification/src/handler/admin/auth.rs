//! Administrator authentication by the token cookie.
use vstd::prelude::*;
use crate::error::{ErrorMessage, STATUS_INTERNAL_SERVER_ERROR, STATUS_UNAUTHORIZED};
use crate::jwt::{claim, decode_token_claims, json_text, json_unsigned};

verus! {

broadcast use vstd::string::group_string_axioms;

/// The name of the cookie that carries the administrator token.
pub const ADMIN_TOKEN_COOKIE_NAME: &'static str = "admin_token";

/// The answer to a request without valid administrator credentials.
pub fn unauthorized(request_path: &str) -> (r: ErrorMessage)
    ensures
        r.status == STATUS_UNAUTHORIZED,
        r.request_path@ == request_path@,
        r.message@ == "admin authentication required"@,
{
    ErrorMessage::new(STATUS_UNAUTHORIZED, request_path, "admin authentication required")
}

/// The token of the administrator cookie; without the cookie the request
/// is unauthorized.
pub fn admin_token(cookie_value: Option<String>, request_path: &str) -> (r: Result<String, ErrorMessage>)
    ensures
        match cookie_value {
            Some(v) => r == Ok::<String, ErrorMessage>(v),
            None => r matches Err(e) && e.status == STATUS_UNAUTHORIZED && e.request_path@
                == request_path@ && e.message@ == "admin authentication required"@,
        },
{
    match cookie_value {
        Some(v) => Ok(v),
        None => Err(unauthorized(request_path)),
    }
}

/// The signing secret; without it every authenticated request fails with
/// 500.
pub fn jwt_secret(configured: Option<String>, request_path: &str) -> (r: Result<String, ErrorMessage>)
    ensures
        match configured {
            Some(v) => r == Ok::<String, ErrorMessage>(v),
            None => r matches Err(e) && e.status == STATUS_INTERNAL_SERVER_ERROR && e.request_path@
                == request_path@ && e.message@ == "JWT_SECRET is missing"@,
        },
{
    match configured {
        Some(v) => Ok(v),
        None => Err(ErrorMessage::new(STATUS_INTERNAL_SERVER_ERROR, request_path, "JWT_SECRET is missing")),
    }
}

/// The outcome of checking the token: a token that does not verify leaves
/// the request unauthorized.
pub fn token_check_outcome<T>(decoded: Option<T>, request_path: &str) -> (r: Result<T, ErrorMessage>)
    ensures
        match decoded {
            Some(c) => r == Ok::<T, ErrorMessage>(c),
            None => r matches Err(e) && e.status == STATUS_UNAUTHORIZED && e.request_path@
                == request_path@ && e.message@ == "admin authentication required"@,
        },
{
    match decoded {
        Some(c) => Ok(c),
        None => Err(unauthorized(request_path)),
    }
}

/// What an authenticated request needs before its token can be checked:
/// the token of the administrator cookie, then the signing secret. A
/// missing cookie is answered first (unauthorized), a missing secret next
/// (500).
pub fn authentication_inputs(
    cookie_value: Option<String>,
    configured_secret: Option<String>,
    request_path: &str,
) -> (r: Result<(String, String), ErrorMessage>)
    ensures
        match cookie_value {
            None => r matches Err(e) && e.status == STATUS_UNAUTHORIZED && e.request_path@
                == request_path@ && e.message@ == "admin authentication required"@,
            Some(token) => match configured_secret {
                None => r matches Err(e) && e.status == STATUS_INTERNAL_SERVER_ERROR && e.request_path@
                    == request_path@ && e.message@ == "JWT_SECRET is missing"@,
                Some(secret) => r == Ok::<(String, String), ErrorMessage>((token, secret)),
            },
        },
{
    let token = match admin_token(cookie_value, request_path) {
        Ok(t) => t,
        Err(e) => return Err(e),
    };
    let secret = match jwt_secret(configured_secret, request_path) {
        Ok(s) => s,
        Err(e) => return Err(e),
    };
    Ok((token, secret))
}

/// The subject and user name of a token's claims: both must be JSON
/// strings, and `exp` a non-negative integer, as in the claims that a
/// log-in signs.
fn subject_and_username(claims: &serde_json::Map<String, serde_json::Value>) -> Option<(String, String)> {
    let sub = match claim(claims, "sub") {
        Some(v) => json_text(&v),
        None => None,
    };
    let username = match claim(claims, "username") {
        Some(v) => json_text(&v),
        None => None,
    };
    let exp = match claim(claims, "exp") {
        Some(v) => json_unsigned(&v),
        None => None,
    };
    match (sub, username, exp) {
        (Some(sub), Some(username), Some(_)) => Some((sub, username)),
        _ => None,
    }
}

/// Authenticates an administrator request: without the token cookie it is
/// unauthorized; without the signing secret it fails with 500; otherwise
/// the token must verify (signature, expiry, claims) and its subject and
/// user name are returned, or the request is unauthorized. Whether a token
/// verifies depends on the clock, so only the shape of a refusal is stated.
pub fn authenticate_admin(
    cookie_value: Option<String>,
    configured_secret: Option<String>,
    request_path: &str,
) -> (r: Result<(String, String), ErrorMessage>)
    ensures
        match cookie_value {
            None => r matches Err(e) && e.status == STATUS_UNAUTHORIZED && e.request_path@
                == request_path@ && e.message@ == "admin authentication required"@,
            Some(_) => match configured_secret {
                None => r matches Err(e) && e.status == STATUS_INTERNAL_SERVER_ERROR && e.request_path@
                    == request_path@ && e.message@ == "JWT_SECRET is missing"@,
                Some(_) => r is Ok || (r matches Err(e) && e.status == STATUS_UNAUTHORIZED
                    && e.request_path@ == request_path@ && e.message@
                    == "admin authentication required"@),
            },
        },
{
    let (token, secret) = match authentication_inputs(cookie_value, configured_secret, request_path) {
        Ok(inputs) => inputs,
        Err(e) => return Err(e),
    };
    let decoded = match decode_token_claims(token.as_str(), secret.as_str()) {
        Some(claims) => subject_and_username(&claims),
        None => None,
    };
    token_check_outcome(decoded, request_path)
}

} // verus!
