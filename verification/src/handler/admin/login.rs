//! Administrator log-in.
use vstd::prelude::*;
use crate::error::{ErrorMessage, STATUS_INTERNAL_SERVER_ERROR, STATUS_UNAUTHORIZED};
use crate::handler::admin::internal_error;
use crate::handler::admin::auth::jwt_secret;
use crate::jwt::{admin_token_text, encode_admin_token};
use crate::password::{bcrypt_verify_result, verify_password};
use crate::text::{push_signed_decimal, signed_decimal, trim_text, trim_white, TrimClass};

verus! {

broadcast use vstd::string::group_string_axioms;

/// How long an administrator token is valid, in seconds.
pub const JWT_EXPIRES_IN_SECONDS: u64 = 1800;

/// The body of a log-in request.
pub struct Request {
    pub username: String,
    pub password: String,
}

/// The answer to a successful log-in.
pub struct Response {
    pub id: i32,
    pub username: String,
    pub access_token: String,
    pub exp_min: u64,
}

/// The claims of an administrator token.
pub struct Claims {
    pub sub: String,
    pub username: String,
    pub exp: u64,
}

/// The answer to a log-in with wrong or missing credentials.
pub fn invalid_credentials(request_path: &str) -> (r: ErrorMessage)
    ensures
        r.status == STATUS_UNAUTHORIZED,
        r.request_path@ == request_path@,
        r.message@ == "invalid username or password"@,
{
    ErrorMessage::new(STATUS_UNAUTHORIZED, request_path, "invalid username or password")
}

/// The user name to look up, trimmed; a blank user name or an empty
/// password is refused as invalid credentials.
pub fn validate_login_request(payload: &Request, request_path: &str) -> (r: Result<String, ErrorMessage>)
    ensures
        trim_white(payload.username@).len() == 0 || payload.password@.len() == 0 ==> (r matches Err(e)
            && e.status == STATUS_UNAUTHORIZED && e.request_path@ == request_path@ && e.message@
            == "invalid username or password"@),
        trim_white(payload.username@).len() > 0 && payload.password@.len() > 0 ==> (r matches Ok(u)
            && u@ == trim_white(payload.username@)),
{
    let username = trim_text(payload.username.as_str(), TrimClass::WhiteSpace);
    if username.as_str().is_empty() || payload.password.as_str().is_empty() {
        return Err(invalid_credentials(request_path));
    }
    Ok(username)
}

/// Checks the password of a log-in against the stored hash: a match lets
/// the log-in through, a mismatch is refused as invalid credentials, and a
/// hash that cannot be read is an internal error.
pub fn check_login_password(password: &str, password_hash: &str, request_path: &str) -> (r: Result<
    (),
    ErrorMessage,
>)
    ensures
        match bcrypt_verify_result(password@, password_hash@) {
            Some(true) => r is Ok,
            Some(false) => r matches Err(e) && e.status == STATUS_UNAUTHORIZED && e.request_path@
                == request_path@ && e.message@ == "invalid username or password"@,
            None => r matches Err(e) && e.status == STATUS_INTERNAL_SERVER_ERROR && e.request_path@
                == request_path@ && exists|t: Seq<char>| e.message@ == "failed to verify password"@ + ": "@ + t,
        },
{
    match verify_password(password, password_hash) {
        Ok(true) => Ok(()),
        Ok(false) => Err(invalid_credentials(request_path)),
        Err(detail) => {
            let e = internal_error(request_path, "failed to verify password", detail.as_str());
            assert(e.message@ == "failed to verify password"@ + ": "@ + detail@);
            Err(e)
        },
    }
}

/// The claims of a token issued at `now` (seconds since the Unix epoch) for
/// the administrator `id`: the id in decimal as subject, the user name, and
/// the expiry `JWT_EXPIRES_IN_SECONDS` later.
pub fn admin_claims(id: i32, username: String, now: u64) -> (r: Claims)
    requires
        now + JWT_EXPIRES_IN_SECONDS <= u64::MAX,
    ensures
        r.sub@ == signed_decimal(id as int),
        r.username == username,
        r.exp == now + JWT_EXPIRES_IN_SECONDS,
{
    let mut sub = String::new();
    push_signed_decimal(&mut sub, id as i64);
    Claims { sub, username, exp: now + JWT_EXPIRES_IN_SECONDS }
}

/// The answer to a successful log-in.
pub fn login_response(id: i32, username: String, access_token: String) -> (r: Response)
    ensures
        r.id == id,
        r.username == username,
        r.access_token == access_token,
        r.exp_min == JWT_EXPIRES_IN_SECONDS,
{
    Response { id, username, access_token, exp_min: JWT_EXPIRES_IN_SECONDS }
}

/// The stored administrator that a log-in looks up by user name.
pub struct AdminUserRow {
    pub id: i32,
    pub username: String,
    pub password_hash: String,
}

/// Whether the answer `e` is the refusal of a log-in with wrong
/// credentials at `request_path`.
pub open spec fn is_login_refusal(e: ErrorMessage, request_path: Seq<char>) -> bool {
    &&& e.status == STATUS_UNAUTHORIZED
    &&& e.request_path@ == request_path
    &&& e.message@ == "invalid username or password"@
}

/// The log-ins that are refused as wrong credentials: a blank user name, an
/// empty password, a user name that no administrator has, or a password
/// that does not match the stored hash.
pub open spec fn login_refused(payload: Request, lookup: Result<Option<AdminUserRow>, String>) -> bool {
    ||| trim_white(payload.username@).len() == 0
    ||| payload.password@.len() == 0
    ||| lookup == Ok::<Option<AdminUserRow>, String>(None)
    ||| (lookup matches Ok(Some(row)) && bcrypt_verify_result(payload.password@, row.password_hash@)
        == Some(false))
}

/// Decides a log-in from its request and the administrator found under the
/// trimmed user name (`lookup`, the database's answer; it is not consulted
/// for a request refused before the look-up). Every refused log-in gets
/// the same answer, so an unknown user name cannot be told from a wrong
/// password; a failed look-up or an unreadable hash is an internal error;
/// otherwise the administrator found is returned.
pub fn login_outcome(
    payload: &Request,
    lookup: Result<Option<AdminUserRow>, String>,
    request_path: &str,
) -> (r: Result<AdminUserRow, ErrorMessage>)
    ensures
        login_refused(*payload, lookup) ==> (r matches Err(e) && is_login_refusal(e, request_path@)),
        trim_white(payload.username@).len() > 0 && payload.password@.len() > 0 ==> match lookup {
            Err(d) => r matches Err(e) && e.status == STATUS_INTERNAL_SERVER_ERROR && e.request_path@
                == request_path@ && e.message@ == "failed to query admin user"@ + ": "@ + d@,
            Ok(None) => true,
            Ok(Some(row)) => match bcrypt_verify_result(payload.password@, row.password_hash@) {
                Some(true) => r == Ok::<AdminUserRow, ErrorMessage>(row),
                Some(false) => true,
                None => r matches Err(e) && e.status == STATUS_INTERNAL_SERVER_ERROR
                    && e.request_path@ == request_path@ && exists|t: Seq<char>| e.message@
                    == "failed to verify password"@ + ": "@ + t,
            },
        },
{
    match validate_login_request(payload, request_path) {
        Ok(_) => {},
        Err(e) => return Err(e),
    }
    let row = match lookup {
        Err(d) => return Err(internal_error(request_path, "failed to query admin user", d.as_str())),
        Ok(None) => return Err(invalid_credentials(request_path)),
        Ok(Some(row)) => row,
    };
    match check_login_password(payload.password.as_str(), row.password_hash.as_str(), request_path) {
        Ok(()) => Ok(row),
        Err(e) => Err(e),
    }
}

/// Signs the token of a log-in by the administrator `id`: the signing
/// secret is needed first (500 without it), then the time of the log-in
/// (`now`, seconds since the Unix epoch, or why the clock could not be
/// read); with both, the token is always issued, signed over the claims
/// of `admin_claims` for any user.
pub fn create_admin_token(
    id: i32,
    username: String,
    now: Result<u64, String>,
    secret: Option<String>,
    request_path: &str,
) -> (r: Result<String, ErrorMessage>)
    requires
        secret is Some ==> (now matches Ok(n) ==> n + JWT_EXPIRES_IN_SECONDS <= u64::MAX),
    ensures
        match secret {
            None => r matches Err(e) && e.status == STATUS_INTERNAL_SERVER_ERROR && e.request_path@
                == request_path@ && e.message@ == "JWT_SECRET is missing"@,
            Some(s) => match now {
                Err(d) => r matches Err(e) && e.status == STATUS_INTERNAL_SERVER_ERROR
                    && e.request_path@ == request_path@ && e.message@
                    == "failed to read system time"@ + ": "@ + d@,
                Ok(n) => r matches Ok(t) && t@ == admin_token_text(
                    signed_decimal(id as int),
                    username@,
                    (n + JWT_EXPIRES_IN_SECONDS) as u64,
                    s@,
                ),
            },
        },
{
    let secret = match jwt_secret(secret, request_path) {
        Ok(s) => s,
        Err(e) => return Err(e),
    };
    let now = match now {
        Ok(n) => n,
        Err(d) => return Err(internal_error(request_path, "failed to read system time", d.as_str())),
    };
    let claims = admin_claims(id, username, now);
    match encode_admin_token(&claims, secret.as_str()) {
        Ok(token) => Ok(token),
        Err(detail) => {
            let e = internal_error(request_path, "failed to create admin token", detail.as_str());
            assert(e.message@ == "failed to create admin token"@ + ": "@ + detail@);
            Err(e)
        },
    }
}

} // verus!
