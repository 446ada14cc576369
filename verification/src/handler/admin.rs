//! The decisions of the administration handlers: setting up the single
//! administrator account.
use vstd::prelude::*;
use crate::error::{ErrorMessage, STATUS_BAD_REQUEST, STATUS_CONFLICT, STATUS_INTERNAL_SERVER_ERROR};
use crate::password::{bcrypt_verify_result, hash_password};
use crate::text::{contains_text, contains_text_exec, push_text, trim_text, trim_white, TrimClass};

pub mod auth;
pub mod login;
pub mod me;
pub mod onedrive_config;

verus! {

broadcast use vstd::string::group_string_axioms;

/// The id of the single administrator account.
pub const ADMIN_USER_ID: i32 = 1;

/// The body of an administrator set-up request.
pub struct InitAdminRequest {
    pub username: String,
    pub password: String,
}

/// The answer to a successful administrator set-up.
pub struct InitAdminResponse {
    pub id: i32,
    pub username: String,
}

/// An internal error: status 500 and `context: detail`.
pub fn internal_error(request_path: &str, context: &str, detail: &str) -> (r: ErrorMessage)
    ensures
        r.status == STATUS_INTERNAL_SERVER_ERROR,
        r.request_path@ == request_path@,
        r.message@ == context@ + ": "@ + detail@,
{
    let mut message = context.to_owned();
    push_text(&mut message, ": ");
    push_text(&mut message, detail);
    ErrorMessage { status: STATUS_INTERNAL_SERVER_ERROR, request_path: request_path.to_owned(), message }
}

/// The user name to create from a set-up request, trimmed; a blank user
/// name, then an empty password, is refused with 400.
pub fn validate_init_admin_request(payload: &InitAdminRequest, request_path: &str) -> (r: Result<
    String,
    ErrorMessage,
>)
    ensures
        trim_white(payload.username@).len() == 0 ==> (r matches Err(e) && e.status == STATUS_BAD_REQUEST
            && e.request_path@ == request_path@ && e.message@ == "username is empty"@),
        trim_white(payload.username@).len() > 0 && payload.password@.len() == 0 ==> (r matches Err(e)
            && e.status == STATUS_BAD_REQUEST && e.request_path@ == request_path@ && e.message@
            == "password is empty"@),
        trim_white(payload.username@).len() > 0 && payload.password@.len() > 0 ==> (r matches Ok(u)
            && u@ == trim_white(payload.username@)),
{
    let username = trim_text(payload.username.as_str(), TrimClass::WhiteSpace);
    if username.as_str().is_empty() {
        return Err(ErrorMessage::new(STATUS_BAD_REQUEST, request_path, "username is empty"));
    }
    if payload.password.as_str().is_empty() {
        return Err(ErrorMessage::new(STATUS_BAD_REQUEST, request_path, "password is empty"));
    }
    Ok(username)
}

/// Set-up is refused with 409 once an administrator exists.
pub fn ensure_admin_not_initialized(existing_admin_user_count: u64, request_path: &str) -> (r: Result<
    (),
    ErrorMessage,
>)
    ensures
        existing_admin_user_count == 0 ==> r is Ok,
        existing_admin_user_count > 0 ==> (r matches Err(e) && e.status == STATUS_CONFLICT
            && e.request_path@ == request_path@ && e.message@ == "admin user already initialized"@),
{
    if existing_admin_user_count > 0 {
        return Err(ErrorMessage::new(STATUS_CONFLICT, request_path, "admin user already initialized"));
    }
    Ok(())
}

/// The answer to a failed insert of the administrator: 409 where the
/// database reports a violated uniqueness constraint, 500 otherwise.
pub fn admin_insert_error(detail: &str, request_path: &str) -> (r: ErrorMessage)
    ensures
        r.status == (if contains_text(detail@, "UNIQUE constraint failed"@) {
            STATUS_CONFLICT
        } else {
            STATUS_INTERNAL_SERVER_ERROR
        }),
        r.request_path@ == request_path@,
        r.message@ == "failed to create admin user: "@ + detail@,
{
    let status = if contains_text_exec(detail, "UNIQUE constraint failed") {
        STATUS_CONFLICT
    } else {
        STATUS_INTERNAL_SERVER_ERROR
    };
    let mut message = "failed to create admin user: ".to_owned();
    push_text(&mut message, detail);
    ErrorMessage { status, request_path: request_path.to_owned(), message }
}

/// The hash to store for the administrator's password; a hashing failure
/// is an internal error. Every hash it gives verifies the password.
pub fn hash_admin_password(password: &str, request_path: &str) -> (r: Result<String, ErrorMessage>)
    ensures
        r matches Ok(h) ==> bcrypt_verify_result(password@, h@) == Some(true),
        r matches Err(e) ==> e.status == STATUS_INTERNAL_SERVER_ERROR && e.request_path@
            == request_path@ && exists|t: Seq<char>| e.message@ == "failed to hash password"@ + ": "@ + t,
        r matches Err(e) ==> exists|t: Seq<char>| e.message@ == "failed to hash password: Rand error: "@ + t,
{
    match hash_password(password) {
        Ok(h) => Ok(h),
        Err(detail) => {
            let e = internal_error(request_path, "failed to hash password", detail.as_str());
            assert(e.message@ == "failed to hash password"@ + ": "@ + detail@);
            proof {
                let t = choose|t: Seq<char>| detail@ == "Rand error: "@ + t;
                reveal_strlit("failed to hash password");
                reveal_strlit(": ");
                reveal_strlit("Rand error: ");
                reveal_strlit("failed to hash password: Rand error: ");
                assert(e.message@ =~= "failed to hash password: Rand error: "@ + t);
            }
            Err(e)
        },
    }
}

} // verus!
