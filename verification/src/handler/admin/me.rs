//! The current administrator.
use vstd::prelude::*;
use crate::error::{ErrorMessage, STATUS_CONFLICT, STATUS_UNAUTHORIZED};
use crate::handler::admin::auth::unauthorized;
use crate::text::{parse_canonical_i32, signed_decimal};

verus! {

broadcast use vstd::string::group_string_axioms;

/// The administrator behind a request.
pub struct CurrentUser {
    pub id: i32,
    pub username: String,
}

/// The answer to a current-user request.
pub struct Response {
    pub initialized: bool,
    pub user: CurrentUser,
}

/// Before an administrator exists the request is answered with 409.
pub fn ensure_admin_initialized(existing_admin_user_count: u64, request_path: &str) -> (r: Result<
    (),
    ErrorMessage,
>)
    ensures
        existing_admin_user_count > 0 ==> r is Ok,
        existing_admin_user_count == 0 ==> (r matches Err(e) && e.status == STATUS_CONFLICT
            && e.request_path@ == request_path@ && e.message@ == "admin user is not initialized"@),
{
    if existing_admin_user_count == 0 {
        return Err(ErrorMessage::new(STATUS_CONFLICT, request_path, "admin user is not initialized"));
    }
    Ok(())
}

/// The answer for an authenticated administrator.
pub fn current_user_response(id: i32, username: String) -> (r: Response)
    ensures
        r.initialized,
        r.user.id == id,
        r.user.username == username,
{
    Response { initialized: true, user: CurrentUser { id, username } }
}

/// The administrator that token claims name: the subject must be the
/// decimal form of an id, as log-in writes it.
pub fn current_user_from_claims(sub: &str, username: String) -> (r: Option<CurrentUser>)
    ensures
        r matches Some(u) ==> sub@ == signed_decimal(u.id as int) && u.username == username,
        forall|id: i32| sub@ == signed_decimal(id as int) ==> (r matches Some(u) && u.id == id),
{
    match parse_canonical_i32(sub) {
        Some(id) => Some(CurrentUser { id, username }),
        None => None,
    }
}

/// The answer to a current-user request: before an administrator exists it
/// is 409, whatever the credentials; then a failed authentication is
/// answered with its own error; then the token's subject must name an id.
/// `authentication` is the subject and user name of a verified token.
pub fn current_user_outcome(
    existing_admin_user_count: u64,
    authentication: Result<(String, String), ErrorMessage>,
    request_path: &str,
) -> (r: Result<Response, ErrorMessage>)
    ensures
        existing_admin_user_count == 0 ==> (r matches Err(e) && e.status == STATUS_CONFLICT
            && e.request_path@ == request_path@ && e.message@ == "admin user is not initialized"@),
        existing_admin_user_count > 0 ==> match authentication {
            Err(e) => r == Err::<Response, ErrorMessage>(e),
            Ok((sub, username)) => if exists|id: i32| sub@ == signed_decimal(id as int) {
                r matches Ok(resp) && resp.initialized && sub@ == signed_decimal(resp.user.id as int)
                    && resp.user.username == username
            } else {
                r matches Err(e) && e.status == STATUS_UNAUTHORIZED && e.request_path@
                    == request_path@ && e.message@ == "admin authentication required"@
            },
        },
{
    match ensure_admin_initialized(existing_admin_user_count, request_path) {
        Ok(()) => {},
        Err(e) => return Err(e),
    }
    let (sub, username) = match authentication {
        Ok(pair) => pair,
        Err(e) => return Err(e),
    };
    match current_user_from_claims(sub.as_str(), username) {
        Some(user) => Ok(current_user_response(user.id, user.username)),
        None => Err(unauthorized(request_path)),
    }
}

} // verus!
