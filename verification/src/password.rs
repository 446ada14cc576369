//! Password hashing and checking with bcrypt.
use vstd::prelude::*;

verus! {

/// What `bcrypt::verify(password, hash)` returns: whether the password
/// matches the hash, or `None` where the hash cannot be read.
pub uninterp spec fn bcrypt_verify_result(password: Seq<char>, hash: Seq<char>) -> Option<bool>;

/// `bcrypt::verify(password, hash)`, its error written out with
/// `to_string`. The result depends on the password and the hash alone.
#[verifier::external_body]
pub(crate) fn verify_password(password: &str, hash: &str) -> (r: Result<bool, String>)
    ensures
        match r {
            Ok(b) => bcrypt_verify_result(password@, hash@) == Some(b),
            Err(_) => bcrypt_verify_result(password@, hash@) is None,
        },
{
    match bcrypt::verify(password, hash) {
        Ok(b) => Ok(b),
        Err(err) => Err(err.to_string()),
    }
}

/// `bcrypt::hash(password, bcrypt::DEFAULT_COST)`, its error written out
/// with `to_string`. The salt is random, so the hash itself is not a
/// function of the password; every hash it gives verifies the password.
/// At the default cost, whatever the password, the only failure is that
/// the system could not supply the random salt (`BcryptError::Rand`, shown
/// as `Rand error: ...`).
#[verifier::external_body]
pub(crate) fn hash_password(password: &str) -> (r: Result<String, String>)
    ensures
        r matches Ok(h) ==> bcrypt_verify_result(password@, h@) == Some(true),
        r matches Err(m) ==> exists|t: Seq<char>| m@ == "Rand error: "@ + t,
{
    match bcrypt::hash(password, bcrypt::DEFAULT_COST) {
        Ok(h) => Ok(h),
        Err(err) => Err(err.to_string()),
    }
}

} // verus!
