//! Signing and checking administrator tokens with `jsonwebtoken` (HS256).
use vstd::prelude::*;
use crate::handler::admin::login::Claims;

verus! {

/// `serde_json::Map`, carried through opaquely.
#[verifier::external_type_specification]
#[verifier::external_body]
#[verifier::reject_recursive_types(K)]
#[verifier::reject_recursive_types(V)]
pub struct ExJsonMap<K, V>(serde_json::Map<K, V>);

/// `serde_json::Value`, carried through opaquely.
#[verifier::external_type_specification]
#[verifier::external_body]
pub struct ExJsonValue(serde_json::Value);

/// The token that `jsonwebtoken::encode` makes with the default header
/// (HS256) of the claims `{"sub", "username", "exp"}`, in that order,
/// signed with `secret`.
pub uninterp spec fn admin_token_text(
    sub: Seq<char>,
    username: Seq<char>,
    exp: u64,
    secret: Seq<char>,
) -> Seq<char>;

/// `jsonwebtoken::encode(&Header::default(), claims, &EncodingKey::from_secret(secret))`
/// with the claims written as a JSON object of `sub`, `username` and `exp`;
/// the error would be written out with `to_string`. The token is a function
/// of the claims and the secret, and signing never fails here: a key made
/// from a secret belongs to the HMAC family of the default header's HS256,
/// the header and a map with string keys always serialise, and HMAC
/// signing accepts a secret of any length.
#[verifier::external_body]
pub(crate) fn encode_admin_token(claims: &Claims, secret: &str) -> (r: Result<String, String>)
    ensures
        r is Ok,
        r matches Ok(t) ==> t@ == admin_token_text(claims.sub@, claims.username@, claims.exp, secret@),
{
    let mut payload = serde_json::Map::new();
    payload.insert("sub".to_owned(), serde_json::Value::from(claims.sub.clone()));
    payload.insert("username".to_owned(), serde_json::Value::from(claims.username.clone()));
    payload.insert("exp".to_owned(), serde_json::Value::from(claims.exp));
    let key = jsonwebtoken::EncodingKey::from_secret(secret.as_bytes());
    match jsonwebtoken::encode(&jsonwebtoken::Header::default(), &payload, &key) {
        Ok(token) => Ok(token),
        Err(err) => Err(err.to_string()),
    }
}

/// `jsonwebtoken::decode` of `token` with `DecodingKey::from_secret(secret)`
/// and `Validation::default()`: the claims object of a token with a valid
/// HS256 signature whose `exp` has not passed (with a minute's leeway) on
/// the system clock, `None` for any other token. Because the outcome
/// depends on the clock, nothing is stated of it.
#[verifier::external_body]
pub(crate) fn decode_token_claims(token: &str, secret: &str) -> Option<
    serde_json::Map<String, serde_json::Value>,
> {
    let key = jsonwebtoken::DecodingKey::from_secret(secret.as_bytes());
    let validation = jsonwebtoken::Validation::default();
    match jsonwebtoken::decode::<serde_json::Map<String, serde_json::Value>>(token, &key, &validation) {
        Ok(data) => Some(data.claims),
        Err(_) => None,
    }
}

/// `Map::get(key)`, cloned. What the map holds is opaque here.
#[verifier::external_body]
pub(crate) fn claim(claims: &serde_json::Map<String, serde_json::Value>, key: &str) -> Option<
    serde_json::Value,
> {
    claims.get(key).cloned()
}

/// `Value::as_str`, owned: the text of a JSON string.
#[verifier::external_body]
pub(crate) fn json_text(value: &serde_json::Value) -> Option<String> {
    value.as_str().map(str::to_owned)
}

/// `Value::as_u64`: a JSON number that is a non-negative integer.
#[verifier::external_body]
pub(crate) fn json_unsigned(value: &serde_json::Value) -> Option<u64> {
    value.as_u64()
}

} // verus!
