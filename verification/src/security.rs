//! Administrator authentication: password checking and token issuance.
//!
//! The signing secret is fixed here; a real deployment would read it from
//! configuration.

use vstd::prelude::*;

verus! {

/// The claims carried by an issued token: the administrator's email and
/// the expiry moment as a unix timestamp.
#[derive(Debug, PartialEq)]
pub struct Claims {
    pub sub: String,
    pub exp: usize,
}

/// An administrator whose request carried a valid token; the surrounding
/// transport layer builds one after validating the token it was handed.
#[derive(Debug, PartialEq)]
pub struct AuthenticatedAdmin {
    pub email: String,
}

/// Whether bcrypt accepts this password against this stored hash. The
/// check rehashes the password with the salt and cost held in the hash
/// text, so it depends on the two texts alone.
pub uninterp spec fn bcrypt_accepts(password: Seq<char>, hash: Seq<char>) -> bool;

/// Relies on bcrypt's `verify`: true exactly when the password matches the
/// hash; a malformed hash is treated as a mismatch, as every outcome of it
/// is fixed by the two texts.
#[verifier::external_body]
pub(crate) fn verify_password(password: &str, hash: &str) -> (r: bool)
    ensures
        r == bcrypt_accepts(password@, hash@),
{
    bcrypt::verify(password, hash).unwrap_or(false)
}

/// The HS256 token for these claims under this secret, when signing
/// succeeds; the signature is an HMAC, a function of its inputs alone.
pub uninterp spec fn hs256_token(sub: Seq<char>, exp: int, secret: Seq<char>) -> Option<Seq<char>>;

/// Relies on jsonwebtoken's `encode` with the default HS256 header: the
/// token is the signed, base64 text of the header and the claims, fixed by
/// the claims and the secret; `None` exactly when encoding fails, which
/// likewise depends on the inputs alone.
#[verifier::external_body]
fn encode_hs256(sub: &str, exp: usize, secret: &str) -> (r: Option<String>)
    ensures
        r matches Some(t) ==> hs256_token(sub@, exp as int, secret@) == Some(t@),
        r is None ==> hs256_token(sub@, exp as int, secret@) is None,
{
    let mut claims = serde_json::Map::new();
    claims.insert("sub".to_string(), serde_json::Value::from(sub));
    claims.insert("exp".to_string(), serde_json::Value::from(exp as u64));
    jsonwebtoken::encode(
        &jsonwebtoken::Header::default(),
        &serde_json::Value::Object(claims),
        &jsonwebtoken::EncodingKey::from_secret(secret.as_bytes()),
    ).ok()
}

/// Relies on chrono's `Utc::now` and `checked_add_signed`: the moment this
/// many hours from now, as a unix timestamp, absent when out of range.
/// Nothing is promised of a clock reading.
#[verifier::external_body]
fn timestamp_hours_from_now(hours: i64) -> (r: Option<usize>)
{
    chrono::TimeDelta::try_hours(hours)
        .and_then(|d| chrono::Utc::now().checked_add_signed(d))
        .map(|t| t.timestamp() as usize)
}

/// Issues a token for this administrator email, valid for a day: absent
/// when the expiry cannot be computed or signing fails.
pub fn create_jwt(email: String) -> (r: Option<String>)
    ensures
        r matches Some(t) ==> (exists|exp: int|
            #[trigger] hs256_token(email@, exp, "secret"@) == Some(t@)),
{
    let exp = match timestamp_hours_from_now(24) {
        Some(e) => e,
        None => {
            return None;
        },
    };
    encode_hs256(email.as_str(), exp, "secret")
}

} // verus!
