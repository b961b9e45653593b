//! Token Service: issues and verifies signed, time-limited identity tokens.
//!
//! The compact token format and its HMAC signature come from the
//! `jsonwebtoken` crate behind two trusted wrappers; everything decided here
//! (expiry, the claim values) is verified. Whatever a token's bytes look
//! like, its meaning is captured by [`claims_of`]: the subject and expiry
//! that decoding it under a given secret yields.

use vstd::prelude::*;

use crate::errors::{ApiError, TokenError};

verus! {

/// Seconds a freshly issued token stays valid.
pub const TOKEN_LIFETIME_SECS: u64 = 3600;

/// The claims a token carries: the subject (username) and the expiration
/// timestamp, in seconds since the Unix epoch.
#[derive(Debug)]
pub struct Claims {
    pub sub: String,
    pub exp: u64,
}

/// What decoding a token under a secret yields: `Some((subject, expiry))`
/// when the token parses and its signature verifies against the secret, and
/// the payload carries a string subject and an integer expiry; `None`
/// otherwise. Names the result of `jsonwebtoken::decode`, a function of the
/// token and the secret alone.
pub uninterp spec fn claims_of(token: Seq<char>, secret: Seq<u8>) -> Option<(Seq<char>, u64)>;

/// The characters a compact token is made of: the base64url alphabet and the
/// segment separator.
pub open spec fn token_char(c: char) -> bool {
    ||| 'A' <= c <= 'Z'
    ||| 'a' <= c <= 'z'
    ||| '0' <= c <= '9'
    ||| c == '-'
    ||| c == '_'
    ||| c == '.'
}

/// Relies on `jsonwebtoken::encode` with the default header (HS256) and on
/// `jsonwebtoken::decode` inverting it: decoding the returned token under the
/// same secret yields exactly the subject and expiry encoded here, and the
/// compact serialization consists of base64url segments joined by `.`.
/// Encoding always succeeds: the secret key and the HS256 header agree in
/// family, the fixed header and the string/integer claims map always
/// serialize, and HMAC signing has no failure path.
#[verifier::external_body]
fn jwt_encode(sub: &String, exp: u64, secret: &Vec<u8>) -> (r: Option<String>)
    ensures
        r is Some,
        r matches Some(t) ==> claims_of(t@, secret@) == Some((sub@, exp)),
        r matches Some(t) ==> forall|i: int| 0 <= i < t@.len() ==> token_char(t@[i]),
{
    let mut claims = serde_json::Map::new();
    claims.insert("sub".to_string(), serde_json::Value::from(sub.as_str()));
    claims.insert("exp".to_string(), serde_json::Value::from(exp));
    let key = jsonwebtoken::EncodingKey::from_secret(secret.as_slice());
    let payload = serde_json::Value::Object(claims);
    jsonwebtoken::encode(&jsonwebtoken::Header::default(), &payload, &key).ok()
}

/// Relies on `jsonwebtoken::decode` over HS256 with expiry validation turned
/// off, so the result is a function of the token and the secret alone; the
/// expiry check is done in verified code by [`verify_jwt`].
#[verifier::external_body]
fn jwt_decode(token: &String, secret: &Vec<u8>) -> (r: Option<(String, u64)>)
    ensures
        r is Some <==> claims_of(token@, secret@) is Some,
        r matches Some(c) ==> claims_of(token@, secret@) == Some((c.0@, c.1)),
{
    let mut validation = jsonwebtoken::Validation::new(jsonwebtoken::Algorithm::HS256);
    validation.validate_exp = false;
    validation.required_spec_claims = std::collections::HashSet::new();
    let key = jsonwebtoken::DecodingKey::from_secret(secret.as_slice());
    let data = jsonwebtoken::decode::<serde_json::Value>(token.as_str(), &key, &validation).ok()?;
    let sub = data.claims.get("sub")?.as_str()?.to_string();
    let exp = data.claims.get("exp")?.as_u64()?;
    Some((sub, exp))
}

/// Issues a token for `username` expiring one hour after `now`.
pub fn create_jwt(secret: &Vec<u8>, username: &String, now: u64) -> (r: Result<String, ApiError>)
    requires
        now + TOKEN_LIFETIME_SECS <= u64::MAX,
    ensures
        r is Ok,
        r matches Ok(t) ==> claims_of(t@, secret@) == Some(
            (username@, (now + TOKEN_LIFETIME_SECS) as u64),
        ),
        r matches Ok(t) ==> forall|i: int| 0 <= i < t@.len() ==> token_char(t@[i]),
{
    let exp: u64 = now + TOKEN_LIFETIME_SECS;
    match jwt_encode(username, exp, secret) {
        Some(t) => Ok(t),
        None => Err(ApiError::Internal),
    }
}

/// Verifies a token at time `now`: the claims are returned exactly when the
/// token decodes under the secret and its expiry is still in the future.
pub fn verify_jwt(secret: &Vec<u8>, token: &String, now: u64) -> (r: Result<Claims, TokenError>)
    ensures
        r is Ok <==> (claims_of(token@, secret@) matches Some(c) && now < c.1),
        r matches Ok(cl) ==> (claims_of(token@, secret@) matches Some(c) && cl.sub@ == c.0
            && cl.exp == c.1),
        r == Err::<Claims, TokenError>(TokenError::Invalid) <==> claims_of(token@, secret@)
            is None,
        r == Err::<Claims, TokenError>(TokenError::Expired) <==> (claims_of(token@, secret@)
            matches Some(c) && c.1 <= now),
{
    match jwt_decode(token, secret) {
        Some((sub, exp)) => {
            if now < exp {
                Ok(Claims { sub, exp })
            } else {
                Err(TokenError::Expired)
            }
        },
        None => Err(TokenError::Invalid),
    }
}

} // verus!
