//! Session Authenticator: a pure guard from an `Authorization` header to an
//! authenticated identity.
//!
//! The header must carry the literal, case-sensitive prefix `"Bearer "`; the
//! rest, with surrounding whitespace trimmed, is the token. A missing header,
//! a malformed one, or a token that fails verification rejects the request
//! with a single unauthenticated outcome. No store access happens here.

use vstd::prelude::*;

use crate::errors::ApiError;
use crate::text::{is_space_char, trim_of, trim_str};
use crate::token::{claims_of, token_char, verify_jwt};

verus! {

/// The authenticated identity a verified token establishes.
#[derive(Debug)]
pub struct AuthenticatedUser {
    pub username: String,
}

/// The token a well-formed `Authorization` header value carries: the part
/// after the literal prefix `"Bearer "`, trimmed of surrounding whitespace;
/// `None` when the prefix is absent.
pub open spec fn bearer_token_of(h: Seq<char>) -> Option<Seq<char>> {
    if h.len() >= 7 && h.subrange(0, 7) == "Bearer "@ {
        Some(trim_of(h.subrange(7, h.len() as int)))
    } else {
        None
    }
}

/// The identity an `Authorization` header establishes at time `now` under
/// `secret`: the token's subject when the header is present, carries the
/// bearer prefix, and the token decodes with an expiry still in the future.
pub open spec fn auth_of(header: Option<Seq<char>>, secret: Seq<u8>, now: u64) -> Option<
    Seq<char>,
> {
    match header {
        Some(h) => match bearer_token_of(h) {
            Some(t) => match claims_of(t, secret) {
                Some(c) => if now < c.1 {
                    Some(c.0)
                } else {
                    None
                },
                None => None,
            },
            None => None,
        },
        None => None,
    }
}

/// The view of an optional header value.
pub open spec fn header_view(header: Option<&String>) -> Option<Seq<char>> {
    match header {
        Some(h) => Some(h@),
        None => None,
    }
}

/// Extracts the bearer token from an `Authorization` header value.
pub fn extract_bearer(header: &String) -> (r: Option<String>)
    ensures
        r is Some <==> bearer_token_of(header@) is Some,
        r matches Some(t) ==> bearer_token_of(header@) == Some(t@),
{
    let h: &str = header.as_str();
    let len: usize = h.unicode_len();
    if len < 7 {
        return None;
    }
    if h.get_char(0) == 'B' && h.get_char(1) == 'e' && h.get_char(2) == 'a' && h.get_char(3)
        == 'r' && h.get_char(4) == 'e' && h.get_char(5) == 'r' && h.get_char(6) == ' ' {
        proof {
            reveal_strlit("Bearer ");
            assert(header@.subrange(0, 7) =~= "Bearer "@);
        }
        let rest: &str = h.substring_char(7, len);
        Some(trim_str(rest))
    } else {
        proof {
            reveal_strlit("Bearer ");
            if header@.subrange(0, 7) == "Bearer "@ {
                assert forall|k: int| 0 <= k < 7 implies header@[k] == "Bearer "@[k] by {
                    assert(header@.subrange(0, 7)[k] == header@[k]);
                }
            }
        }
        None
    }
}

/// The guard run before every protected handler: resolves the header to an
/// authenticated identity, or rejects the request as unauthenticated before
/// any store access.
pub fn authenticate(header: Option<&String>, secret: &Vec<u8>, now: u64) -> (r: Result<
    AuthenticatedUser,
    ApiError,
>)
    ensures
        r is Ok <==> auth_of(header_view(header), secret@, now) is Some,
        r matches Ok(u) ==> auth_of(header_view(header), secret@, now) == Some(u.username@),
        r is Err ==> r == Err::<AuthenticatedUser, ApiError>(ApiError::Unauthenticated),
{
    match header {
        None => Err(ApiError::Unauthenticated),
        Some(h) => match extract_bearer(h) {
            None => Err(ApiError::Unauthenticated),
            Some(token) => match verify_jwt(secret, &token, now) {
                Ok(claims) => Ok(AuthenticatedUser { username: claims.sub }),
                Err(_) => Err(ApiError::Unauthenticated),
            },
        },
    }
}

/// Law: a token whose claims decode under the secret to an expiry still in
/// the future authenticates a request whose `Authorization` header is the
/// bearer prefix followed by that token; the identity it establishes is the
/// token's subject. Together with the contract of `login`, a successful login
/// therefore opens every protected endpoint until the token expires.
pub proof fn lemma_fresh_token_authenticates(
    token: Seq<char>,
    secret: Seq<u8>,
    sub: Seq<char>,
    exp: u64,
    now: u64,
)
    requires
        claims_of(token, secret) == Some((sub, exp)),
        now < exp,
        forall|i: int| 0 <= i < token.len() ==> token_char(token[i]),
    ensures
        auth_of(Some("Bearer "@ + token), secret, now) == Some(sub),
{
    reveal_strlit("Bearer ");
    let h = "Bearer "@ + token;
    assert(h.subrange(0, 7) =~= "Bearer "@);
    assert(h.subrange(7, h.len() as int) =~= token);
    lemma_token_chars_trim(token);
}

/// Law: a token whose embedded expiry is not in the future never
/// authenticates, regardless of signature validity: whether its claims fail
/// to decode or decode to a passed expiry, the guard rejects the request.
pub proof fn lemma_expired_token_rejected(
    h: Seq<char>,
    token: Seq<char>,
    secret: Seq<u8>,
    now: u64,
)
    requires
        bearer_token_of(h) == Some(token),
        claims_of(token, secret) matches Some(c) ==> c.1 <= now,
    ensures
        auth_of(Some(h), secret, now) is None,
{
}

/// A compact token has no whitespace to trim: its characters are all from
/// the base64url alphabet or the separator.
proof fn lemma_token_chars_trim(token: Seq<char>)
    requires
        forall|i: int| 0 <= i < token.len() ==> token_char(token[i]),
    ensures
        trim_of(token) == token,
{
    if token.len() > 0 {
        assert(!is_space_char(token[0]));
        assert(!is_space_char(token[token.len() - 1]));
    }
}

} // verus!
