use todo_service::auth::authenticate;
use todo_service::errors::{ApiError, TokenError};
use todo_service::token::{create_jwt, verify_jwt};

fn secret() -> Vec<u8> {
    b"unit-test-signing-secret".to_vec()
}

#[test]
fn token_round_trip() {
    let key = secret();
    let now: u64 = 1_700_000_000;
    let token = create_jwt(&key, &String::from("alice"), now).unwrap();
    let claims = verify_jwt(&key, &token, now).unwrap();
    assert_eq!(claims.sub, "alice");
    assert_eq!(claims.exp, now + 3600);
}

#[test]
fn token_valid_until_expiry() {
    let key = secret();
    let now: u64 = 1_700_000_000;
    let token = create_jwt(&key, &String::from("alice"), now).unwrap();
    // Still valid one second before the expiry instant.
    assert!(verify_jwt(&key, &token, now + 3599).is_ok());
    // The embedded expiry is no longer in the future: rejected as expired.
    assert!(matches!(
        verify_jwt(&key, &token, now + 3600),
        Err(TokenError::Expired)
    ));
    assert!(matches!(
        verify_jwt(&key, &token, now + 9999),
        Err(TokenError::Expired)
    ));
}

#[test]
fn token_wrong_secret_rejected() {
    let key = secret();
    let other = b"some-other-secret".to_vec();
    let now: u64 = 1_700_000_000;
    let token = create_jwt(&key, &String::from("alice"), now).unwrap();
    assert!(matches!(
        verify_jwt(&other, &token, now),
        Err(TokenError::Invalid)
    ));
}

#[test]
fn token_garbage_rejected() {
    let key = secret();
    let now: u64 = 1_700_000_000;
    assert!(matches!(
        verify_jwt(&key, &String::from("not-a-token"), now),
        Err(TokenError::Invalid)
    ));
    assert!(matches!(
        verify_jwt(&key, &String::new(), now),
        Err(TokenError::Invalid)
    ));
}

#[test]
fn authenticate_accepts_bearer_header() {
    let key = secret();
    let now: u64 = 1_700_000_000;
    let token = create_jwt(&key, &String::from("alice"), now).unwrap();
    let header = format!("Bearer {}", token);
    let user = authenticate(Some(&header), &key, now).unwrap();
    assert_eq!(user.username, "alice");
}

#[test]
fn authenticate_trims_token_whitespace() {
    let key = secret();
    let now: u64 = 1_700_000_000;
    let token = create_jwt(&key, &String::from("alice"), now).unwrap();
    let header = format!("Bearer   {}  ", token);
    let user = authenticate(Some(&header), &key, now).unwrap();
    assert_eq!(user.username, "alice");
}

#[test]
fn authenticate_rejects_bad_headers() {
    let key = secret();
    let now: u64 = 1_700_000_000;
    let token = create_jwt(&key, &String::from("alice"), now).unwrap();

    // Missing header.
    assert!(matches!(
        authenticate(None, &key, now),
        Err(ApiError::Unauthenticated)
    ));
    // Prefix is case-sensitive.
    let lower = format!("bearer {}", token);
    assert!(matches!(
        authenticate(Some(&lower), &key, now),
        Err(ApiError::Unauthenticated)
    ));
    // No bearer prefix at all.
    assert!(matches!(
        authenticate(Some(&token), &key, now),
        Err(ApiError::Unauthenticated)
    ));
    // Expired token is rejected at the guard.
    let header = format!("Bearer {}", token);
    assert!(matches!(
        authenticate(Some(&header), &key, now + 3600),
        Err(ApiError::Unauthenticated)
    ));
}
