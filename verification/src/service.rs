//! Per-endpoint handler logic: registration, login, and the ownership-scoped
//! todo operations, each stated against the store's model.
//!
//! Password hashing and checking come from the `bcrypt` crate behind two
//! trusted wrappers; whether a password matches a stored hash is captured by
//! the name [`hash_check`], a function of the two texts alone.

use vstd::prelude::*;

use crate::auth::AuthenticatedUser;
use crate::errors::ApiError;
use crate::models::{
    LoginPayload, NewTodo, RegisterPayload, Todo, TodoQueryParams, TokenResponse, UpdateTodo, User,
};
use crate::store::{
    has_username, list_spec, owns, patched, search_view, user_named, Store,
};
use crate::token::{claims_of, create_jwt, token_char, TOKEN_LIFETIME_SECS};

verus! {

/// What `bcrypt::verify` returns for a password and a stored hash: whether
/// the password matches (`Some`), or `None` when the stored text is not a
/// valid hash. A function of the two texts alone.
pub uninterp spec fn hash_check(plain: Seq<char>, hashed: Seq<char>) -> Option<bool>;

/// Relies on `bcrypt::hash` with the default cost: the result is a salted
/// one-way hash that `bcrypt::verify` accepts against the hashed password.
/// The salt is drawn from OS randomness, so nothing else is promised of the
/// returned text.
#[verifier::external_body]
fn hash_password(plain: &String) -> (r: Option<String>)
    ensures
        r matches Some(h) ==> hash_check(plain@, h@) == Some(true),
{
    bcrypt::hash(plain.as_str(), bcrypt::DEFAULT_COST).ok()
}

/// Relies on `bcrypt::verify`: a constant-time-safe comparison whose outcome
/// depends on the password and the stored hash alone.
#[verifier::external_body]
fn verify_password(plain: &String, hashed: &String) -> (r: Option<bool>)
    ensures
        r == hash_check(plain@, hashed@),
{
    bcrypt::verify(plain.as_str(), hashed.as_str()).ok()
}

/// Registers a new account: fails with a conflict exactly when the username
/// is taken; otherwise hashes the password and persists a new user whose
/// stored hash the password checks against.
pub fn register_user(store: &mut Store, payload: &RegisterPayload) -> (r: Result<User, ApiError>)
    requires
        old(store).wf(),
        old(store).next_user_id < i32::MAX,
    ensures
        final(store).wf(),
        r is Err ==> *final(store) == *old(store),
        r == Err::<User, ApiError>(ApiError::Conflict) <==> has_username(
            old(store).users@,
            payload.username@,
        ),
        r is Err ==> (r == Err::<User, ApiError>(ApiError::Conflict) || r == Err::<
            User,
            ApiError,
        >(ApiError::Internal)),
        r matches Ok(u) ==> ({
            &&& u.id == old(store).next_user_id
            &&& u.username@ == payload.username@
            &&& hash_check(payload.password@, u.password@) == Some(true)
            &&& final(store).users@ == old(store).users@.push(u)
            &&& final(store).todos@ == old(store).todos@
            &&& final(store).next_user_id == old(store).next_user_id + 1
        }),
{
    match store.find_by_username(&payload.username) {
        Some(_) => Err(ApiError::Conflict),
        None => match hash_password(&payload.password) {
            None => Err(ApiError::Internal),
            Some(h) => match store.register(&payload.username, &h) {
                Ok(u) => Ok(u),
                Err(_) => Err(ApiError::Internal),
            },
        },
    }
}

/// Logs a user in: succeeds exactly when the username is known and the
/// password checks against the stored hash, rejected as unauthenticated
/// exactly when the username is unknown or the password fails the hash; the
/// returned token's claims are the username and an expiry one hour past
/// `now`. (The remaining case, a stored text that is no valid hash at all,
/// is an internal failure.)
pub fn login(store: &Store, payload: &LoginPayload, secret: &Vec<u8>, now: u64) -> (r: Result<
    TokenResponse,
    ApiError,
>)
    requires
        store.wf(),
        now + TOKEN_LIFETIME_SECS <= u64::MAX,
    ensures
        r is Ok <==> (has_username(store.users@, payload.username@) && hash_check(
            payload.password@,
            user_named(store.users@, payload.username@).password@,
        ) == Some(true)),
        r == Err::<TokenResponse, ApiError>(ApiError::Unauthenticated) <==> (!has_username(
            store.users@,
            payload.username@,
        ) || hash_check(
            payload.password@,
            user_named(store.users@, payload.username@).password@,
        ) == Some(false)),
        r is Err ==> (r == Err::<TokenResponse, ApiError>(ApiError::Unauthenticated) || r
            == Err::<TokenResponse, ApiError>(ApiError::Internal)),
        r matches Ok(t) ==> ({
            &&& has_username(store.users@, payload.username@)
            &&& hash_check(
                payload.password@,
                user_named(store.users@, payload.username@).password@,
            ) == Some(true)
            &&& claims_of(t.token@, secret@) == Some(
                (payload.username@, (now + TOKEN_LIFETIME_SECS) as u64),
            )
            &&& forall|i: int| 0 <= i < t.token@.len() ==> token_char(t.token@[i])
        }),
{
    match store.find_by_username(&payload.username) {
        None => Err(ApiError::Unauthenticated),
        Some(user) => match verify_password(&payload.password, &user.password) {
            None => Err(ApiError::Internal),
            Some(false) => Err(ApiError::Unauthenticated),
            Some(true) => match create_jwt(secret, &user.username, now) {
                Ok(token) => Ok(TokenResponse { token }),
                Err(_) => Err(ApiError::Internal),
            },
        },
    }
}

/// Handler logic for listing the caller's todos under the optional filters.
pub fn get_all_todos(store: &Store, auth: &AuthenticatedUser, params: &TodoQueryParams) -> (r: Vec<
    Todo,
>)
    requires
        store.wf(),
    ensures
        r@ == list_spec(
            store.users@,
            auth.username@,
            params.completed,
            search_view(params.search),
            store.todos@,
        ),
{
    store.list_todos(&auth.username, params)
}

/// Handler logic for creating a todo owned by the caller; an absent
/// `completed` field defaults to `false`. The caller's account no longer
/// existing surfaces as an internal failure: token verification implies the
/// account existed at issuance, so a failed owner lookup is a server-side
/// anomaly, not a client error.
pub fn create_todo_for(store: &mut Store, auth: &AuthenticatedUser, payload: NewTodo) -> (r:
    Result<Todo, ApiError>)
    requires
        old(store).wf(),
        old(store).next_todo_id < i32::MAX,
    ensures
        final(store).wf(),
        r is Err <==> !has_username(old(store).users@, auth.username@),
        r is Err ==> *final(store) == *old(store) && r == Err::<Todo, ApiError>(
            ApiError::Internal,
        ),
        r matches Ok(t) ==> ({
            &&& t.id == old(store).next_todo_id
            &&& t.title@ == payload.title@
            &&& t.completed == (match payload.completed {
                Some(c) => c,
                None => false,
            })
            &&& owns(old(store).users@, auth.username@, t.user_id as int)
            &&& final(store).todos@ == old(store).todos@.push(t)
            &&& final(store).users@ == old(store).users@
        }),
{
    let completed: bool = match payload.completed {
        Some(c) => c,
        None => false,
    };
    match store.create_todo(&auth.username, &payload.title, completed) {
        Ok(t) => Ok(t),
        Err(_) => Err(ApiError::Internal),
    }
}

/// Handler logic for fetching one todo: a missing id and a foreign owner are
/// both the same not-found outcome.
pub fn get_todo_for(store: &Store, auth: &AuthenticatedUser, id: i32) -> (r: Result<Todo, ApiError>)
    requires
        store.wf(),
    ensures
        r is Ok <==> exists|j: int|
            0 <= j < store.todos@.len() && (#[trigger] store.todos@[j]).id == id && owns(
                store.users@,
                auth.username@,
                store.todos@[j].user_id as int,
            ),
        r matches Ok(t) ==> t.id == id && store.todos@.contains(t) && owns(
            store.users@,
            auth.username@,
            t.user_id as int,
        ),
        r is Err ==> r == Err::<Todo, ApiError>(ApiError::NotFound),
{
    match store.get_todo(&auth.username, id) {
        Some(t) => Ok(t),
        None => Err(ApiError::NotFound),
    }
}

/// Handler logic for partially updating one todo the caller owns; the same
/// not-found outcome covers a missing id and a foreign owner.
pub fn update_todo_for(store: &mut Store, auth: &AuthenticatedUser, id: i32, patch: UpdateTodo) -> (
    r: Result<Todo, ApiError>)
    requires
        old(store).wf(),
    ensures
        final(store).wf(),
        final(store).users@ == old(store).users@,
        r is Ok <==> exists|j: int|
            0 <= j < old(store).todos@.len() && (#[trigger] old(store).todos@[j]).id == id && owns(
                old(store).users@,
                auth.username@,
                old(store).todos@[j].user_id as int,
            ),
        r matches Ok(t) ==> exists|j: int|
            0 <= j < old(store).todos@.len() && (#[trigger] old(store).todos@[j]).id == id && owns(
                old(store).users@,
                auth.username@,
                old(store).todos@[j].user_id as int,
            ) && t == patched(old(store).todos@[j], patch) && final(store).todos@ == old(
                store,
            ).todos@.update(j, t),
        r is Err ==> final(store).todos@ == old(store).todos@ && r == Err::<Todo, ApiError>(
            ApiError::NotFound,
        ),
{
    match store.update_todo(&auth.username, id, patch) {
        Some(t) => Ok(t),
        None => Err(ApiError::NotFound),
    }
}

/// Handler logic for deleting one todo the caller owns; success has no body,
/// and the same not-found outcome covers a missing id and a foreign owner.
pub fn delete_todo_for(store: &mut Store, auth: &AuthenticatedUser, id: i32) -> (r: Result<
    (),
    ApiError,
>)
    requires
        old(store).wf(),
    ensures
        final(store).wf(),
        final(store).users@ == old(store).users@,
        r is Ok <==> exists|j: int|
            0 <= j < old(store).todos@.len() && (#[trigger] old(store).todos@[j]).id == id && owns(
                old(store).users@,
                auth.username@,
                old(store).todos@[j].user_id as int,
            ),
        r is Ok ==> exists|j: int|
            0 <= j < old(store).todos@.len() && (#[trigger] old(store).todos@[j]).id == id && owns(
                old(store).users@,
                auth.username@,
                old(store).todos@[j].user_id as int,
            ) && final(store).todos@ == old(store).todos@.remove(j),
        r is Err ==> final(store).todos@ == old(store).todos@ && r == Err::<(), ApiError>(
            ApiError::NotFound,
        ),
{
    if store.delete_todo(&auth.username, id) {
        Ok(())
    } else {
        Err(ApiError::NotFound)
    }
}

} // verus!
