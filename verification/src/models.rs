//! The records the service stores and the request/response shapes the
//! handlers exchange with clients.

use vstd::prelude::*;

verus! {

/// A registered account. `password` holds the salted one-way hash of the
/// password, never the plaintext.
#[derive(Debug)]
pub struct User {
    pub id: i32,
    pub username: String,
    pub password: String,
}

/// A task owned by exactly one user; only the owner may read, mutate, or
/// delete it.
#[derive(Debug)]
pub struct Todo {
    pub id: i32,
    pub title: String,
    pub completed: bool,
    pub user_id: i32,
}

/// Body of a todo-creation request. The owner is never client-supplied: it is
/// derived from the authenticated identity.
pub struct NewTodo {
    pub title: String,
    pub completed: Option<bool>,
}

/// Body of a todo-update request. A field left `None` keeps the stored value.
#[derive(Debug)]
pub struct UpdateTodo {
    pub title: Option<String>,
    pub completed: Option<bool>,
}

/// Body of a registration request.
#[derive(Debug)]
pub struct RegisterPayload {
    pub username: String,
    pub password: String,
}

/// Body of a login request.
#[derive(Debug)]
pub struct LoginPayload {
    pub username: String,
    pub password: String,
}

/// Query parameters of a todo-list request; absent filters impose no
/// constraint.
pub struct TodoQueryParams {
    pub completed: Option<bool>,
    pub search: Option<String>,
}

/// Successful login response: the signed bearer token.
pub struct TokenResponse {
    pub token: String,
}

} // verus!
