//! A multi-user task-list service: users register and log in, then create,
//! read, update, and delete todo items scoped to their own account.
//!
//! The library holds the ownership-scoped data-access and authentication
//! rules: which rows a request may see or mutate, and the session-token
//! lifecycle that establishes identity. HTTP routing and other plumbing live
//! outside the library.

pub mod auth;
pub mod errors;
pub mod models;
pub mod service;
pub mod store;
pub mod text;
pub mod token;
