//! Request handling for a small HTTP service that keeps user records in a
//! relational store.  Everything here is pure: the caller owns the socket and
//! the store connection and exchanges plain values with this crate.
//!
//! A connection is served in four moves:
//!
//! 1. `request::read_request` turns what one read of the connection gave into
//!    the text of the request;
//! 2. the caller decodes `request::body_from_request` into a `user::User`, if
//!    the body is one;
//! 3. `handlers::handle_client` says what to do next: answer at once, or send
//!    a command to the store;
//! 4. the caller runs the command, and `handlers::respond` turns the store's
//!    reply into the response.
//!
//! `response::Response::to_bytes` is what goes back on the connection.  What
//! holds of these moves together, with a store that works, is in `laws`.

pub mod handlers;
pub mod laws;
pub mod number;
pub mod request;
pub mod response;
pub mod route;
pub mod store;
pub mod text;
pub mod user;
