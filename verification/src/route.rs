//! Routing: which of the five operations a request line asks for.

use crate::text::{chars_of, has_prefix, starts_with};
use vstd::prelude::*;

verus! {

/// The operation a request asks for.
#[derive(Clone, Copy, Debug, PartialEq, Eq, Structural)]
pub enum Route {
    /// Read the user whose identifier is in the path.
    GetOne,
    /// Read every user.
    GetAll,
    /// Store the user in the body.
    Create,
    /// Replace the user whose identifier is in the path by the one in the
    /// body.
    Update,
    /// Remove the user whose identifier is in the path.
    Delete,
    /// Nothing this service offers.
    NotFound,
}

/// The route of a request line: the first of five prefixes that the line
/// begins with decides.  The order matters, as the prefix for reading all
/// users also begins every line that reads one.
pub open spec fn route_of(line: Seq<char>) -> Route {
    if starts_with(line, "GET /users/"@) {
        Route::GetOne
    } else if starts_with(line, "GET /users"@) {
        Route::GetAll
    } else if starts_with(line, "POST /users"@) {
        Route::Create
    } else if starts_with(line, "PUT /users"@) {
        Route::Update
    } else if starts_with(line, "DELETE /users/"@) {
        Route::Delete
    } else {
        Route::NotFound
    }
}

/// The route of the request line whose characters are `line`.
pub fn route_chars(line: &Vec<char>) -> (r: Route)
    ensures
        r == route_of(line@),
{
    if has_prefix(line, &chars_of("GET /users/")) {
        Route::GetOne
    } else if has_prefix(line, &chars_of("GET /users")) {
        Route::GetAll
    } else if has_prefix(line, &chars_of("POST /users")) {
        Route::Create
    } else if has_prefix(line, &chars_of("PUT /users")) {
        Route::Update
    } else if has_prefix(line, &chars_of("DELETE /users/")) {
        Route::Delete
    } else {
        Route::NotFound
    }
}

/// The route of a request line.
pub fn route(line: &str) -> (r: Route)
    ensures
        r == route_of(line@),
{
    route_chars(&chars_of(line))
}

} // verus!
