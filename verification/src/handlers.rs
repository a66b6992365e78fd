//! The five operations.  Each has two halves with the store between them:
//! `handle_*` says what to ask of the store for a request, `finish_*` what to
//! answer the client for the store's reply.  The caller makes the round trip.

use crate::number::{decimal_string, decimal_text};
use crate::request::{get_id_from_request, path_id, request_line, request_line_chars};
use crate::response::{Response, ResponseView, Status};
use crate::route::{route_chars, route_of, Route};
use crate::store::{StoreCommand, StoreCommandView, StoreReply, StoreReplyView};
use crate::text::chars_of;
use crate::user::{option_view, user_json, user_list_json, user_list_to_json, User, UserView};
use vstd::prelude::*;

verus! {

/// What to do next for a request: answer at once, or ask the store first.
#[derive(Clone, Debug, PartialEq, Eq)]
pub enum Step {
    /// Send this response; the store is not touched.
    Reply(Response),
    /// Send this command to the store, then answer with `respond`.
    Ask(StoreCommand),
}

/// What a `Step` holds, as plain mathematics.
pub enum StepView {
    Reply(ResponseView),
    Ask(StoreCommandView),
}

impl View for Step {
    type V = StepView;

    open spec fn view(&self) -> StepView {
        match self {
            Step::Reply(response) => StepView::Reply(response@),
            Step::Ask(command) => StepView::Ask(command@),
        }
    }
}

/// A successful response with this body.
pub open spec fn success(body: Seq<char>) -> ResponseView {
    ResponseView { status: Status::Success, body }
}

/// The response for a user that the store does not hold.
pub open spec fn user_not_found() -> ResponseView {
    ResponseView { status: Status::NotFound, body: "User not found"@ }
}

/// The response for a request that no route takes.
pub open spec fn resource_not_found() -> ResponseView {
    ResponseView { status: Status::NotFound, body: "Resource not found"@ }
}

/// The response for every failure: a body that is not a user, a store that
/// cannot be reached or refuses the statement, a reply that does not answer
/// the command.
pub open spec fn internal_server_error() -> ResponseView {
    ResponseView { status: Status::InternalServerError, body: "Internal server error"@ }
}

/// The body that tells the client which identifier its new user has.
pub open spec fn created_body(id: i32) -> Seq<char> {
    "User created with id: "@ + decimal_text(id as int) + "}"@
}

/// Reading one user: ask for the row of the identifier in the path.
pub open spec fn get_plan(request: Seq<char>) -> StepView {
    StepView::Ask(StoreCommandView::FetchOne { id: path_id(request) })
}

/// Reading all users: ask for every row.
pub open spec fn get_all_plan() -> StepView {
    StepView::Ask(StoreCommandView::FetchAll)
}

/// Creating a user: where the body was a user, ask to add its name and email;
/// the identifier in the body does not count.  Where it was not, fail without
/// asking.
pub open spec fn post_plan(decoded: Option<UserView>) -> StepView {
    match decoded {
        Some(user) => StepView::Ask(
            StoreCommandView::Insert { name: user.name, email: user.email },
        ),
        None => StepView::Reply(internal_server_error()),
    }
}

/// Replacing a user: where the body was a user, ask to put its name and email
/// in the row of the identifier in the path.  Where it was not, fail without
/// asking.
pub open spec fn put_plan(request: Seq<char>, decoded: Option<UserView>) -> StepView {
    match decoded {
        Some(user) => StepView::Ask(
            StoreCommandView::Update { id: path_id(request), name: user.name, email: user.email },
        ),
        None => StepView::Reply(internal_server_error()),
    }
}

/// Removing a user: ask to remove the row of the identifier in the path.
pub open spec fn delete_plan(request: Seq<char>) -> StepView {
    StepView::Ask(StoreCommandView::Delete { id: path_id(request) })
}

/// The first half for any request: the route of its request line picks the
/// operation.  `decoded` is the user that the body of the request decodes to,
/// if it is one.
pub open spec fn plan(request: Seq<char>, decoded: Option<UserView>) -> StepView {
    match route_of(request_line(request)) {
        Route::GetOne => get_plan(request),
        Route::GetAll => get_all_plan(),
        Route::Create => post_plan(decoded),
        Route::Update => put_plan(request, decoded),
        Route::Delete => delete_plan(request),
        Route::NotFound => StepView::Reply(resource_not_found()),
    }
}

/// The second half of reading one user: the row is answered with its JSON,
/// under the identifier the store gave with it; no row is a user not found;
/// anything else is a failure.
pub open spec fn get_outcome(reply: StoreReplyView) -> ResponseView {
    match reply {
        StoreReplyView::Row { id, name, email } => success(
            user_json(UserView { id: Some(id), name, email }),
        ),
        StoreReplyView::NoRow => user_not_found(),
        _ => internal_server_error(),
    }
}

/// The second half of reading all users: the rows are answered with the JSON
/// of their list, which may be empty; anything else is a failure.
pub open spec fn get_all_outcome(reply: StoreReplyView) -> ResponseView {
    match reply {
        StoreReplyView::Rows(users) => success(user_list_json(users)),
        _ => internal_server_error(),
    }
}

/// The second half of creating a user: the new identifier is answered with a
/// sentence that names it; anything else is a failure.
pub open spec fn post_outcome(reply: StoreReplyView) -> ResponseView {
    match reply {
        StoreReplyView::Inserted { id } => success(created_body(id)),
        _ => internal_server_error(),
    }
}

/// The second half of replacing a user: a replacement that touched no row is
/// a user not found, one that touched any is a success; anything else is a
/// failure.
pub open spec fn put_outcome(reply: StoreReplyView) -> ResponseView {
    match reply {
        StoreReplyView::Affected { rows } => if rows == 0 {
            user_not_found()
        } else {
            success("User updated"@)
        },
        _ => internal_server_error(),
    }
}

/// The second half of removing a user: a removal that touched no row is a
/// user not found, one that touched any is a success; anything else is a
/// failure.
pub open spec fn delete_outcome(reply: StoreReplyView) -> ResponseView {
    match reply {
        StoreReplyView::Affected { rows } => if rows == 0 {
            user_not_found()
        } else {
            success("User deleted"@)
        },
        _ => internal_server_error(),
    }
}

/// The second half for any command: the response to the store's reply.  A
/// store that failed, or a reply that is not an answer to the command, is a
/// failure on this side.
pub open spec fn outcome(command: StoreCommandView, reply: StoreReplyView) -> ResponseView {
    match command {
        StoreCommandView::FetchOne { .. } => get_outcome(reply),
        StoreCommandView::FetchAll => get_all_outcome(reply),
        StoreCommandView::Insert { .. } => post_outcome(reply),
        StoreCommandView::Update { .. } => put_outcome(reply),
        StoreCommandView::Delete { .. } => delete_outcome(reply),
    }
}

/// The first half of reading one user.
pub fn handle_get(request: &str) -> (step: Step)
    ensures
        step@ == get_plan(request@),
{
    Step::Ask(StoreCommand::FetchOne { id: get_id_from_request(request) })
}

/// The first half of reading all users.
pub fn handle_get_all() -> (step: Step)
    ensures
        step@ == get_all_plan(),
{
    Step::Ask(StoreCommand::FetchAll)
}

/// The first half of creating a user.
pub fn handle_post(decoded: Option<User>) -> (step: Step)
    ensures
        step@ == post_plan(option_view(decoded)),
{
    match decoded {
        Some(user) => Step::Ask(StoreCommand::Insert { name: user.name, email: user.email }),
        None => Step::Reply(Response::new(Status::InternalServerError, "Internal server error")),
    }
}

/// The first half of replacing a user.
pub fn handle_put(request: &str, decoded: Option<User>) -> (step: Step)
    ensures
        step@ == put_plan(request@, option_view(decoded)),
{
    let id = get_id_from_request(request);
    match decoded {
        Some(user) => Step::Ask(StoreCommand::Update { id, name: user.name, email: user.email }),
        None => Step::Reply(Response::new(Status::InternalServerError, "Internal server error")),
    }
}

/// The first half of removing a user.
pub fn handle_delete(request: &str) -> (step: Step)
    ensures
        step@ == delete_plan(request@),
{
    Step::Ask(StoreCommand::Delete { id: get_id_from_request(request) })
}

/// The first half for any request.  `decoded` is the user that the body of
/// the request decodes to, `None` where it is not one.
pub fn handle_client(request: &str, decoded: Option<User>) -> (step: Step)
    ensures
        step@ == plan(request@, option_view(decoded)),
{
    match route_chars(&request_line_chars(chars_of(request))) {
        Route::GetOne => handle_get(request),
        Route::GetAll => handle_get_all(),
        Route::Create => handle_post(decoded),
        Route::Update => handle_put(request, decoded),
        Route::Delete => handle_delete(request),
        Route::NotFound => Step::Reply(Response::new(Status::NotFound, "Resource not found")),
    }
}

/// The second half of reading one user.
pub fn finish_get(reply: StoreReply) -> (response: Response)
    ensures
        response@ == get_outcome(reply@),
{
    match reply {
        StoreReply::Row { id, name, email } => {
            let user = User { id: Some(id), name, email };
            Response { status: Status::Success, body: user.to_json() }
        },
        StoreReply::NoRow => Response::new(Status::NotFound, "User not found"),
        _ => Response::new(Status::InternalServerError, "Internal server error"),
    }
}

/// The second half of reading all users.
pub fn finish_get_all(reply: StoreReply) -> (response: Response)
    ensures
        response@ == get_all_outcome(reply@),
{
    match reply {
        StoreReply::Rows(users) => Response {
            status: Status::Success,
            body: user_list_to_json(&users),
        },
        _ => Response::new(Status::InternalServerError, "Internal server error"),
    }
}

/// The second half of creating a user.
pub fn finish_post(reply: StoreReply) -> (response: Response)
    ensures
        response@ == post_outcome(reply@),
{
    match reply {
        StoreReply::Inserted { id } => {
            let mut body = String::from_str("User created with id: ");
            body.append(decimal_string(id).as_str());
            body.append("}");
            Response { status: Status::Success, body }
        },
        _ => Response::new(Status::InternalServerError, "Internal server error"),
    }
}

/// The second half of replacing a user.
pub fn finish_put(reply: StoreReply) -> (response: Response)
    ensures
        response@ == put_outcome(reply@),
{
    match reply {
        StoreReply::Affected { rows } => if rows == 0 {
            Response::new(Status::NotFound, "User not found")
        } else {
            Response::new(Status::Success, "User updated")
        },
        _ => Response::new(Status::InternalServerError, "Internal server error"),
    }
}

/// The second half of removing a user.
pub fn finish_delete(reply: StoreReply) -> (response: Response)
    ensures
        response@ == delete_outcome(reply@),
{
    match reply {
        StoreReply::Affected { rows } => if rows == 0 {
            Response::new(Status::NotFound, "User not found")
        } else {
            Response::new(Status::Success, "User deleted")
        },
        _ => Response::new(Status::InternalServerError, "Internal server error"),
    }
}

/// The second half for any command: the response to what the store replied
/// to `command`.
pub fn respond(command: &StoreCommand, reply: StoreReply) -> (response: Response)
    ensures
        response@ == outcome(command@, reply@),
{
    match command {
        StoreCommand::FetchOne { .. } => finish_get(reply),
        StoreCommand::FetchAll => finish_get_all(reply),
        StoreCommand::Insert { .. } => finish_post(reply),
        StoreCommand::Update { .. } => finish_put(reply),
        StoreCommand::Delete { .. } => finish_delete(reply),
    }
}

} // verus!
