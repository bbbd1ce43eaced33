//! The five handlers, as steps: each step says what is to be done outside
//! (decode a body, run a statement, send a response), and the next one is
//! made from what came of it.

use vstd::prelude::*;
use vstd::string::StringExecFns;
use crate::request::{
    decode_lossy, get_id, id_of, id_text, lossy_text, parse_id, request_body, route, route_of,
    usable_body, InputError, Route,
};
use crate::response::{json_success, plain, Response, ResponseView, Status};
use crate::store::{CommandView, ReplyView, StoreCommand, StoreReply};
use crate::user::{serialize_user, serialize_users, user_json, users_json, User, UserView};

verus! {

/// The handler that waits for a decoded body.
#[derive(Clone, Copy, Debug, PartialEq, Eq, Structural)]
pub enum Pending {
    /// Create: the body holds the new user.
    Create,
    /// Update: the body holds the new values of the user with this id.
    Update { id: i32 },
}

/// What is to be done next for a request.
#[derive(Debug, PartialEq, Eq)]
pub enum Step {
    /// Nothing was read: close the connection without a response.
    Close,
    /// Decode `body` as a user, and go on with `decoded`.
    Decode { pending: Pending, body: String },
    /// Run the command against the store, and go on with `stored`.
    Execute(StoreCommand),
    /// Send the response and close the connection.
    Send(Response),
}

/// A step as contracts see it.
pub enum StepView {
    Close,
    Decode { pending: Pending, body: Seq<char> },
    Execute(CommandView),
    Send(ResponseView),
}

impl View for Step {
    type V = StepView;

    open spec fn view(&self) -> StepView {
        match *self {
            Step::Close => StepView::Close,
            Step::Decode { pending, body } => StepView::Decode { pending, body: body@ },
            Step::Execute(command) => StepView::Execute(command@),
            Step::Send(response) => StepView::Send(response@),
        }
    }
}

/// The one response to every failure of the input or of the store.
pub open spec fn internal_error() -> ResponseView {
    plain(Status::InternalServerError, "Error"@)
}

/// The response to a read of one user that found none.
pub open spec fn user_missing() -> ResponseView {
    plain(Status::InternalServerError, "User not found"@)
}

/// The response to a request that no handler is for.
pub open spec fn no_route() -> ResponseView {
    plain(Status::NotFound, Seq::empty())
}

/// Create begins by having the body decoded; without a body it fails.
pub open spec fn create_step(request: Seq<char>) -> StepView {
    match usable_body(request) {
        Some(body) => StepView::Decode { pending: Pending::Create, body },
        None => StepView::Send(internal_error()),
    }
}

/// Read-one selects the row with the id of the path; without an id it fails.
pub open spec fn read_one_step(request: Seq<char>) -> StepView {
    match id_of(id_text(request)) {
        Some(id) => StepView::Execute(CommandView::SelectOne { id }),
        None => StepView::Send(internal_error()),
    }
}

/// Read-all selects every row.
pub open spec fn read_all_step() -> StepView {
    StepView::Execute(CommandView::SelectAll)
}

/// Update needs the id of the path and a body; it begins by having the body
/// decoded.
pub open spec fn update_step(request: Seq<char>) -> StepView {
    match id_of(id_text(request)) {
        Some(id) => match usable_body(request) {
            Some(body) => StepView::Decode { pending: Pending::Update { id }, body },
            None => StepView::Send(internal_error()),
        },
        None => StepView::Send(internal_error()),
    }
}

/// Delete removes the row with the id of the path; without an id it fails.
pub open spec fn delete_step(request: Seq<char>) -> StepView {
    match id_of(id_text(request)) {
        Some(id) => StepView::Execute(CommandView::Delete { id }),
        None => StepView::Send(internal_error()),
    }
}

/// The first step for the text of a request: that of the handler it is routed
/// to, or a not-found response at once.
pub open spec fn first_step(request: Seq<char>) -> StepView {
    match route_of(request) {
        Route::Create => create_step(request),
        Route::ReadOne => read_one_step(request),
        Route::ReadAll => read_all_step(),
        Route::Update => update_step(request),
        Route::Delete => delete_step(request),
        Route::Unmatched => StepView::Send(no_route()),
    }
}

/// The first step for what was read from a connection.
pub open spec fn client_step(buffer: Seq<u8>) -> StepView {
    if buffer.len() == 0 {
        StepView::Close
    } else {
        first_step(lossy_text(buffer))
    }
}

/// The step after the body was decoded: the statement with the decoded name
/// and email, or a failure where the body was no user. The decoded id is not
/// used.
pub open spec fn after_decode(pending: Pending, user: Result<UserView, InputError>) -> StepView {
    match user {
        Ok(user) => match pending {
            Pending::Create => StepView::Execute(
                CommandView::Insert { name: user.name, email: user.email },
            ),
            Pending::Update { id } => StepView::Execute(
                CommandView::Update { id, name: user.name, email: user.email },
            ),
        },
        Err(_) => StepView::Send(internal_error()),
    }
}

/// The response to a request, given its command and what the store replied.
pub open spec fn response_to(command: CommandView, reply: ReplyView) -> ResponseView {
    match command {
        CommandView::Insert { .. } => match reply {
            ReplyView::Affected(_) => plain(Status::Success, "User created"@),
            _ => internal_error(),
        },
        CommandView::SelectOne { .. } => match reply {
            ReplyView::Rows(rows) => if rows.len() == 1 {
                json_success(user_json(rows[0]))
            } else {
                user_missing()
            },
            ReplyView::Failed => user_missing(),
            _ => internal_error(),
        },
        CommandView::SelectAll => match reply {
            ReplyView::Rows(rows) => json_success(users_json(rows)),
            _ => internal_error(),
        },
        CommandView::Update { .. } => match reply {
            ReplyView::Affected(_) => plain(Status::Success, "User updated"@),
            _ => internal_error(),
        },
        CommandView::Delete { .. } => match reply {
            ReplyView::Affected(count) => if count == 0 {
                plain(Status::NotFound, "User not found"@)
            } else {
                plain(Status::Success, "User deleted"@)
            },
            _ => internal_error(),
        },
    }
}

/// The step that answers with the general failure.
fn fail() -> (step: Step)
    ensures
        step@ == StepView::Send(internal_error()),
{
    Step::Send(Response::message(Status::InternalServerError, "Error"))
}

/// Begins a create request.
pub fn handle_post_request(request: &str) -> (step: Step)
    ensures
        step@ == create_step(request@),
{
    match request_body(request) {
        Ok(body) => Step::Decode { pending: Pending::Create, body: String::from_str(body) },
        Err(_) => fail(),
    }
}

/// Begins a request for one user.
pub fn handle_get_request(request: &str) -> (step: Step)
    ensures
        step@ == read_one_step(request@),
{
    match parse_id(get_id(request)) {
        Ok(id) => Step::Execute(StoreCommand::SelectOne { id }),
        Err(_) => fail(),
    }
}

/// Begins a request for all users.
pub fn handle_get_all_request() -> (step: Step)
    ensures
        step@ == read_all_step(),
{
    Step::Execute(StoreCommand::SelectAll)
}

/// Begins an update request.
pub fn handle_put_request(request: &str) -> (step: Step)
    ensures
        step@ == update_step(request@),
{
    match parse_id(get_id(request)) {
        Ok(id) => match request_body(request) {
            Ok(body) => Step::Decode {
                pending: Pending::Update { id },
                body: String::from_str(body),
            },
            Err(_) => fail(),
        },
        Err(_) => fail(),
    }
}

/// Begins a delete request.
pub fn handle_delete_request(request: &str) -> (step: Step)
    ensures
        step@ == delete_step(request@),
{
    match parse_id(get_id(request)) {
        Ok(id) => Step::Execute(StoreCommand::Delete { id }),
        Err(_) => fail(),
    }
}

/// Routes the text of a request to its handler.
pub fn dispatch(request: &str) -> (step: Step)
    ensures
        step@ == first_step(request@),
{
    match route(request) {
        Route::Create => handle_post_request(request),
        Route::ReadOne => handle_get_request(request),
        Route::ReadAll => handle_get_all_request(),
        Route::Update => handle_put_request(request),
        Route::Delete => handle_delete_request(request),
        Route::Unmatched => {
            proof {
                reveal_strlit("");
                assert(""@ =~= Seq::<char>::empty());
            }
            Step::Send(Response::message(Status::NotFound, ""))
        },
    }
}

/// Begins the handling of what was read from a connection. Bytes that are
/// not UTF-8 are replaced, never refused.
pub fn handle_client(buffer: &[u8]) -> (step: Step)
    ensures
        step@ == client_step(buffer@),
{
    if buffer.len() == 0 {
        Step::Close
    } else {
        let request = decode_lossy(buffer);
        dispatch(request.as_str())
    }
}

/// Goes on after the body was decoded. A body that was no user ends the
/// request with the general failure, and no statement is run for it.
pub fn decoded(pending: Pending, user: Result<User, InputError>) -> (step: Step)
    ensures
        step@ == after_decode(
            pending,
            match user {
                Ok(user) => Ok(user@),
                Err(e) => Err(e),
            },
        ),
        user.is_err() ==> step@ == StepView::Send(internal_error()),
{
    match user {
        Ok(user) => match pending {
            Pending::Create => Step::Execute(
                StoreCommand::Insert { name: user.name, email: user.email },
            ),
            Pending::Update { id } => Step::Execute(
                StoreCommand::Update { id, name: user.name, email: user.email },
            ),
        },
        Err(_) => fail(),
    }
}

/// Makes the response from what the store replied to `command`.
pub fn stored(command: &StoreCommand, reply: &StoreReply) -> (response: Response)
    ensures
        response@ == response_to(command@, reply@),
{
    let failure = Response::message(Status::InternalServerError, "Error");
    match command {
        StoreCommand::Insert { .. } => match reply {
            StoreReply::Affected(_) => Response::message(Status::Success, "User created"),
            _ => failure,
        },
        StoreCommand::SelectOne { .. } => match reply {
            StoreReply::Rows(rows) => if rows.len() == 1 {
                Response::json(serialize_user(&rows[0]))
            } else {
                Response::message(Status::InternalServerError, "User not found")
            },
            StoreReply::Failed => Response::message(
                Status::InternalServerError,
                "User not found",
            ),
            _ => failure,
        },
        StoreCommand::SelectAll => match reply {
            StoreReply::Rows(rows) => Response::json(serialize_users(rows)),
            _ => failure,
        },
        StoreCommand::Update { .. } => match reply {
            StoreReply::Affected(_) => Response::message(Status::Success, "User updated"),
            _ => failure,
        },
        StoreCommand::Delete { .. } => match reply {
            StoreReply::Affected(count) => if *count == 0 {
                Response::message(Status::NotFound, "User not found")
            } else {
                Response::message(Status::Success, "User deleted")
            },
            _ => failure,
        },
    }
}

} // verus!
