//! The four request handlers.
//!
//! A handler never touches the database itself. It says which statement to
//! run next, is told how that went, and so arrives at a response: whoever
//! holds the connection runs a statement between two calls.

use vstd::prelude::*;
use crate::error::StoreError;
use crate::response::{Response, ResponseView};
use crate::statement::{Statement, StatementView};
use crate::user::{User, UserView, user_views};

verus! {

/// A request, once routed and decoded.
#[derive(Debug, Clone, PartialEq, Eq)]
pub enum Request {
    /// `POST /api/users`. An identifier in the payload is ignored.
    AddUser { user: User },
    /// `GET /api/users`.
    GetUsers,
    /// `PUT /api/users/{id}`. The identifier is the one of the path.
    UpdateUser { id: i32, user: User },
    /// `DELETE /api/users/{id}`.
    DeleteUser { id: i32 },
}

/// The mathematical value of a [`Request`]: what of it reaches the database.
pub ghost enum RequestView {
    AddUser { name: Seq<char>, email: Seq<char> },
    GetUsers,
    UpdateUser { id: int, name: Seq<char>, email: Seq<char> },
    DeleteUser { id: int },
}

impl View for Request {
    type V = RequestView;

    open spec fn view(&self) -> RequestView {
        match *self {
            Request::AddUser { user } => RequestView::AddUser {
                name: user.name@,
                email: user.email@,
            },
            Request::GetUsers => RequestView::GetUsers,
            Request::UpdateUser { id, user } => RequestView::UpdateUser {
                id: id as int,
                name: user.name@,
                email: user.email@,
            },
            Request::DeleteUser { id } => RequestView::DeleteUser { id: id as int },
        }
    }
}

/// What follows a write that went through.
#[derive(Debug, Clone, Copy, PartialEq, Eq, Structural)]
pub enum Followup {
    /// Read the whole table and answer with it.
    ListUsers,
    /// Answer at once, without a body.
    NoContent,
}

/// What a handler wants done next.
#[derive(Debug, Clone, PartialEq, Eq)]
pub enum Step {
    /// Run a statement that returns no rows, then report to [`after_write`].
    Write { statement: Statement, then: Followup },
    /// Run a statement that returns user rows, then report to [`after_read`].
    Read { statement: Statement },
    /// Send this response.
    Done { response: Response },
}

/// The mathematical value of a [`Step`].
pub ghost enum StepView {
    Write { statement: StatementView, then: Followup },
    Read { statement: StatementView },
    Done { response: ResponseView },
}

impl View for Step {
    type V = StepView;

    open spec fn view(&self) -> StepView {
        match *self {
            Step::Write { statement, then } => StepView::Write { statement: statement@, then },
            Step::Read { statement } => StepView::Read { statement: statement@ },
            Step::Done { response } => StepView::Done { response: response@ },
        }
    }
}

/// The first step of each request: one statement, chosen by the route.
pub open spec fn first_step(request: RequestView) -> StepView {
    match request {
        RequestView::AddUser { name, email } => StepView::Write {
            statement: StatementView::InsertUser { name, email },
            then: Followup::ListUsers,
        },
        RequestView::GetUsers => StepView::Read { statement: StatementView::SelectUsers },
        RequestView::UpdateUser { id, name, email } => StepView::Write {
            statement: StatementView::UpdateUser { id, name, email },
            then: Followup::ListUsers,
        },
        RequestView::DeleteUser { id } => StepView::Write {
            statement: StatementView::DeleteUser { id },
            then: Followup::NoContent,
        },
    }
}

/// The step after a write. A failure ends the request with its text; the
/// count of affected rows plays no part, so a write that matched no row goes
/// on like any other.
pub open spec fn step_after_write(then: Followup, outcome: Result<u64, Seq<char>>) -> StepView {
    match outcome {
        Err(message) => StepView::Done { response: ResponseView::failure(message) },
        Ok(_) => match then {
            Followup::ListUsers => StepView::Read { statement: StatementView::SelectUsers },
            Followup::NoContent => StepView::Done { response: ResponseView::no_content() },
        },
    }
}

/// The response after the table was read.
pub open spec fn response_after_read(outcome: Result<Seq<UserView>, Seq<char>>) -> ResponseView {
    match outcome {
        Ok(list) => ResponseView::users(list),
        Err(message) => ResponseView::failure(message),
    }
}

/// The view of a write's outcome.
pub open spec fn write_outcome_view(outcome: Result<u64, StoreError>) -> Result<u64, Seq<char>> {
    match outcome {
        Ok(count) => Ok(count),
        Err(error) => Err(error@),
    }
}

/// The view of a read's outcome.
pub open spec fn read_outcome_view(outcome: Result<Vec<User>, StoreError>) -> Result<
    Seq<UserView>,
    Seq<char>,
> {
    match outcome {
        Ok(users) => Ok(user_views(users@)),
        Err(error) => Err(error@),
    }
}

/// Creates a user: insert name and email, then list.
pub fn add_user(user: User) -> (step: Step)
    ensures
        step@ == first_step(RequestView::AddUser { name: user.name@, email: user.email@ }),
{
    Step::Write {
        statement: Statement::InsertUser { name: user.name, email: user.email },
        then: Followup::ListUsers,
    }
}

/// Lists the users.
pub fn get_users() -> (step: Step)
    ensures
        step@ == first_step(RequestView::GetUsers),
{
    Step::Read { statement: Statement::SelectUsers }
}

/// Overwrites name and email of the user with this identifier, then lists.
pub fn update_user(id: i32, user: User) -> (step: Step)
    ensures
        step@ == first_step(
            RequestView::UpdateUser { id: id as int, name: user.name@, email: user.email@ },
        ),
{
    Step::Write {
        statement: Statement::UpdateUser { id, name: user.name, email: user.email },
        then: Followup::ListUsers,
    }
}

/// Deletes the user with this identifier.
pub fn delete_user(id: i32) -> (step: Step)
    ensures
        step@ == first_step(RequestView::DeleteUser { id: id as int }),
{
    Step::Write { statement: Statement::DeleteUser { id }, then: Followup::NoContent }
}

/// Starts a request.
pub fn begin(request: Request) -> (step: Step)
    ensures
        step@ == first_step(request@),
{
    match request {
        Request::AddUser { user } => add_user(user),
        Request::GetUsers => get_users(),
        Request::UpdateUser { id, user } => update_user(id, user),
        Request::DeleteUser { id } => delete_user(id),
    }
}

/// Goes on after a write.
pub fn after_write(then: Followup, outcome: Result<u64, StoreError>) -> (step: Step)
    ensures
        step@ == step_after_write(then, write_outcome_view(outcome)),
{
    match outcome {
        Err(error) => Step::Done { response: Response::failure(error) },
        Ok(_) => match then {
            Followup::ListUsers => get_users(),
            Followup::NoContent => Step::Done { response: Response::no_content() },
        },
    }
}

/// Ends a request whose last statement read the table.
pub fn after_read(outcome: Result<Vec<User>, StoreError>) -> (response: Response)
    ensures
        response@ == response_after_read(read_outcome_view(outcome)),
{
    match outcome {
        Ok(users) => Response::users(users),
        Err(error) => Response::failure(error),
    }
}

} // verus!
