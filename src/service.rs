use vstd::prelude::*;
use crate::number::{i32_of, parse_i32};
use crate::request::{get_id, resource_id};
use crate::response::{Response, ResponseView, Status};
use crate::route::{route, route_of, Route};
use crate::user::{User, UserView, user_json, users_json, users_to_json, views};

verus! {

/// A statement for the users table.
#[derive(Clone, Debug, PartialEq, Eq)]
pub enum Query {
    /// Insert a row, then read it back by its new id.
    Insert { name: String, email: String },
    SelectOne { id: i32 },
    SelectAll,
    /// Overwrite name and email, whether or not the row exists.
    Update { id: i32, name: String, email: String },
    Delete { id: i32 },
}

pub enum QueryView {
    Insert { name: Seq<char>, email: Seq<char> },
    SelectOne { id: i32 },
    SelectAll,
    Update { id: i32, name: Seq<char>, email: Seq<char> },
    Delete { id: i32 },
}

impl View for Query {
    type V = QueryView;

    open spec fn view(&self) -> QueryView {
        match self {
            Query::Insert { name, email } => QueryView::Insert { name: name@, email: email@ },
            Query::SelectOne { id } => QueryView::SelectOne { id: *id },
            Query::SelectAll => QueryView::SelectAll,
            Query::Update { id, name, email } => QueryView::Update {
                id: *id,
                name: name@,
                email: email@,
            },
            Query::Delete { id } => QueryView::Delete { id: *id },
        }
    }
}

/// What the store answered to a query.
#[derive(Clone, Debug, PartialEq, Eq)]
pub enum Outcome {
    /// No connection to the store could be opened.
    Unavailable,
    /// The statement failed.
    Failed,
    /// One row came back.
    Row(User),
    /// The statement ran and no row came back.
    NoRow,
    Rows(Vec<User>),
    /// The number of rows that a write changed.
    Affected(u64),
}

pub enum Answer {
    Unavailable,
    Failed,
    Row(UserView),
    NoRow,
    Rows(Seq<UserView>),
    Affected(nat),
}

impl View for Outcome {
    type V = Answer;

    open spec fn view(&self) -> Answer {
        match self {
            Outcome::Unavailable => Answer::Unavailable,
            Outcome::Failed => Answer::Failed,
            Outcome::Row(u) => Answer::Row(u@),
            Outcome::NoRow => Answer::NoRow,
            Outcome::Rows(us) => Answer::Rows(views(us@)),
            Outcome::Affected(n) => Answer::Affected(*n as nat),
        }
    }
}

/// What to do with a request: answer it at once, or run a query first.
#[derive(Clone, Debug, PartialEq, Eq)]
pub enum Plan {
    Respond(Response),
    Run(Query),
}

pub enum PlanView {
    Respond(ResponseView),
    Run(QueryView),
}

impl View for Plan {
    type V = PlanView;

    open spec fn view(&self) -> PlanView {
        match self {
            Plan::Respond(r) => PlanView::Respond(r@),
            Plan::Run(q) => PlanView::Run(q@),
        }
    }
}

pub open spec fn internal_error() -> ResponseView {
    (Status::InternalError, "Internal error"@)
}

pub open spec fn user_not_found() -> ResponseView {
    (Status::NotFound, "User not found"@)
}

pub open spec fn body_view(body: Option<User>) -> Option<UserView> {
    match body {
        Some(u) => Some(u@),
        None => None,
    }
}

/// The id of a request's path, as an integer.
pub open spec fn id_of(request: Seq<char>) -> Option<i32> {
    i32_of(resource_id(request))
}

/// What a request asks for, given its body read as a user (`None` when it is not one).
pub open spec fn plan_of(request: Seq<char>, body: Option<UserView>) -> PlanView {
    match route_of(request) {
        Route::Preflight => PlanView::Respond((Status::Success, Seq::empty())),
        Route::CreateUser => match body {
            Some(u) => PlanView::Run(QueryView::Insert { name: u.name, email: u.email }),
            None => PlanView::Respond(internal_error()),
        },
        Route::ReadUser => match id_of(request) {
            Some(id) => PlanView::Run(QueryView::SelectOne { id }),
            None => PlanView::Respond(internal_error()),
        },
        Route::ListUsers => PlanView::Run(QueryView::SelectAll),
        Route::UpdateUser => match (id_of(request), body) {
            (Some(id), Some(u)) => PlanView::Run(
                QueryView::Update { id, name: u.name, email: u.email },
            ),
            _ => PlanView::Respond(internal_error()),
        },
        Route::DeleteUser => match id_of(request) {
            Some(id) => PlanView::Run(QueryView::Delete { id }),
            None => PlanView::Respond(internal_error()),
        },
        Route::Unknown => PlanView::Respond((Status::NotFound, "404 not found"@)),
    }
}

/// The response to a query, given what the store answered.
pub open spec fn response_of(q: QueryView, a: Answer) -> ResponseView {
    match (q, a) {
        (QueryView::Insert { .. }, Answer::Row(u)) => (Status::Success, user_json(u)),
        (QueryView::Insert { .. }, Answer::NoRow) => (
            Status::InternalError,
            "Failed to retrieve user"@,
        ),
        (QueryView::SelectOne { .. }, Answer::Row(u)) => (Status::Success, user_json(u)),
        (QueryView::SelectOne { .. }, Answer::NoRow) => user_not_found(),
        (QueryView::SelectAll, Answer::Rows(us)) => (Status::Success, users_json(us)),
        (QueryView::Update { .. }, Answer::Affected(_)) => (Status::Success, "User updated"@),
        (QueryView::Delete { .. }, Answer::Affected(n)) => if n == 0 {
            user_not_found()
        } else {
            (Status::Success, "User deleted"@)
        },
        _ => internal_error(),
    }
}

fn internal_error_response() -> (r: Response)
    ensures
        r@ == internal_error(),
{
    Response::with_text(Status::InternalError, "Internal error")
}

fn user_not_found_response() -> (r: Response)
    ensures
        r@ == user_not_found(),
{
    Response::with_text(Status::NotFound, "User not found")
}

/// Decides what a request asks for. `body` is the request's body read as a user, or
/// `None` when it does not read as one.
pub fn plan(request: &str, body: Option<User>) -> (r: Plan)
    ensures
        r@ == plan_of(request@, body_view(body)),
{
    match route(request) {
        Route::Preflight => {
            proof {
                reveal_strlit("");
                assert(""@ =~= Seq::<char>::empty());
            }
            Plan::Respond(Response::with_text(Status::Success, ""))
        },
        Route::CreateUser => match body {
            Some(u) => Plan::Run(Query::Insert { name: u.name, email: u.email }),
            None => Plan::Respond(internal_error_response()),
        },
        Route::ReadUser => match parse_i32(get_id(request)) {
            Some(id) => Plan::Run(Query::SelectOne { id }),
            None => Plan::Respond(internal_error_response()),
        },
        Route::ListUsers => Plan::Run(Query::SelectAll),
        Route::UpdateUser => match (parse_i32(get_id(request)), body) {
            (Some(id), Some(u)) => Plan::Run(Query::Update { id, name: u.name, email: u.email }),
            _ => Plan::Respond(internal_error_response()),
        },
        Route::DeleteUser => match parse_i32(get_id(request)) {
            Some(id) => Plan::Run(Query::Delete { id }),
            None => Plan::Respond(internal_error_response()),
        },
        Route::Unknown => Plan::Respond(Response::with_text(Status::NotFound, "404 not found")),
    }
}

/// Builds the response to a query from what the store answered.
pub fn respond(query: &Query, outcome: Outcome) -> (r: Response)
    ensures
        r@ == response_of(query@, outcome@),
{
    match (query, outcome) {
        (Query::Insert { .. }, Outcome::Row(u)) => Response::new(Status::Success, u.to_json()),
        (Query::Insert { .. }, Outcome::NoRow) => Response::with_text(
            Status::InternalError,
            "Failed to retrieve user",
        ),
        (Query::SelectOne { .. }, Outcome::Row(u)) => Response::new(Status::Success, u.to_json()),
        (Query::SelectOne { .. }, Outcome::NoRow) => user_not_found_response(),
        (Query::SelectAll, Outcome::Rows(us)) => Response::new(
            Status::Success,
            users_to_json(&us),
        ),
        (Query::Update { .. }, Outcome::Affected(_)) => Response::with_text(
            Status::Success,
            "User updated",
        ),
        (Query::Delete { .. }, Outcome::Affected(n)) => if n == 0 {
            user_not_found_response()
        } else {
            Response::with_text(Status::Success, "User deleted")
        },
        _ => internal_error_response(),
    }
}

} // verus!
