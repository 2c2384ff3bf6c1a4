use vstd::prelude::*;

use crate::model::Todo;
use crate::store::StoreError;

verus! {

/// Why a request failed. At the boundary every one of them is a client error.
#[derive(Clone, Copy, Debug, PartialEq, Eq, Structural)]
pub enum TodoError {
    /// A create request without a `title`.
    MissingTitle,
    /// A create request whose `title` is empty.
    EmptyTitle,
    /// A path segment that is not a UUID.
    MalformedId,
    /// The table refused the statement.
    Store(StoreError),
    /// An insertion reported more than one affected row.
    TooManyRows(u64),
}

/// The answer of a route, before it is written on the wire.
#[derive(Debug)]
pub enum ApiResponse {
    /// A todo was created: 201, `{"ok": true}`.
    Created,
    /// A status update was carried out: 200, `{"ok": true}`.
    Updated,
    /// The listing: 200, the todos as a JSON array.
    Todos(Vec<Todo>),
    /// 400, `{"message": "Unable to create todo"}`.
    CreateFailed(TodoError),
    /// 400, `Unable to update todo status`.
    UpdateFailed(TodoError),
    /// 400, `Unable to fetch todos`.
    FetchFailed(TodoError),
}

impl ApiResponse {
    /// The HTTP status of this answer.
    pub open spec fn status_spec(&self) -> u16 {
        match self {
            ApiResponse::Created => 201,
            ApiResponse::Updated => 200,
            ApiResponse::Todos(_) => 200,
            _ => 400,
        }
    }

    /// The HTTP status of this answer: 201 for a creation, 200 for an update
    /// or a listing, 400 for every failure.
    pub fn status_code(&self) -> (r: u16)
        ensures
            r == self.status_spec(),
    {
        match self {
            ApiResponse::Created => 201,
            ApiResponse::Updated => 200,
            ApiResponse::Todos(_) => 200,
            _ => 400,
        }
    }

    /// Whether the answer reports success (a 2xx status).
    pub fn is_success(&self) -> (r: bool)
        ensures
            r == (200 <= self.status_spec() < 300),
    {
        let code = self.status_code();
        200 <= code && code < 300
    }

    /// The message that a failure carries, the same for every cause on a route.
    pub fn message(&self) -> (r: Option<&'static str>)
        ensures
            match self {
                ApiResponse::CreateFailed(_) => r is Some && r->0@ == "Unable to create todo"@,
                ApiResponse::UpdateFailed(_) => r is Some && r->0@ == "Unable to update todo status"@,
                ApiResponse::FetchFailed(_) => r is Some && r->0@ == "Unable to fetch todos"@,
                _ => r is None,
            },
    {
        match self {
            ApiResponse::CreateFailed(_) => Some("Unable to create todo"),
            ApiResponse::UpdateFailed(_) => Some("Unable to update todo status"),
            ApiResponse::FetchFailed(_) => Some("Unable to fetch todos"),
            _ => None,
        }
    }
}

} // verus!
