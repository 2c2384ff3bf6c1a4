use vstd::prelude::*;

use crate::id::{parsed_id_of, uuid_text_length};
use crate::model::{CreateTodoReq, Todo, TodoId, TodoView, UpdateTodoStatusReq, todos_view};
use crate::response::{ApiResponse, TodoError};
use crate::store::{StoreError, TodoStore, contains_id, new_row, with_status};

verus! {

/// What is wrong with a create request, if anything: an absent or an empty
/// `title`.
pub open spec fn create_error(title: Option<Seq<char>>) -> Option<TodoError> {
    match title {
        None => Some(TodoError::MissingTitle),
        Some(t) => if t.len() == 0 {
            Some(TodoError::EmptyTitle)
        } else {
            None
        },
    }
}

/// The title of a create request, as a sequence of characters.
pub open spec fn title_view(req: CreateTodoReq) -> Option<Seq<char>> {
    match req.title {
        Some(t) => Some(t@),
        None => None,
    }
}

/// The rows after a create request with title `title` under identifier `id`:
/// one not-done row appended where the title is valid and the identifier new.
pub open spec fn created_rows(rows: Seq<TodoView>, id: u128, title: Option<Seq<char>>) -> Seq<TodoView> {
    if create_error(title) is None && !contains_id(rows, id) {
        rows.push(new_row(id, title->0))
    } else {
        rows
    }
}

/// What a create request with a valid title under the identifier `v` does:
/// where `v` is taken it fails with the table unchanged, else it succeeds and
/// appends the new row.
pub open spec fn created_under(
    rows: Seq<TodoView>,
    v: u128,
    title: Option<Seq<char>>,
    r: ApiResponse,
    after: Seq<TodoView>,
) -> bool {
    if contains_id(rows, v) {
        r == ApiResponse::CreateFailed(TodoError::Store(StoreError::DuplicateId)) && after == rows
    } else {
        r == ApiResponse::Created && after == created_rows(rows, v, title)
    }
}

/// Checks a create request and hands back its title.
pub fn validate_create(req: CreateTodoReq) -> (r: Result<String, TodoError>)
    ensures
        match create_error(title_view(req)) {
            Some(e) => r == Err::<String, TodoError>(e),
            None => r is Ok && title_view(req) == Some(r->Ok_0@),
        },
{
    match req.title {
        None => Err(TodoError::MissingTitle),
        Some(t) => {
            if t.as_str().is_empty() {
                Err(TodoError::EmptyTitle)
            } else {
                Ok(t)
            }
        },
    }
}

/// The answer to a create request, from what the insertion reported: its
/// number of affected rows, or its error. More than one row is refused.
pub open spec fn create_answer(result: Result<u64, StoreError>) -> ApiResponse {
    match result {
        Ok(n) => if n <= 1 {
            ApiResponse::Created
        } else {
            ApiResponse::CreateFailed(TodoError::TooManyRows(n))
        },
        Err(e) => ApiResponse::CreateFailed(TodoError::Store(e)),
    }
}

pub fn create_outcome(result: Result<u64, StoreError>) -> (r: ApiResponse)
    ensures
        r == create_answer(result),
{
    match result {
        Ok(n) => {
            if n <= 1 {
                ApiResponse::Created
            } else {
                ApiResponse::CreateFailed(TodoError::TooManyRows(n))
            }
        },
        Err(e) => ApiResponse::CreateFailed(TodoError::Store(e)),
    }
}

/// The answer to a status update, from what the update reported. The number
/// of rows affected does not matter: an unknown identifier succeeds too.
pub fn update_outcome(result: Result<u64, StoreError>) -> (r: ApiResponse)
    ensures
        match result {
            Ok(_) => r == ApiResponse::Updated,
            Err(e) => r == ApiResponse::UpdateFailed(TodoError::Store(e)),
        },
{
    match result {
        Ok(_) => ApiResponse::Updated,
        Err(e) => ApiResponse::UpdateFailed(TodoError::Store(e)),
    }
}

/// The answer to a listing, from what the selection returned.
pub fn fetch_outcome(result: Result<Vec<Todo>, StoreError>) -> (r: ApiResponse)
    ensures
        match result {
            Ok(v) => r == ApiResponse::Todos(v),
            Err(e) => r == ApiResponse::FetchFailed(TodoError::Store(e)),
        },
{
    match result {
        Ok(v) => ApiResponse::Todos(v),
        Err(e) => ApiResponse::FetchFailed(TodoError::Store(e)),
    }
}

/// Reads the identifier of a status update from its path segment.
pub fn parse_todo_id(segment: &str) -> (r: Result<TodoId, TodoError>)
    ensures
        match parsed_id_of(segment@) {
            Some(v) => r == Ok::<TodoId, TodoError>(TodoId { value: v }),
            None => r == Err::<TodoId, TodoError>(TodoError::MalformedId),
        },
        !uuid_text_length(segment@.len()) ==> r == Err::<TodoId, TodoError>(
            TodoError::MalformedId,
        ),
{
    match TodoId::parse(segment) {
        Some(id) => Ok(id),
        None => Err(TodoError::MalformedId),
    }
}

impl TodoStore {
    /// Creates a todo with the identifier `id`: the title must be present and
    /// not empty, and the identifier not taken; the new todo is not done.
    pub fn create_todo_with_id(&mut self, id: TodoId, req: CreateTodoReq) -> (r: ApiResponse)
        requires
            old(self).wf(),
        ensures
            final(self).wf(),
            final(self)@ == created_rows(old(self)@, id.value, title_view(req)),
            match create_error(title_view(req)) {
                Some(e) => r == ApiResponse::CreateFailed(e),
                None => if contains_id(old(self)@, id.value) {
                    r == ApiResponse::CreateFailed(TodoError::Store(StoreError::DuplicateId))
                } else {
                    r == ApiResponse::Created
                },
            },
    {
        match validate_create(req) {
            Err(e) => ApiResponse::CreateFailed(e),
            Ok(title) => {
                let result = self.insert(id, title, false);
                create_outcome(result)
            },
        }
    }

    /// Creates a todo under a fresh random identifier. Where the identifier
    /// drawn is already taken the table refuses it and nothing is added.
    pub fn create_todo(&mut self, req: CreateTodoReq) -> (r: ApiResponse)
        requires
            old(self).wf(),
        ensures
            final(self).wf(),
            match create_error(title_view(req)) {
                Some(e) => r == ApiResponse::CreateFailed(e) && final(self)@ == old(self)@,
                None => exists|v: u128| #[trigger]
                    created_under(old(self)@, v, title_view(req), r, final(self)@),
            },
            old(self)@.len() == 0 && create_error(title_view(req)) is None ==> r
                == ApiResponse::Created && final(self)@.len() == 1,
    {
        let id = TodoId::generate();
        let r = self.create_todo_with_id(id, req);
        assert(create_error(title_view(req)) is None ==> created_under(
            old(self)@,
            id.value,
            title_view(req),
            r,
            self@,
        ));
        r
    }

    /// Sets the status of the todo with identifier `id`. An identifier that no
    /// todo has succeeds and changes nothing.
    pub fn update_todo_status_by_id(&mut self, id: TodoId, req: UpdateTodoStatusReq) -> (r: ApiResponse)
        requires
            old(self).wf(),
        ensures
            final(self).wf(),
            r == ApiResponse::Updated,
            final(self)@ == with_status(old(self)@, id.value, req.status),
    {
        let n = self.update_status(id, req.status);
        update_outcome(Ok(n))
    }

    /// Sets the status of the todo that the path segment names; a segment
    /// that is not a UUID is refused and changes nothing.
    pub fn update_todo_status(&mut self, todo_id: &str, req: UpdateTodoStatusReq) -> (r: ApiResponse)
        requires
            old(self).wf(),
        ensures
            final(self).wf(),
            match parsed_id_of(todo_id@) {
                Some(v) => r == ApiResponse::Updated
                    && final(self)@ == with_status(old(self)@, v, req.status),
                None => r == ApiResponse::UpdateFailed(TodoError::MalformedId)
                    && final(self)@ == old(self)@,
            },
            !uuid_text_length(todo_id@.len()) ==> r == ApiResponse::UpdateFailed(
                TodoError::MalformedId,
            ) && final(self)@ == old(self)@,
    {
        match parse_todo_id(todo_id) {
            Ok(id) => self.update_todo_status_by_id(id, req),
            Err(e) => ApiResponse::UpdateFailed(e),
        }
    }

    /// Lists every todo, in the table's order. It changes nothing, so two
    /// listings with no write between them are equal.
    pub fn fetch_todos(&self) -> (r: ApiResponse)
        ensures
            match r {
                ApiResponse::Todos(v) => todos_view(v@) == self@,
                _ => false,
            },
    {
        fetch_outcome(Ok(self.select_all()))
    }
}

} // verus!
