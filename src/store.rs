use vstd::prelude::*;

use crate::model::{Todo, TodoId, TodoView, todos_view};

verus! {

/// Why a table refused a statement.
#[derive(Clone, Copy, Debug, PartialEq, Eq, Structural)]
pub enum StoreError {
    /// The insertion would give two rows the same identifier.
    DuplicateId,
    /// The table could not be reached or the statement failed there.
    Unavailable,
}

/// No two rows share an identifier.
pub open spec fn ids_unique(rows: Seq<TodoView>) -> bool {
    forall|i: int, j: int|
        0 <= i < rows.len() && 0 <= j < rows.len() && i != j ==> rows[i].id != rows[j].id
}

/// Some row has the identifier `id`.
pub open spec fn contains_id(rows: Seq<TodoView>, id: u128) -> bool {
    exists|i: int| 0 <= i < rows.len() && rows[i].id == id
}

/// The row that creating a todo with `id` and `title` adds: not yet done.
pub open spec fn new_row(id: u128, title: Seq<char>) -> TodoView {
    TodoView { id, title, status: false }
}

/// The row `t` with its status set to `status` where its identifier is `id`.
pub open spec fn row_with_status(t: TodoView, id: u128, status: bool) -> TodoView {
    if t.id == id {
        TodoView { id: t.id, title: t.title, status }
    } else {
        t
    }
}

/// The rows after `UPDATE ... SET status = status WHERE id = id`.
pub open spec fn with_status(rows: Seq<TodoView>, id: u128, status: bool) -> Seq<TodoView> {
    rows.map_values(|t: TodoView| row_with_status(t, id, status))
}

/// An in-memory todo table: its rows in the order of insertion, keyed by
/// identifier.
pub struct TodoStore {
    rows: Vec<Todo>,
}

impl View for TodoStore {
    type V = Seq<TodoView>;

    closed spec fn view(&self) -> Seq<TodoView> {
        todos_view(self.rows@)
    }
}

impl TodoStore {
    /// The table's invariant: identifiers are unique.
    pub open spec fn wf(&self) -> bool {
        ids_unique(self@)
    }

    /// An empty table.
    pub fn new() -> (r: TodoStore)
        ensures
            r.wf(),
            r@ == Seq::<TodoView>::empty(),
    {
        let r = TodoStore { rows: Vec::new() };
        assert(r@ =~= Seq::<TodoView>::empty());
        r
    }

    /// The number of rows.
    pub fn len(&self) -> (r: usize)
        ensures
            r == self@.len(),
    {
        self.rows.len()
    }

    /// The position of the row with identifier `id`, if there is one.
    fn position_of(&self, id: TodoId) -> (r: Option<usize>)
        ensures
            match r {
                Some(i) => i < self@.len() && self@[i as int].id == id.value,
                None => !contains_id(self@, id.value),
            },
    {
        let mut i: usize = 0;
        while i < self.rows.len()
            invariant
                i <= self.rows.len(),
                self@ == todos_view(self.rows@),
                forall|k: int| 0 <= k < i ==> self@[k].id != id.value,
            decreases self.rows.len() - i,
        {
            if self.rows[i].id.value == id.value {
                return Some(i);
            }
            i = i + 1;
        }
        None
    }

    /// Inserts a row; the statement affects one row, or fails where the
    /// identifier is taken and leaves the table as it was.
    pub fn insert(&mut self, id: TodoId, title: String, status: bool) -> (r: Result<u64, StoreError>)
        requires
            old(self).wf(),
        ensures
            final(self).wf(),
            contains_id(old(self)@, id.value) ==> r == Err::<u64, StoreError>(StoreError::DuplicateId)
                && final(self)@ == old(self)@,
            !contains_id(old(self)@, id.value) ==> r == Ok::<u64, StoreError>(1)
                && final(self)@ == old(self)@.push(TodoView { id: id.value, title: title@, status }),
    {
        match self.position_of(id) {
            Some(_) => Err(StoreError::DuplicateId),
            None => {
                let ghost before = self@;
                let ghost row = TodoView { id: id.value, title: title@, status };
                self.rows.push(Todo { id, title, status });
                assert(self@ =~= before.push(row));
                Ok(1)
            },
        }
    }

    /// Sets the status of the row with identifier `id`, if there is one, and
    /// gives the number of rows affected.
    pub fn update_status(&mut self, id: TodoId, status: bool) -> (r: u64)
        requires
            old(self).wf(),
        ensures
            final(self).wf(),
            final(self)@ == with_status(old(self)@, id.value, status),
            r == (if contains_id(old(self)@, id.value) { 1u64 } else { 0u64 }),
    {
        let ghost before = self@;
        match self.position_of(id) {
            Some(i) => {
                self.rows[i].status = status;
                assert(self@ =~= with_status(before, id.value, status));
                1
            },
            None => {
                assert(self@ =~= with_status(before, id.value, status));
                0
            },
        }
    }

    /// Every row, in the table's order.
    pub fn select_all(&self) -> (r: Vec<Todo>)
        ensures
            todos_view(r@) == self@,
    {
        let mut out: Vec<Todo> = Vec::new();
        let mut i: usize = 0;
        while i < self.rows.len()
            invariant
                i <= self.rows.len(),
                todos_view(out@) == self@.subrange(0, i as int),
                self@ == todos_view(self.rows@),
            decreases self.rows.len() - i,
        {
            let t = self.rows[i].duplicate();
            let ghost prev = out@;
            out.push(t);
            assert(todos_view(out@) =~= todos_view(prev).push(self@[i as int]));
            assert(todos_view(out@) =~= self@.subrange(0, i + 1));
            i = i + 1;
        }
        assert(self@.subrange(0, i as int) =~= self@);
        out
    }
}

} // verus!
