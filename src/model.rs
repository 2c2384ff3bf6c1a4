use vstd::prelude::*;

verus! {

/// The identifier of a todo: the 128-bit value of a UUID.
#[derive(Clone, Copy, Debug, PartialEq, Eq, Hash, Structural)]
pub struct TodoId {
    pub value: u128,
}

/// A todo as it is stored and listed.
#[derive(Debug)]
pub struct Todo {
    pub id: TodoId,
    pub title: String,
    pub status: bool,
}

/// The mathematical value of a todo.
pub struct TodoView {
    pub id: u128,
    pub title: Seq<char>,
    pub status: bool,
}

impl View for Todo {
    type V = TodoView;

    open spec fn view(&self) -> TodoView {
        TodoView { id: self.id.value, title: self.title@, status: self.status }
    }
}

/// The views of a sequence of todos, in the same order.
pub open spec fn todos_view(todos: Seq<Todo>) -> Seq<TodoView> {
    todos.map_values(|t: Todo| t@)
}

impl Todo {
    /// A copy of this todo, field for field.
    pub fn duplicate(&self) -> (r: Todo)
        ensures
            r@ == self@,
    {
        Todo { id: self.id, title: self.title.clone(), status: self.status }
    }
}

/// The body of a create request; `title` is `None` where the field was absent.
#[derive(Debug)]
pub struct CreateTodoReq {
    pub title: Option<String>,
}

/// The body of a status update request.
#[derive(Clone, Copy, Debug, PartialEq, Eq, Structural)]
pub struct UpdateTodoStatusReq {
    pub status: bool,
}

} // verus!
