//! The todo record and the payloads that create and update it.

use vstd::prelude::*;

verus! {

/// A stored task: its identifier, its text and whether it is done.
#[derive(Debug, Clone, PartialEq, Eq)]
pub struct Todo {
    pub id: i32,
    pub text: String,
    pub completed: bool,
}

/// What a todo is, as a mathematical value.
pub ghost struct TodoView {
    pub id: i32,
    pub text: Seq<char>,
    pub completed: bool,
}

impl View for Todo {
    type V = TodoView;

    open spec fn view(&self) -> TodoView {
        TodoView { id: self.id, text: self.text@, completed: self.completed }
    }
}

impl Todo {
    /// A todo that is not completed yet.
    pub fn new(id: i32, text: String) -> (r: Todo)
        ensures
            r.id == id,
            r.text@ == text@,
            !r.completed,
    {
        Todo { id, text, completed: false }
    }

    /// A copy that owns its own text.
    pub fn snapshot(&self) -> (r: Todo)
        ensures
            r@ == self@,
    {
        Todo { id: self.id, text: self.text.clone(), completed: self.completed }
    }
}

/// What a new todo is made from: its text alone.
#[derive(Debug, Clone, PartialEq, Eq)]
pub struct CreateTodo {
    pub text: String,
}

impl CreateTodo {
    /// A payload that asks for a todo with the given text.
    pub fn new(text: String) -> (r: CreateTodo)
        ensures
            r.text@ == text@,
    {
        CreateTodo { text }
    }
}

/// A partial change of a todo: a field left `None` keeps its stored value.
#[derive(Debug, Clone, PartialEq, Eq)]
pub struct UpdateTodo {
    pub text: Option<String>,
    pub completed: Option<bool>,
}

/// The payload of a request that registers a user.
#[derive(Debug, Clone, PartialEq, Eq)]
pub struct CreateUser {
    pub name: String,
}

/// Why a repository operation did not succeed.
#[derive(Debug, Clone, PartialEq, Eq)]
pub enum RepositoryError {
    /// No todo has the given id.
    NotFound(i32),
    /// Every positive `i32` has already been handed out as an id.
    IdsExhausted,
    /// A storage backend failed for a reason unrelated to the data
    /// (a lost connection, a failed query).
    Unexpected(String),
}

/// The stored todo after `payload` is merged into `current`: each field that
/// the payload carries replaces the stored one, the id never changes.
pub open spec fn merged(current: TodoView, payload: UpdateTodo) -> TodoView {
    TodoView {
        id: current.id,
        text: match payload.text {
            Some(t) => t@,
            None => current.text,
        },
        completed: match payload.completed {
            Some(c) => c,
            None => current.completed,
        },
    }
}

} // verus!
