//! In-memory, lock-protected storage of todo records behind a small
//! repository interface, with the semantics of each operation proved.

pub mod lemmas;
pub mod repository;
pub mod store;
pub mod todo;

pub use todo::{CreateTodo, CreateUser, RepositoryError, Todo, UpdateTodo};
pub use store::TodoData;
pub use repository::{
    changed_or_not_found, found_or_not_found, TodoRepository, TodoRepositoryForMemory,
};
