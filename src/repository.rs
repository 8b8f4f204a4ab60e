//! The repository interface that storage backends offer, and its in-memory
//! backend: a store shared by every clone and guarded by a reader/writer
//! lock, so that readers never see half of a write.

use crate::store::TodoData;
use crate::todo::{CreateTodo, RepositoryError, Todo, UpdateTodo};
use std::sync::Arc;
use vstd::prelude::*;
use vstd::rwlock::{ReadHandle, RwLock, RwLockPredicate, WriteHandle};

verus! {

/// The five operations of a todo storage backend. A backend may be called
/// from many tasks at once; each call is atomic with respect to the others.
///
/// Every backend owes what is stated here; a backend that talks to another
/// system may in addition fail with `Unexpected`.
pub trait TodoRepository {
    /// Stores a new todo with the payload's text; it is not completed and
    /// gets a positive id chosen by the backend.
    fn create(&self, payload: CreateTodo) -> (r: Result<Todo, RepositoryError>)
        ensures
            r matches Ok(t) ==> t.text@ == payload.text@ && !t.completed && t.id > 0,
            r matches Err(e) ==> !(e is NotFound),
    ;

    /// The todo with the given id.
    fn find(&self, id: i32) -> (r: Result<Todo, RepositoryError>)
        ensures
            r matches Ok(t) ==> t.id == id,
            r matches Err(RepositoryError::NotFound(x)) ==> x == id,
    ;

    /// Every stored todo, each once, in no particular order.
    fn all(&self) -> (r: Result<Vec<Todo>, RepositoryError>)
        ensures
            r matches Ok(v) ==> forall|i: int, j: int|
                0 <= i < j < v.len() ==> #[trigger] v[i].id != #[trigger] v[j].id,
            r matches Err(e) ==> !(e is NotFound),
    ;

    /// Applies the fields that the payload carries to the todo with the given
    /// id and returns the todo as it is now.
    fn update(&self, id: i32, payload: UpdateTodo) -> (r: Result<Todo, RepositoryError>)
        ensures
            r matches Ok(t) ==> {
                &&& t.id == id
                &&& payload.text matches Some(s) ==> t.text@ == s@
                &&& payload.completed matches Some(c) ==> t.completed == c
            },
            r matches Err(RepositoryError::NotFound(x)) ==> x == id,
    ;

    /// Removes the todo with the given id.
    fn delete(&self, id: i32) -> (r: Result<(), RepositoryError>)
        ensures
            r matches Err(RepositoryError::NotFound(x)) ==> x == id,
    ;
}

/// What a backend reports for a lookup of `id` that gave `row`: the todo,
/// or `NotFound(id)` when there was none.
pub fn found_or_not_found(id: i32, row: Option<Todo>) -> (r: Result<Todo, RepositoryError>)
    ensures
        row matches Some(t) ==> r == Ok::<Todo, RepositoryError>(t),
        row is None ==> r == Err::<Todo, RepositoryError>(RepositoryError::NotFound(id)),
{
    match row {
        Some(t) => Ok(t),
        None => Err(RepositoryError::NotFound(id)),
    }
}

/// What a backend reports for a change of `id` that touched `affected`
/// records: success, or `NotFound(id)` when it touched none.
pub fn changed_or_not_found(id: i32, affected: u64) -> (r: Result<(), RepositoryError>)
    ensures
        affected == 0 ==> r == Err::<(), RepositoryError>(RepositoryError::NotFound(id)),
        affected > 0 ==> r is Ok,
{
    if affected == 0 {
        Err(RepositoryError::NotFound(id))
    } else {
        Ok(())
    }
}

/// What the lock of an in-memory repository keeps true of its store.
pub struct StoreIsWellFormed;

impl RwLockPredicate<TodoData> for StoreIsWellFormed {
    open spec fn inv(self, v: TodoData) -> bool {
        v.wf()
    }
}

/// A backend that keeps the todos in memory. Its clones share one store.
#[derive(Clone)]
pub struct TodoRepositoryForMemory {
    store: Arc<RwLock<TodoData, StoreIsWellFormed>>,
}

impl TodoRepositoryForMemory {
    /// A repository with no todos.
    pub fn new() -> (r: TodoRepositoryForMemory) {
        let lock = RwLock::new(TodoData::new(), Ghost(StoreIsWellFormed));
        TodoRepositoryForMemory { store: Arc::new(lock) }
    }

    /// Takes the store for writing: no other call reads or writes it until
    /// the handle is released.
    fn write_store_ref(&self) -> (r: (TodoData, WriteHandle<'_, TodoData, StoreIsWellFormed>))
        ensures
            r.0.wf(),
    {
        self.store.acquire_write()
    }

    /// Takes the store for reading: no call writes it until the handle is
    /// released.
    fn read_store_ref(&self) -> (r: ReadHandle<'_, TodoData, StoreIsWellFormed>)
        ensures
            r.view().wf(),
    {
        self.store.acquire_read()
    }
}

impl TodoRepository for TodoRepositoryForMemory {
    fn create(&self, payload: CreateTodo) -> (r: Result<Todo, RepositoryError>)
        ensures
            r matches Err(e) ==> e == RepositoryError::IdsExhausted,
    {
        let (mut data, handle) = self.write_store_ref();
        let r = data.try_create(payload);
        handle.release_write(data);
        r
    }

    fn find(&self, id: i32) -> (r: Result<Todo, RepositoryError>)
        ensures
            r matches Err(e) ==> e == RepositoryError::NotFound(id),
    {
        let handle = self.read_store_ref();
        let r = handle.borrow().find(id);
        handle.release_read();
        r
    }

    fn all(&self) -> (r: Result<Vec<Todo>, RepositoryError>)
        ensures
            r is Ok,
    {
        let handle = self.read_store_ref();
        let todos = handle.borrow().all();
        handle.release_read();
        proof {
            let w = todos@.map_values(|t: Todo| t@);
            assert forall|i: int, j: int| 0 <= i < j < todos.len() implies #[trigger] todos[i].id
                != #[trigger] todos[j].id by {
                assert(w[i].id != w[j].id);
            }
        }
        Ok(todos)
    }

    fn update(&self, id: i32, payload: UpdateTodo) -> (r: Result<Todo, RepositoryError>)
        ensures
            r matches Err(e) ==> e == RepositoryError::NotFound(id),
    {
        let (mut data, handle) = self.write_store_ref();
        let r = data.update(id, payload);
        handle.release_write(data);
        r
    }

    fn delete(&self, id: i32) -> (r: Result<(), RepositoryError>)
        ensures
            r matches Err(e) ==> e == RepositoryError::NotFound(id),
    {
        let (mut data, handle) = self.write_store_ref();
        let r = data.delete(id);
        handle.release_write(data);
        r
    }
}

} // verus!
