//! The state of an in-memory todo store and the five operations on it.
//!
//! Ids come from a counter that only grows, so an id is never handed out
//! twice, not even after the todo that had it was deleted.

use crate::todo::{merged, CreateTodo, RepositoryError, Todo, TodoView, UpdateTodo};
use std::collections::HashMap;
use vstd::std_specs::hash::spec_hash_map_iter;
use vstd::std_specs::iter::IteratorSpec;
use vstd::prelude::*;

verus! {

broadcast use vstd::std_specs::hash::group_hash_axioms;

/// What a store holds: its todos by id, and the id that the next create
/// hands out.
pub ghost struct StoreModel {
    pub todos: Map<i32, TodoView>,
    pub next_id: int,
}

/// `v` holds each todo of `s` once, in some order, and nothing else.
pub open spec fn lists_exactly(s: StoreModel, v: Seq<TodoView>) -> bool {
    &&& v.len() == s.todos.dom().len()
    &&& forall|i: int| 0 <= i < v.len() ==> #[trigger] s.todos.contains_key(v[i].id)
        && s.todos[v[i].id] == v[i]
    &&& forall|i: int, j: int| 0 <= i < j < v.len() ==> #[trigger] v[i].id != #[trigger] v[j].id
    &&& forall|k: i32| #[trigger]
        s.todos.contains_key(k) ==> exists|i: int| 0 <= i < v.len() && #[trigger] v[i].id == k
}

/// A store that nothing has been done to yet.
pub open spec fn empty_store() -> StoreModel {
    StoreModel { todos: Map::empty(), next_id: 1 }
}

/// The store holds finitely many todos, each filed under its own id, and
/// every id is positive and below the next one to be handed out.
pub open spec fn store_wf(s: StoreModel) -> bool {
    &&& 1 <= s.next_id <= i32::MAX
    &&& s.todos.dom().finite()
    &&& forall|k: i32| #[trigger]
        s.todos.contains_key(k) ==> 1 <= k < s.next_id && s.todos[k].id == k
}

/// The todo that a create on `s` makes from `text`.
pub open spec fn created(s: StoreModel, text: Seq<char>) -> TodoView {
    TodoView { id: s.next_id as i32, text, completed: false }
}

/// The store after a create on `s` with `text`.
pub open spec fn after_create(s: StoreModel, text: Seq<char>) -> StoreModel {
    StoreModel {
        todos: s.todos.insert(s.next_id as i32, created(s, text)),
        next_id: s.next_id + 1,
    }
}

/// The store after the todo `id` of `s` took the changes of `payload`.
pub open spec fn after_update(s: StoreModel, id: i32, payload: UpdateTodo) -> StoreModel {
    StoreModel { todos: s.todos.insert(id, merged(s.todos[id], payload)), next_id: s.next_id }
}

/// The store after the todo `id` was removed from `s`.
pub open spec fn after_delete(s: StoreModel, id: i32) -> StoreModel {
    StoreModel { todos: s.todos.remove(id), next_id: s.next_id }
}

/// The todos of an in-memory store, by id.
pub struct TodoData {
    todos: HashMap<i32, Todo>,
    next_id: i32,
}

impl View for TodoData {
    type V = StoreModel;

    closed spec fn view(&self) -> StoreModel {
        StoreModel {
            todos: self.todos@.map_values(|t: Todo| t@),
            next_id: self.next_id as int,
        }
    }
}

impl TodoData {
    /// The store's model meets `store_wf`.
    pub open spec fn wf(&self) -> bool {
        store_wf(self@)
    }

    /// An empty store.
    pub fn new() -> (r: TodoData)
        ensures
            r.wf(),
            r@ == empty_store(),
    {
        let r = TodoData { todos: HashMap::new(), next_id: 1 };
        assert(r@.todos =~= Map::empty());
        r
    }

    /// Whether every id has been handed out, so that no create can succeed.
    pub fn is_full(&self) -> (r: bool)
        ensures
            r == (self@.next_id == i32::MAX),
    {
        self.next_id == i32::MAX
    }

    /// Stores a new, not yet completed todo with the payload's text under the
    /// next id, and returns a copy of it.
    pub fn create(&mut self, payload: CreateTodo) -> (r: Todo)
        requires
            old(self).wf(),
            old(self)@.next_id < i32::MAX,
        ensures
            final(self).wf(),
            r@ == created(old(self)@, payload.text@),
            final(self)@ == after_create(old(self)@, payload.text@),
            final(self)@.todos.dom().len() == old(self)@.todos.dom().len() + 1,
    {
        let id = self.next_id;
        let todo = Todo::new(id, payload.text);
        self.todos.insert(id, todo.snapshot());
        self.next_id = id + 1;
        assert(self@.todos =~= after_create(old(self)@, payload.text@).todos);
        todo
    }

    /// Creates a todo as `create` does when an id is left to hand out, and
    /// otherwise reports `IdsExhausted` and leaves the store as it was.
    pub fn try_create(&mut self, payload: CreateTodo) -> (r: Result<Todo, RepositoryError>)
        requires
            old(self).wf(),
        ensures
            final(self).wf(),
            old(self)@.next_id == i32::MAX ==> r == Err::<Todo, RepositoryError>(
                RepositoryError::IdsExhausted,
            ) && final(self)@ == old(self)@,
            old(self)@.next_id < i32::MAX ==> {
                &&& r matches Ok(t) && t@ == created(old(self)@, payload.text@)
                &&& final(self)@ == after_create(old(self)@, payload.text@)
                &&& final(self)@.todos.dom().len() == old(self)@.todos.dom().len() + 1
            },
    {
        if self.is_full() {
            Err(RepositoryError::IdsExhausted)
        } else {
            Ok(self.create(payload))
        }
    }

    /// A copy of the todo with the given id.
    pub fn find(&self, id: i32) -> (r: Result<Todo, RepositoryError>)
        requires
            self.wf(),
        ensures
            match r {
                Ok(t) => self@.todos.contains_key(id) && t@ == self@.todos[id],
                Err(e) => !self@.todos.contains_key(id) && e == RepositoryError::NotFound(id),
            },
    {
        match self.todos.get(&id) {
            Some(t) => Ok(t.snapshot()),
            None => Err(RepositoryError::NotFound(id)),
        }
    }

    /// Merges `payload` into the todo with the given id and returns a copy of
    /// the result.
    pub fn update(&mut self, id: i32, payload: UpdateTodo) -> (r: Result<Todo, RepositoryError>)
        requires
            old(self).wf(),
        ensures
            final(self).wf(),
            match r {
                Ok(t) => {
                    &&& old(self)@.todos.contains_key(id)
                    &&& t@ == merged(old(self)@.todos[id], payload)
                    &&& final(self)@ == after_update(old(self)@, id, payload)
                },
                Err(e) => {
                    &&& !old(self)@.todos.contains_key(id)
                    &&& e == RepositoryError::NotFound(id)
                    &&& final(self)@ == old(self)@
                },
            },
    {
        let current = match self.todos.get(&id) {
            Some(t) => t,
            None => return Err(RepositoryError::NotFound(id)),
        };
        let text = match payload.text {
            Some(t) => t,
            None => current.text.clone(),
        };
        let completed = match payload.completed {
            Some(c) => c,
            None => current.completed,
        };
        let todo = Todo { id, text, completed };
        assert(old(self)@.todos.contains_key(id));
        self.todos.insert(id, todo.snapshot());
        assert(self@.todos =~= after_update(old(self)@, id, payload).todos);
        Ok(todo)
    }

    /// Copies of all the todos, each once, in no particular order.
    pub fn all(&self) -> (r: Vec<Todo>)
        requires
            self.wf(),
        ensures
            lists_exactly(self@, r@.map_values(|t: Todo| t@)),
    {
        let ghost v = spec_hash_map_iter(&self.todos).remaining();
        let mut out: Vec<Todo> = Vec::new();
        for entry in it: self.todos.iter()
            invariant
                self.wf(),
                it.seq() == v,
                out.len() == it.index(),
                forall|i: int| 0 <= i < it.index() ==> #[trigger] out@[i]@ == (*v[i].1)@,
        {
            let (_, t) = entry;
            out.push(t.snapshot());
        }
        proof {
            let m = self.todos@;
            let w = out@.map_values(|t: Todo| t@);
            assert(v.len() == w.len());
            assert(self@.todos.dom() =~= m.dom());
            assert forall|i: int| 0 <= i < w.len() implies #[trigger] w[i].id == *v[i].0 by {
                assert(m.contains_key(*v[i].0));
                assert(out@[i]@ == (*v[i].1)@);
                assert(self@.todos.contains_key(*v[i].0));
            }
            assert forall|i: int| 0 <= i < w.len() implies #[trigger] self@.todos.contains_key(
                w[i].id,
            ) && self@.todos[w[i].id] == w[i] by {
                assert(w[i].id == *v[i].0);
                assert(m.contains_key(*v[i].0));
            }
            assert forall|i: int, j: int| 0 <= i < j < w.len() implies #[trigger] w[i].id
                != #[trigger] w[j].id by {
                assert(w[i].id == *v[i].0);
                assert(w[j].id == *v[j].0);
                if *v[i].0 == *v[j].0 {
                    assert(m.contains_key(*v[i].0) && m.contains_key(*v[j].0));
                    assert(*v[i].1 == *v[j].1);
                    assert(v[i] == v[j]);
                    assert(v.no_duplicates());
                }
            }
            assert forall|k: i32| #[trigger] self@.todos.contains_key(k) implies exists|i: int|
                0 <= i < w.len() && #[trigger] w[i].id == k by {
                assert(v.contains((&k, &m[k])));
                let i = choose|i: int| 0 <= i < v.len() && v[i] == (&k, &m[k]);
                assert(w[i].id == k);
            }
        }
        out
    }

    /// Removes the todo with the given id.
    pub fn delete(&mut self, id: i32) -> (r: Result<(), RepositoryError>)
        requires
            old(self).wf(),
        ensures
            final(self).wf(),
            match r {
                Ok(()) => {
                    &&& old(self)@.todos.contains_key(id)
                    &&& final(self)@ == after_delete(old(self)@, id)
                },
                Err(e) => {
                    &&& !old(self)@.todos.contains_key(id)
                    &&& e == RepositoryError::NotFound(id)
                    &&& final(self)@ == old(self)@
                },
            },
    {
        match self.todos.remove(&id) {
            Some(_) => {
                assert(self@.todos =~= after_delete(old(self)@, id).todos);
                Ok(())
            },
            None => {
                assert(self@.todos =~= old(self)@.todos);
                Err(RepositoryError::NotFound(id))
            },
        }
    }
}

} // verus!
