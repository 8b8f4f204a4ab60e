//! Laws that relate the store operations to each other, stated over the
//! store model that the operations' contracts use.

use crate::store::{
    after_create, after_delete, after_update, created, empty_store, lists_exactly, store_wf,
    StoreModel,
};
use crate::todo::{TodoView, UpdateTodo};
use vstd::prelude::*;

verus! {

/// The store after a create for each of `texts`, in order, starting from `s`.
pub open spec fn after_creates(s: StoreModel, texts: Seq<Seq<char>>) -> StoreModel
    decreases texts.len(),
{
    if texts.len() == 0 {
        s
    } else {
        after_create(after_creates(s, texts.drop_last()), texts.last())
    }
}

/// The todo that the `k`-th of a series of creates for `texts` returns,
/// starting from `s`.
pub open spec fn created_in_series(s: StoreModel, texts: Seq<Seq<char>>, k: int) -> TodoView {
    created(after_creates(s, texts.take(k)), texts[k])
}

proof fn lemma_after_creates_next_id(s: StoreModel, texts: Seq<Seq<char>>)
    ensures
        after_creates(s, texts).next_id == s.next_id + texts.len(),
    decreases texts.len(),
{
    if texts.len() > 0 {
        lemma_after_creates_next_id(s, texts.drop_last());
    }
}

/// A series of creates on a fresh store hands out a different id each time:
/// the `k`-th create gets id `k + 1`.
pub proof fn lemma_create_ids_distinct(texts: Seq<Seq<char>>)
    requires
        texts.len() < i32::MAX,
    ensures
        forall|k: int| 0 <= k < texts.len() ==> #[trigger] created_in_series(
            empty_store(),
            texts,
            k,
        ).id == k + 1,
        forall|i: int, j: int|
            0 <= i < j < texts.len() ==> #[trigger] created_in_series(empty_store(), texts, i).id
                != #[trigger] created_in_series(empty_store(), texts, j).id,
{
    assert forall|k: int| 0 <= k < texts.len() implies #[trigger] created_in_series(
        empty_store(),
        texts,
        k,
    ).id == k + 1 by {
        lemma_after_creates_next_id(empty_store(), texts.take(k));
    }
    assert forall|i: int, j: int| 0 <= i < j < texts.len() implies #[trigger] created_in_series(
        empty_store(),
        texts,
        i,
    ).id != #[trigger] created_in_series(empty_store(), texts, j).id by {
        assert(created_in_series(empty_store(), texts, i).id == i + 1);
        assert(created_in_series(empty_store(), texts, j).id == j + 1);
    }
}

/// What a create returns is stored under its id, unchanged, so a find for
/// that id returns an equal todo.
pub proof fn lemma_find_after_create(s: StoreModel, text: Seq<char>)
    requires
        store_wf(s),
        s.next_id < i32::MAX,
    ensures
        store_wf(after_create(s, text)),
        after_create(s, text).todos.contains_key(created(s, text).id),
        after_create(s, text).todos[created(s, text).id] == created(s, text),
{
}

/// An update changes only the fields that its payload carries: the text
/// alone, or the completion flag alone, and never the id.
pub proof fn lemma_partial_update(s: StoreModel, id: i32, payload: UpdateTodo)
    requires
        store_wf(s),
        s.todos.contains_key(id),
    ensures
        store_wf(after_update(s, id, payload)),
        after_update(s, id, payload).todos[id].id == id,
        payload.text is None ==> after_update(s, id, payload).todos[id].text == s.todos[id].text,
        payload.completed is None ==> after_update(s, id, payload).todos[id].completed
            == s.todos[id].completed,
        payload.text matches Some(t) ==> after_update(s, id, payload).todos[id].text == t@,
        payload.completed matches Some(c) ==> after_update(s, id, payload).todos[id].completed
            == c,
        forall|k: i32| k != id ==> #[trigger] after_update(s, id, payload).todos.contains_key(k)
            == s.todos.contains_key(k),
{
}

/// An id that no create has handed out yet, or one that is not positive,
/// names no todo: a find, update or delete for it reports that it is not
/// found.
pub proof fn lemma_never_created_absent(s: StoreModel, id: i32)
    requires
        store_wf(s),
        id < 1 || id >= s.next_id,
    ensures
        !s.todos.contains_key(id),
{
}

/// After a delete, the id names no todo any more: a find, update or delete
/// for it reports that it is not found, and no listing of the store holds it.
pub proof fn lemma_delete_removes(s: StoreModel, id: i32, listing: Seq<TodoView>)
    requires
        store_wf(s),
        lists_exactly(after_delete(s, id), listing),
    ensures
        store_wf(after_delete(s, id)),
        !after_delete(s, id).todos.contains_key(id),
        forall|i: int| 0 <= i < listing.len() ==> #[trigger] listing[i].id != id,
{
    assert forall|i: int| 0 <= i < listing.len() implies #[trigger] listing[i].id != id by {
        assert(after_delete(s, id).todos.contains_key(listing[i].id));
    }
}

/// One operation that changes a store, with its arguments.
pub ghost enum StoreChange {
    Create(Seq<char>),
    Update(i32, UpdateTodo),
    Delete(i32),
}

/// The store after `change` was applied to `s`; a change that fails (an id
/// that names no todo, no id left to hand out) leaves the store as it was.
pub open spec fn apply(s: StoreModel, change: StoreChange) -> StoreModel {
    match change {
        StoreChange::Create(text) => if s.next_id < i32::MAX {
            after_create(s, text)
        } else {
            s
        },
        StoreChange::Update(id, payload) => if s.todos.contains_key(id) {
            after_update(s, id, payload)
        } else {
            s
        },
        StoreChange::Delete(id) => if s.todos.contains_key(id) {
            after_delete(s, id)
        } else {
            s
        },
    }
}

/// The store after each of `changes` was applied in order, starting from `s`.
pub open spec fn apply_all(s: StoreModel, changes: Seq<StoreChange>) -> StoreModel
    decreases changes.len(),
{
    if changes.len() == 0 {
        s
    } else {
        apply(apply_all(s, changes.drop_last()), changes.last())
    }
}

/// Whatever creates, updates and deletes were made, in whatever order, the
/// store stays well formed: each todo is filed under its own id, once, and
/// the next id is above every stored one and never goes down.
pub proof fn lemma_changes_keep_store_wf(changes: Seq<StoreChange>)
    ensures
        store_wf(apply_all(empty_store(), changes)),
    decreases changes.len(),
{
    if changes.len() > 0 {
        lemma_changes_keep_store_wf(changes.drop_last());
        let s = apply_all(empty_store(), changes.drop_last());
        match changes.last() {
            StoreChange::Create(text) => {
                if s.next_id < i32::MAX {
                    lemma_find_after_create(s, text);
                }
            },
            StoreChange::Update(id, payload) => {
                if s.todos.contains_key(id) {
                    lemma_partial_update(s, id, payload);
                }
            },
            StoreChange::Delete(id) => {},
        }
    }
}

/// A create hands out an id that no stored todo has and that is above every
/// stored id, so an id is never given to two todos, even after deletes.
pub proof fn lemma_created_id_is_fresh(s: StoreModel, text: Seq<char>)
    requires
        store_wf(s),
        s.next_id < i32::MAX,
    ensures
        !s.todos.contains_key(created(s, text).id),
        forall|k: i32| #[trigger] s.todos.contains_key(k) ==> k < created(s, text).id,
        after_create(s, text).next_id > created(s, text).id,
{
}

/// A listing of a store holds exactly the ids that the store holds, each
/// once.
pub proof fn lemma_listing_ids(s: StoreModel, listing: Seq<TodoView>)
    requires
        lists_exactly(s, listing),
    ensures
        listing.map_values(|t: TodoView| t.id).no_duplicates(),
        listing.map_values(|t: TodoView| t.id).to_set() == s.todos.dom(),
{
    let ids = listing.map_values(|t: TodoView| t.id);
    assert forall|i: int, j: int| 0 <= i < ids.len() && 0 <= j < ids.len() && i != j implies ids[i]
        != ids[j] by {
        if i < j {
            assert(listing[i].id != listing[j].id);
        } else {
            assert(listing[j].id != listing[i].id);
        }
    }
    assert forall|k: i32| #[trigger] ids.to_set().contains(k) <==> s.todos.dom().contains(k) by {
        if s.todos.contains_key(k) {
            let i = choose|i: int| 0 <= i < listing.len() && #[trigger] listing[i].id == k;
            assert(ids[i] == k);
        }
        if ids.to_set().contains(k) {
            let i = choose|i: int| 0 <= i < ids.len() && ids[i] == k;
            assert(s.todos.contains_key(listing[i].id));
        }
    }
    assert(ids.to_set() =~= s.todos.dom());
}

} // verus!
