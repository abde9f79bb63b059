//! The records of a store as a mathematical value, and what each operation
//! makes of them.

use vstd::prelude::*;
use crate::todo::{Todo, TodoView, UpdateTodoView};

verus! {

/// The records of a store as a mathematical value: a map from id to record.
pub type Records = Map<u128, TodoView>;

/// Every record sits under its own id.
pub open spec fn keyed_by_id(records: Records) -> bool {
    forall|id: u128| #[trigger] records.contains_key(id) ==> records[id].id == id
}

/// `all` lists each record of `records` exactly once.
pub open spec fn enumerates(all: Seq<TodoView>, records: Records) -> bool {
    &&& all.len() == records.len()
    &&& forall|i: int|
        0 <= i < all.len() ==> records.contains_key(#[trigger] all[i].id) && records[all[i].id]
            == all[i]
    &&& forall|i: int, j: int|
        0 <= i < j < all.len() ==> #[trigger] all[i].id != #[trigger] all[j].id
    &&& forall|id: u128| #[trigger] records.contains_key(id) ==> all.contains(records[id])
}

/// The records after `todo` is added under its id.
pub open spec fn inserted(records: Records, todo: TodoView) -> Records {
    records.insert(todo.id, todo)
}

/// What a lookup of `id` finds.
pub open spec fn fetched(records: Records, id: u128) -> Option<TodoView> {
    if records.contains_key(id) {
        Some(records[id])
    } else {
        None
    }
}

/// The records after the record under `id`, if there is one, is patched.
pub open spec fn updated(records: Records, id: u128, patch: UpdateTodoView) -> Records {
    if records.contains_key(id) {
        records.insert(id, records[id].patched(patch))
    } else {
        records
    }
}

/// The records after the record under `id`, if there is one, is removed.
pub open spec fn deleted(records: Records, id: u128) -> Records {
    records.remove(id)
}

/// The views of a sequence of records, item by item.
pub open spec fn views(todos: Seq<Todo>) -> Seq<TodoView> {
    todos.map_values(|todo: Todo| todo@)
}

} // verus!
