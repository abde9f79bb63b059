//! The five request handlers, from plain values to a response, and the
//! answer to a request that failed on the way.

use vstd::prelude::*;
use crate::ident::{is_version_4, random_id};
use crate::page::window;
use crate::records::{deleted, enumerates, fetched, inserted, keyed_by_id, updated};
use crate::response::{Body, BodyView, Response, ResponseView, Status};
use crate::store::Store;
use crate::todo::{CreateTodo, Pagination, Todo, TodoView, UpdateTodo};

verus! {

/// Creates a record under the given id and answers 201 with it.
pub fn create_with_id(store: &mut Store, id: u128, payload: CreateTodo) -> (response: Response)
    ensures
        response@ == (ResponseView {
            status: Status::Created,
            body: BodyView::Todo(TodoView::fresh(id, payload.title@)),
        }),
        final(store)@ == inserted(old(store)@, TodoView::fresh(id, payload.title@)),
        keyed_by_id(final(store)@),
{
    let todo = Todo::new(id, payload.title);
    store.insert(todo.clone());
    Response { status: Status::Created, body: Body::Todo(todo) }
}

/// Creates a record under a newly drawn random id and answers 201 with it.
/// The id is not checked against the ids in use: a record that already has
/// it is replaced.
pub fn create_todo(store: &mut Store, payload: CreateTodo) -> (response: Response)
    ensures
        response.status == Status::Created,
        response.body matches Body::Todo(todo) && {
            &&& is_version_4(todo.id)
            &&& todo@ == TodoView::fresh(todo.id, payload.title@)
            &&& final(store)@ == inserted(old(store)@, todo@)
        },
        keyed_by_id(final(store)@),
{
    let id = random_id();
    create_with_id(store, id, payload)
}

/// Answers 200 with the page of records that the query asks for; without a
/// query, or without one of its fields, nothing is skipped and nothing is
/// cut off.
pub fn todos_index(pagination: Option<Pagination>, store: &Store) -> (response: Response)
    ensures
        keyed_by_id(store@),
        enumerates(store.walk(), store@),
        response@ == (ResponseView {
            status: Status::Success,
            body: BodyView::Todos(
                window(
                    store.walk(),
                    match pagination {
                        Some(pagination) => pagination.skip(),
                        None => 0,
                    },
                    match pagination {
                        Some(pagination) => pagination.take(),
                        None => usize::MAX as nat,
                    },
                ),
            ),
        }),
{
    let pagination = pagination.unwrap_or_default();
    let todos = store.list(pagination.offset.unwrap_or(0), pagination.limit.unwrap_or(usize::MAX));
    Response { status: Status::Success, body: Body::Todos(todos) }
}

/// Answers 200 with the record under `id`, or 404 where there is none.
pub fn get_todo_by_id(id: u128, store: &Store) -> (response: Response)
    ensures
        response@ == match fetched(store@, id) {
            Some(todo) => ResponseView { status: Status::Success, body: BodyView::Todo(todo) },
            None => ResponseView { status: Status::NotFound, body: BodyView::Empty },
        },
        keyed_by_id(store@),
{
    match store.get(id) {
        Some(todo) => Response { status: Status::Success, body: Body::Todo(todo) },
        None => Response { status: Status::NotFound, body: Body::Empty },
    }
}

/// Patches the record under `id` and answers 200 with an empty body, or
/// leaves the store alone and answers 404 where there is no such record.
pub fn update_todo(id: u128, store: &mut Store, input: UpdateTodo) -> (response: Response)
    ensures
        final(store)@ == updated(old(store)@, id, input@),
        keyed_by_id(final(store)@),
        response@ == (ResponseView {
            status: if old(store)@.contains_key(id) {
                Status::Success
            } else {
                Status::NotFound
            },
            body: BodyView::Empty,
        }),
{
    match store.update(id, input) {
        Ok(()) => Response { status: Status::Success, body: Body::Empty },
        Err(_) => Response { status: Status::NotFound, body: Body::Empty },
    }
}

/// Removes the record under `id`, if there is one, and answers 200 with an
/// empty body either way.
pub fn delete_todo(id: u128, store: &mut Store) -> (response: Response)
    ensures
        final(store)@ == deleted(old(store)@, id),
        keyed_by_id(final(store)@),
        response@ == (ResponseView { status: Status::Success, body: BodyView::Empty }),
{
    store.delete(id);
    Response { status: Status::Success, body: Body::Empty }
}

/// The diagnostic that goes out with a 500.
pub open spec fn failure_text(detail: Seq<char>) -> Seq<char> {
    "Unhandled internal error: "@ + detail
}

/// Answers a request that failed before a handler could: 408 with an empty
/// body where the time limit ran out, else 500 with a diagnostic.
pub fn failure(timed_out: bool, detail: &str) -> (response: Response)
    ensures
        response@ == if timed_out {
            ResponseView { status: Status::RequestTimeout, body: BodyView::Empty }
        } else {
            ResponseView {
                status: Status::InternalServerError,
                body: BodyView::Text(failure_text(detail@)),
            }
        },
{
    if timed_out {
        Response { status: Status::RequestTimeout, body: Body::Empty }
    } else {
        let mut text = String::from_str("Unhandled internal error: ");
        text.append(detail);
        Response { status: Status::InternalServerError, body: Body::Text(text) }
    }
}

} // verus!
