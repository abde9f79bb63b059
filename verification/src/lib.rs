//! An in-memory to-do list: records keyed by a 128-bit identifier, with
//! create, paginated list, fetch, partial update and delete, and the replies
//! an HTTP front end gives for each of them.

pub mod handlers;
pub mod ident;
pub mod laws;
pub mod page;
pub mod records;
pub mod response;
pub mod store;
pub mod todo;

pub use handlers::{
    create_todo, create_with_id, delete_todo, failure, failure_text, get_todo_by_id, todos_index,
    update_todo,
};
pub use ident::is_version_4;
pub use page::{window, window_len, window_start};
pub use records::{deleted, enumerates, fetched, inserted, keyed_by_id, updated, views, Records};
pub use response::{Body, BodyView, Response, ResponseView, Status};
pub use store::{Store, StoreError};
pub use todo::{CreateTodo, Pagination, Todo, TodoView, UpdateTodo, UpdateTodoView};
