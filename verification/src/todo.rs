//! The to-do record and the request payloads that create, patch and page it.

use vstd::prelude::*;

verus! {

/// A to-do record as a mathematical value.
pub struct TodoView {
    pub id: u128,
    pub title: Seq<char>,
    pub completed: bool,
}

/// A partial update as a mathematical value: `None` leaves a field alone.
pub struct UpdateTodoView {
    pub title: Option<Seq<char>>,
    pub completed: Option<bool>,
}

impl TodoView {
    /// The record that creation yields: the given id and title, not completed.
    pub open spec fn fresh(id: u128, title: Seq<char>) -> TodoView {
        TodoView { id, title, completed: false }
    }

    /// The record after a partial update: each field the patch supplies is
    /// replaced, every other field, and always the id, is kept.
    pub open spec fn patched(self, patch: UpdateTodoView) -> TodoView {
        TodoView {
            id: self.id,
            title: match patch.title {
                Some(title) => title,
                None => self.title,
            },
            completed: match patch.completed {
                Some(completed) => completed,
                None => self.completed,
            },
        }
    }
}

/// One to-do record.
#[derive(Debug, PartialEq, Eq)]
pub struct Todo {
    pub id: u128,
    pub title: String,
    pub completed: bool,
}

impl View for Todo {
    type V = TodoView;

    open spec fn view(&self) -> TodoView {
        TodoView { id: self.id, title: self.title@, completed: self.completed }
    }
}

impl Clone for Todo {
    fn clone(&self) -> (copy: Todo)
        ensures
            copy == *self,
    {
        Todo { id: self.id, title: self.title.clone(), completed: self.completed }
    }
}

/// The body of a create request.
#[derive(Debug)]
pub struct CreateTodo {
    pub title: String,
}

/// The body of a patch request; an absent field is left unchanged.
#[derive(Debug)]
pub struct UpdateTodo {
    pub title: Option<String>,
    pub completed: Option<bool>,
}

impl View for UpdateTodo {
    type V = UpdateTodoView;

    open spec fn view(&self) -> UpdateTodoView {
        UpdateTodoView {
            title: match self.title {
                Some(title) => Some(title@),
                None => None,
            },
            completed: self.completed,
        }
    }
}

/// The query of a list request; both fields are optional.
#[derive(Debug)]
pub struct Pagination {
    pub offset: Option<usize>,
    pub limit: Option<usize>,
}

impl Pagination {
    /// How many records the list skips: `offset`, or none when it is absent.
    pub open spec fn skip(&self) -> nat {
        match self.offset {
            Some(offset) => offset as nat,
            None => 0,
        }
    }

    /// How many records the list returns at most: `limit`, or the largest
    /// count the machine can represent when it is absent.
    pub open spec fn take(&self) -> nat {
        match self.limit {
            Some(limit) => limit as nat,
            None => usize::MAX as nat,
        }
    }
}

impl Default for Pagination {
    fn default() -> (pagination: Pagination)
        ensures
            pagination.offset is None,
            pagination.limit is None,
    {
        Pagination { offset: None, limit: None }
    }
}

impl Todo {
    /// A new record with the given id and title, not yet completed.
    pub fn new(id: u128, title: String) -> (todo: Todo)
        ensures
            todo@ == TodoView::fresh(id, title@),
    {
        Todo { id, title, completed: false }
    }

    /// Applies a partial update in place: only the fields present in `patch`
    /// change, and the id never does.
    pub fn apply(&mut self, patch: UpdateTodo)
        ensures
            final(self)@ == old(self)@.patched(patch@),
    {
        if let Some(title) = patch.title {
            self.title = title;
        }
        if let Some(completed) = patch.completed {
            self.completed = completed;
        }
    }
}

} // verus!
