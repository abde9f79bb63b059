//! What the front end answers: a status and a body.

use vstd::prelude::*;
use crate::records::views;
use crate::todo::{Todo, TodoView};

verus! {

/// The statuses that the front end's own logic gives out.
#[derive(Clone, Copy, Debug, PartialEq, Eq, Structural)]
pub enum Status {
    Success,
    Created,
    NotFound,
    RequestTimeout,
    InternalServerError,
}

impl Status {
    /// The HTTP status code.
    pub open spec fn spec_code(self) -> u16 {
        match self {
            Status::Success => 200,
            Status::Created => 201,
            Status::NotFound => 404,
            Status::RequestTimeout => 408,
            Status::InternalServerError => 500,
        }
    }

    /// The HTTP status code.
    #[verifier::when_used_as_spec(spec_code)]
    pub fn code(self) -> (code: u16)
        ensures
            code == self.spec_code(),
    {
        match self {
            Status::Success => 200,
            Status::Created => 201,
            Status::NotFound => 404,
            Status::RequestTimeout => 408,
            Status::InternalServerError => 500,
        }
    }
}

/// What a response carries.
#[derive(Debug)]
pub enum Body {
    /// Nothing.
    Empty,
    /// One record.
    Todo(Todo),
    /// A page of records.
    Todos(Vec<Todo>),
    /// A diagnostic message.
    Text(String),
}

/// A body as a mathematical value.
pub enum BodyView {
    Empty,
    Todo(TodoView),
    Todos(Seq<TodoView>),
    Text(Seq<char>),
}

impl View for Body {
    type V = BodyView;

    open spec fn view(&self) -> BodyView {
        match self {
            Body::Empty => BodyView::Empty,
            Body::Todo(todo) => BodyView::Todo(todo@),
            Body::Todos(todos) => BodyView::Todos(views(todos@)),
            Body::Text(text) => BodyView::Text(text@),
        }
    }
}

/// The answer to one request.
#[derive(Debug)]
pub struct Response {
    pub status: Status,
    pub body: Body,
}

/// A response as a mathematical value.
pub struct ResponseView {
    pub status: Status,
    pub body: BodyView,
}

impl View for Response {
    type V = ResponseView;

    open spec fn view(&self) -> ResponseView {
        ResponseView { status: self.status, body: self.body@ }
    }
}

} // verus!
