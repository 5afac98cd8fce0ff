//! What a handler answers: a status code and a body.

use vstd::prelude::*;
use crate::error::StoreError;
use crate::user::{User, UserView, user_views};

verus! {

/// Status of a request that returns the user list.
pub const OK: u16 = 200;

/// Status of a request that returns nothing.
pub const NO_CONTENT: u16 = 204;

/// Status of a request that the database failed.
pub const INTERNAL_SERVER_ERROR: u16 = 500;

/// The body of a response.
#[derive(Debug, Clone, PartialEq, Eq)]
pub enum Body {
    /// The user list, to be sent as a JSON array.
    Users(Vec<User>),
    /// Plain text.
    Text(String),
    /// No body.
    Empty,
}

/// The mathematical value of a [`Body`].
pub ghost enum BodyView {
    Users(Seq<UserView>),
    Text(Seq<char>),
    Empty,
}

impl View for Body {
    type V = BodyView;

    open spec fn view(&self) -> BodyView {
        match *self {
            Body::Users(users) => BodyView::Users(user_views(users@)),
            Body::Text(text) => BodyView::Text(text@),
            Body::Empty => BodyView::Empty,
        }
    }
}

/// A response of the service.
#[derive(Debug, Clone, PartialEq, Eq)]
pub struct Response {
    pub status: u16,
    pub body: Body,
}

/// The mathematical value of a [`Response`].
pub ghost struct ResponseView {
    pub status: int,
    pub body: BodyView,
}

impl View for Response {
    type V = ResponseView;

    open spec fn view(&self) -> ResponseView {
        ResponseView { status: self.status as int, body: self.body@ }
    }
}

impl ResponseView {
    /// 200 with the given user list.
    pub open spec fn users(list: Seq<UserView>) -> ResponseView {
        ResponseView { status: 200, body: BodyView::Users(list) }
    }

    /// 204 without a body.
    pub open spec fn no_content() -> ResponseView {
        ResponseView { status: 204, body: BodyView::Empty }
    }

    /// 500 with the error's text as the body.
    pub open spec fn failure(message: Seq<char>) -> ResponseView {
        ResponseView { status: 500, body: BodyView::Text(message) }
    }
}

impl Response {
    /// The answer to a request that ends with the current user list.
    pub fn users(list: Vec<User>) -> (response: Response)
        ensures
            response@ == ResponseView::users(user_views(list@)),
    {
        Response { status: OK, body: Body::Users(list) }
    }

    /// The answer to a delete.
    pub fn no_content() -> (response: Response)
        ensures
            response@ == ResponseView::no_content(),
    {
        Response { status: NO_CONTENT, body: Body::Empty }
    }

    /// The answer to a request whose statement failed.
    pub fn failure(error: StoreError) -> (response: Response)
        ensures
            response@ == ResponseView::failure(error@),
    {
        Response { status: INTERNAL_SERVER_ERROR, body: Body::Text(error.into_message()) }
    }
}

} // verus!
