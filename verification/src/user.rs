//! The user record and its mathematical view.

use vstd::prelude::*;

verus! {

/// A user as it travels over the wire: the identifier is absent on a create
/// request and always present on what the service returns.
#[derive(Debug, Clone, PartialEq, Eq)]
pub struct User {
    pub id: Option<i32>,
    pub name: String,
    pub email: String,
}

/// The mathematical value of a [`User`].
pub ghost struct UserView {
    pub id: Option<int>,
    pub name: Seq<char>,
    pub email: Seq<char>,
}

impl View for User {
    type V = UserView;

    open spec fn view(&self) -> UserView {
        UserView {
            id: match self.id {
                Some(i) => Some(i as int),
                None => None,
            },
            name: self.name@,
            email: self.email@,
        }
    }
}

/// The views of a sequence of users, in order.
pub open spec fn user_views(users: Seq<User>) -> Seq<UserView> {
    users.map_values(|u: User| u@)
}

impl User {
    /// A payload for a create or update request: no identifier yet.
    pub fn new(name: String, email: String) -> (user: User)
        ensures
            user@ == (UserView { id: None, name: name@, email: email@ }),
    {
        User { id: None, name, email }
    }

    /// The user that a stored row with these three columns stands for.
    pub fn from_columns(id: i32, name: String, email: String) -> (user: User)
        ensures
            user@ == (UserView { id: Some(id as int), name: name@, email: email@ }),
    {
        User { id: Some(id), name, email }
    }
}

} // verus!
