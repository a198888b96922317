//! The user record, the only entity of the service.

use vstd::prelude::*;

verus! {

/// A user as contracts see it: the identifier, if the store has assigned one,
/// and the two texts exactly as the client supplied them.
pub struct UserView {
    pub id: Option<i64>,
    pub username: Seq<char>,
    pub email: Seq<char>,
}

/// A user record. `id` is `None` until the store has assigned one.
#[derive(Debug, Clone, PartialEq, Eq)]
pub struct User {
    pub id: Option<i64>,
    pub username: String,
    pub email: String,
}

impl View for User {
    type V = UserView;

    open spec fn view(&self) -> UserView {
        UserView { id: self.id, username: self.username@, email: self.email@ }
    }
}

impl User {
    /// Whether the store has assigned this record its identifier.
    pub open spec fn is_persisted(&self) -> bool {
        self.id is Some
    }

    /// A record that the store has not seen yet: no identifier, the two
    /// texts taken as they are.
    pub fn new(username: String, email: String) -> (user: User)
        ensures
            user@ == (UserView { id: None, username: username@, email: email@ }),
            !user.is_persisted(),
    {
        User { id: None, username, email }
    }

    /// The record that a row of the `users` table stands for: the row's
    /// identifier and its two texts, unchanged.
    pub fn from_row(id: i64, username: String, email: String) -> (user: User)
        ensures
            user@ == (UserView { id: Some(id), username: username@, email: email@ }),
            user.is_persisted(),
    {
        User { id: Some(id), username, email }
    }
}

} // verus!
