//! The route handlers: what the service answers to each outcome of a
//! repository operation.
//!
//! A handler sees the store only through the outcome of the one statement it
//! had run: the rows, the absence of a row, or a failure. Absence is answered
//! with 404 and a failure with 500; the two are never confused, and the cause
//! of a failure never reaches the client.

use vstd::prelude::*;
use crate::user::{User, UserView};

verus! {

/// The status of a request that was served.
pub const STATUS_OK: u16 = 200;

/// The status of a request that created a record.
pub const STATUS_CREATED: u16 = 201;

/// The status of a lookup by identifier that found no row.
pub const STATUS_NOT_FOUND: u16 = 404;

/// The status of a request on which the store failed.
pub const STATUS_INTERNAL_SERVER_ERROR: u16 = 500;

/// A failure of the underlying store, whatever its kind. `detail` is the
/// store's own description, kept for the operator and never sent to a client.
#[derive(Debug, Clone, PartialEq, Eq)]
pub struct StoreError {
    pub detail: String,
}

/// The body of a response.
#[derive(Debug, Clone, PartialEq, Eq)]
pub enum Body {
    /// A JSON array of user objects, in the order given.
    Users(Vec<User>),
    /// One JSON user object.
    User(User),
    /// A plain-text message.
    Text(String),
}

/// A body as contracts see it.
pub enum BodyView {
    Users(Seq<UserView>),
    User(UserView),
    Text(Seq<char>),
}

/// The records of `users` as contracts see them, in the same order.
pub open spec fn user_views(users: Seq<User>) -> Seq<UserView> {
    Seq::new(users.len(), |i: int| users[i]@)
}

impl View for Body {
    type V = BodyView;

    open spec fn view(&self) -> BodyView {
        match *self {
            Body::Users(users) => BodyView::Users(user_views(users@)),
            Body::User(user) => BodyView::User(user@),
            Body::Text(text) => BodyView::Text(text@),
        }
    }
}

/// A response as contracts see it.
pub struct ResponseView {
    pub status: u16,
    pub body: BodyView,
}

/// What a handler answers: a status and a body.
#[derive(Debug, Clone, PartialEq, Eq)]
pub struct Response {
    pub status: u16,
    pub body: Body,
}

impl View for Response {
    type V = ResponseView;

    open spec fn view(&self) -> ResponseView {
        ResponseView { status: self.status, body: self.body@ }
    }
}

/// The plain-text response with the given status and message.
pub open spec fn text_response(status: u16, message: Seq<char>) -> ResponseView {
    ResponseView { status, body: BodyView::Text(message) }
}

/// The answer to `GET /users` for each outcome of the listing.
pub open spec fn list_users_response(outcome: Result<Vec<User>, StoreError>) -> ResponseView {
    match outcome {
        Ok(users) => ResponseView { status: 200, body: BodyView::Users(user_views(users@)) },
        Err(_) => text_response(500, "Error fetching users"@),
    }
}

/// The answer to `POST /users` for each outcome of the insert.
pub open spec fn create_user_response(outcome: Result<User, StoreError>) -> ResponseView {
    match outcome {
        Ok(user) => ResponseView { status: 201, body: BodyView::User(user@) },
        Err(_) => text_response(500, "Error creating user"@),
    }
}

/// The answer to `GET /users/{id}` for each outcome of the lookup.
pub open spec fn get_user_response(outcome: Result<Option<User>, StoreError>) -> ResponseView {
    match outcome {
        Ok(Some(user)) => ResponseView { status: 200, body: BodyView::User(user@) },
        Ok(None) => text_response(404, "User not found"@),
        Err(_) => text_response(500, "Error fetching user"@),
    }
}

/// The answer to `DELETE /users/{id}` for each outcome of the deletion.
pub open spec fn delete_user_response(outcome: Result<Option<User>, StoreError>) -> ResponseView {
    match outcome {
        Ok(Some(user)) => ResponseView { status: 200, body: BodyView::User(user@) },
        Ok(None) => text_response(404, "User not found"@),
        Err(_) => text_response(500, "Error deleting user"@),
    }
}

/// Answers `GET /users`: 200 with every listed record, in the order the
/// store gave them (an empty table gives an empty array), or 500 with a
/// fixed message when the store failed.
pub fn list_users(outcome: Result<Vec<User>, StoreError>) -> (response: Response)
    ensures
        response@ == list_users_response(outcome),
{
    match outcome {
        Ok(users) => Response { status: STATUS_OK, body: Body::Users(users) },
        Err(_) => Response {
            status: STATUS_INTERNAL_SERVER_ERROR,
            body: Body::Text("Error fetching users".to_owned()),
        },
    }
}

/// Answers `POST /users`: 201 with the record as the store returned it,
/// or 500 with a fixed message when the store failed.
pub fn create_user(outcome: Result<User, StoreError>) -> (response: Response)
    ensures
        response@ == create_user_response(outcome),
{
    match outcome {
        Ok(created_user) => Response { status: STATUS_CREATED, body: Body::User(created_user) },
        Err(_) => Response {
            status: STATUS_INTERNAL_SERVER_ERROR,
            body: Body::Text("Error creating user".to_owned()),
        },
    }
}

/// Answers `GET /users/{id}`: 200 with the record, 404 with a fixed message
/// when no row has the identifier, or 500 with a fixed message when the
/// store failed.
pub fn get_user(outcome: Result<Option<User>, StoreError>) -> (response: Response)
    ensures
        response@ == get_user_response(outcome),
{
    match outcome {
        Ok(Some(user)) => Response { status: STATUS_OK, body: Body::User(user) },
        Ok(None) => Response {
            status: STATUS_NOT_FOUND,
            body: Body::Text("User not found".to_owned()),
        },
        Err(_) => Response {
            status: STATUS_INTERNAL_SERVER_ERROR,
            body: Body::Text("Error fetching user".to_owned()),
        },
    }
}

/// Answers `DELETE /users/{id}`: 200 with the record as it was when it was
/// deleted, 404 with a fixed message when no row had the identifier, or
/// 500 with a fixed message when the store failed.
pub fn delete_user(outcome: Result<Option<User>, StoreError>) -> (response: Response)
    ensures
        response@ == delete_user_response(outcome),
{
    match outcome {
        Ok(Some(deleted_user)) => Response { status: STATUS_OK, body: Body::User(deleted_user) },
        Ok(None) => Response {
            status: STATUS_NOT_FOUND,
            body: Body::Text("User not found".to_owned()),
        },
        Err(_) => Response {
            status: STATUS_INTERNAL_SERVER_ERROR,
            body: Body::Text("Error deleting user".to_owned()),
        },
    }
}

/// Absence is not failure: a lookup or a deletion is answered with 404
/// exactly when the store ran the statement and found no row, and with 500
/// exactly when the store failed. A store that works never earns a 500.
pub proof fn lemma_absence_is_not_failure(outcome: Result<Option<User>, StoreError>)
    ensures
        get_user_response(outcome).status == 404 <==> outcome == Ok::<Option<User>, StoreError>(None),
        get_user_response(outcome).status == 500 <==> outcome is Err,
        get_user_response(outcome).status == 200 <==> (outcome matches Ok(found) && found is Some),
        delete_user_response(outcome).status == get_user_response(outcome).status,
{
}

/// The cause of a failure never reaches the client: whatever the store's
/// error says, each route answers it with the same response.
pub proof fn lemma_failure_cause_is_hidden(first: StoreError, second: StoreError)
    ensures
        list_users_response(Err(first)) == list_users_response(Err(second)),
        create_user_response(Err(first)) == create_user_response(Err(second)),
        get_user_response(Err(first)) == get_user_response(Err(second)),
        delete_user_response(Err(first)) == delete_user_response(Err(second)),
{
}

/// A record is answered as the store gave it: the body of a successful
/// creation, lookup or deletion is that record, identifier and texts
/// unchanged, so the three answers to one record carry the same body.
pub proof fn lemma_record_is_answered_unchanged(user: User)
    ensures
        create_user_response(Ok(user)).body == BodyView::User(user@),
        get_user_response(Ok(Some(user))).body == create_user_response(Ok(user)).body,
        delete_user_response(Ok(Some(user))).body == create_user_response(Ok(user)).body,
{
}

/// A listing is answered in full: the body holds one record for each row
/// that the store returned, the same records in the same order.
pub proof fn lemma_listing_is_answered_in_full(users: Vec<User>)
    ensures
        list_users_response(Ok(users)).status == 200,
        list_users_response(Ok(users)).body matches BodyView::Users(listed) && listed.len()
            == users@.len() && (forall|i: int| 0 <= i < users@.len() ==> listed[i] == users@[i]@),
{
}

} // verus!
