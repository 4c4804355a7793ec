//! The user record as the service sees it, and the request bodies that
//! create or change one.
use vstd::prelude::*;

verus! {

/// A user's public projection: everything but the password hash.
#[derive(Debug, Clone, PartialEq, Eq)]
pub struct UserNoPassword {
    pub id: i32,
    pub username: String,
}

/// The mathematical value of a public projection.
pub struct PublicUser {
    pub id: int,
    pub username: Seq<char>,
}

impl View for UserNoPassword {
    type V = PublicUser;

    open spec fn view(&self) -> PublicUser {
        PublicUser { id: self.id as int, username: self.username@ }
    }
}

/// The body of a creation request.
#[derive(Debug, Clone, PartialEq, Eq)]
pub struct CreateUserBody {
    pub username: String,
    pub password: String,
}

/// The body of an update request: the username is the one mutable field.
#[derive(Debug, Clone, PartialEq, Eq)]
pub struct UpdateUserBody {
    pub username: String,
}

/// A failure reported by the store, carried as its diagnostic text.
#[derive(Debug, Clone, PartialEq, Eq)]
pub struct StoreError {
    pub message: String,
}

} // verus!
