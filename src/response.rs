//! Shaping a store reply into an HTTP status and a JSON-ready body.
use vstd::prelude::*;
use crate::store::{Reply, list_reply, row_reply};
use crate::user::{PublicUser, StoreError, UserNoPassword};

verus! {

/// The five operations on the user resource.
#[derive(Debug, Clone, Copy, PartialEq, Eq, Structural)]
pub enum Operation {
    List,
    GetById,
    Create,
    Update,
    Delete,
}

pub const OK: u16 = 200;

pub const CREATED: u16 = 201;

pub const INTERNAL_SERVER_ERROR: u16 = 500;

/// A response body: one projection, an array of them, or a diagnostic string.
#[derive(Debug, Clone, PartialEq, Eq)]
pub enum ResponseBody {
    User(UserNoPassword),
    Users(Vec<UserNoPassword>),
    Error(String),
}

#[derive(Debug, Clone, PartialEq, Eq)]
pub struct Response {
    pub status: u16,
    pub body: ResponseBody,
}

/// The mathematical value of a response body.
pub enum Body {
    One(PublicUser),
    Many(Seq<PublicUser>),
    Message(Seq<char>),
}

pub struct ResponseValue {
    pub status: int,
    pub body: Body,
}

impl View for ResponseBody {
    type V = Body;

    open spec fn view(&self) -> Body {
        match self {
            ResponseBody::User(u) => Body::One(u@),
            ResponseBody::Users(v) => Body::Many(v@.map_values(|u: UserNoPassword| u@)),
            ResponseBody::Error(m) => Body::Message(m@),
        }
    }
}

impl View for Response {
    type V = ResponseValue;

    open spec fn view(&self) -> ResponseValue {
        ResponseValue { status: self.status as int, body: self.body@ }
    }
}

/// 201 for a creation, 200 for every other success.
pub open spec fn success_status(op: Operation) -> int {
    match op {
        Operation::Create => CREATED as int,
        _ => OK as int,
    }
}

/// The response to a store reply: the success status with the rows, or 500
/// with the store's diagnostic for a failure of any kind.
pub open spec fn response_for(op: Operation, reply: Reply) -> ResponseValue {
    match reply {
        Reply::Rows(v) => ResponseValue { status: success_status(op), body: Body::Many(v) },
        Reply::Row(u) => ResponseValue { status: success_status(op), body: Body::One(u) },
        Reply::Failed(m) => ResponseValue {
            status: INTERNAL_SERVER_ERROR as int,
            body: Body::Message(m),
        },
    }
}

/// The status that a successful `op` answers with.
pub fn status_of_success(op: Operation) -> (r: u16)
    ensures
        r as int == success_status(op),
{
    match op {
        Operation::Create => CREATED,
        _ => OK,
    }
}

/// The response to a listing: 200 with every row, or 500 with the diagnostic.
pub fn respond_list(result: Result<Vec<UserNoPassword>, StoreError>) -> (r: Response)
    ensures
        r@ == response_for(Operation::List, list_reply(result)),
{
    match result {
        Ok(users) => Response { status: OK, body: ResponseBody::Users(users) },
        Err(e) => Response { status: INTERNAL_SERVER_ERROR, body: ResponseBody::Error(e.message) },
    }
}

/// The response to a single-row operation: its success status with the row,
/// or 500 with the diagnostic (no row for the id included).
pub fn respond_one(op: Operation, result: Result<UserNoPassword, StoreError>) -> (r: Response)
    ensures
        r@ == response_for(op, row_reply(result)),
{
    match result {
        Ok(user) => Response { status: status_of_success(op), body: ResponseBody::User(user) },
        Err(e) => Response { status: INTERNAL_SERVER_ERROR, body: ResponseBody::Error(e.message) },
    }
}

} // verus!

verus! {

/// `t` occurs in `s` as a contiguous run of characters.
pub open spec fn contains_text(s: Seq<char>, t: Seq<char>) -> bool {
    exists|i: int| 0 <= i && i + t.len() <= s.len() && #[trigger] s.subrange(i, i + t.len()) == t
}

/// Some text field of the body holds `t`.
pub open spec fn body_holds_text(b: Body, t: Seq<char>) -> bool {
    match b {
        Body::One(u) => contains_text(u.username, t),
        Body::Many(v) => exists|i: int| 0 <= i < v.len() && contains_text(#[trigger] v[i].username, t),
        Body::Message(m) => contains_text(m, t),
    }
}

} // verus!
