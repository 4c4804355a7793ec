//! Properties of whole requests: a statement run by the store, followed by
//! the response shaped from its reply.
use vstd::prelude::*;
use crate::response::{Body, Operation, ResponseValue, body_holds_text, contains_text, response_for};
use crate::statement::Query;
use crate::store::{UserTable, executes, list_reply, lists_table, projection, row_reply, table_wf};
use crate::user::{CreateUserBody, PublicUser, StoreError, UserNoPassword};

verus! {

/// A creation answers 201 with the new row's public projection under an id
/// never handed out before, or 500 with the store's diagnostic. The password
/// and its hash appear in no text field of a successful response, unless the
/// username itself holds them.
pub proof fn lemma_create_hides_password(
    body: CreateUserBody,
    password_hash: Seq<char>,
    before: UserTable,
    after: UserTable,
    result: Result<UserNoPassword, StoreError>,
)
    requires
        table_wf(before),
        executes(before, Query::Insert(body.username@, password_hash), after, row_reply(result)),
    ensures
        ({
            let resp = response_for(Operation::Create, row_reply(result));
            &&& result matches Ok(u) ==> {
                &&& resp == ResponseValue {
                    status: 201,
                    body: Body::One(PublicUser { id: u.id as int, username: body.username@ }),
                }
                &&& !before.issued.contains(u.id as int)
                &&& table_wf(after)
                &&& after.rows[u.id as int].password_hash == password_hash
            }
            &&& result matches Err(e) ==> resp == ResponseValue {
                status: 500,
                body: Body::Message(e.message@),
            } && after == before
            &&& (result is Ok && !contains_text(body.username@, body.password@)) ==> !body_holds_text(
                resp.body,
                body.password@,
            )
            &&& (result is Ok && !contains_text(body.username@, password_hash)) ==> !body_holds_text(
                resp.body,
                password_hash,
            )
        }),
{
}

/// A successful listing answers 200 with as many entries as the table has
/// rows, one projection per row, and leaves the table as it was.
pub proof fn lemma_list_counts_rows(
    before: UserTable,
    after: UserTable,
    result: Result<Vec<UserNoPassword>, StoreError>,
)
    requires
        table_wf(before),
        executes(before, Query::All, after, list_reply(result)),
        (result is Ok),
    ensures
        after == before,
        result->Ok_0@.len() == before.rows.dom().len(),
        response_for(Operation::List, list_reply(result)).status == 200,
        (response_for(Operation::List, list_reply(result)).body matches Body::Many(v) && v.len()
            == before.rows.dom().len() && lists_table(before, v)),
{
}

/// Reading by id answers with exactly that row's projection when it
/// succeeds; an id with no row always answers 500.
pub proof fn lemma_get_by_id(
    before: UserTable,
    id: i32,
    after: UserTable,
    result: Result<UserNoPassword, StoreError>,
)
    requires
        table_wf(before),
        executes(before, Query::ById(id as int), after, row_reply(result)),
    ensures
        after == before,
        (result is Ok ==> response_for(Operation::GetById, row_reply(result)) == ResponseValue {
            status: 200,
            body: Body::One(projection(before, id as int)),
        }),
        (response_for(Operation::GetById, row_reply(result)).status == 200 ==> result is Ok),
        !before.rows.contains_key(id as int) ==> response_for(
            Operation::GetById,
            row_reply(result),
        ).status == 500,
{
}

/// An update answers 200 with the same id and the new username, and a later
/// successful read of that id sees the new username.
pub proof fn lemma_update_then_get(
    t0: UserTable,
    id: i32,
    username: Seq<char>,
    t1: UserTable,
    updated: Result<UserNoPassword, StoreError>,
    t2: UserTable,
    read: Result<UserNoPassword, StoreError>,
)
    requires
        table_wf(t0),
        executes(t0, Query::Rename(id as int, username), t1, row_reply(updated)),
        (updated is Ok),
        executes(t1, Query::ById(id as int), t2, row_reply(read)),
    ensures
        t0.rows.contains_key(id as int),
        table_wf(t1),
        (response_for(Operation::Update, row_reply(updated)) == ResponseValue {
            status: 200,
            body: Body::One(PublicUser { id: id as int, username }),
        }),
        (read is Ok ==> response_for(Operation::GetById, row_reply(read)) == ResponseValue {
            status: 200,
            body: Body::One(PublicUser { id: id as int, username }),
        }),
{
}

/// A deletion answers 200 with the row as it was before, and a later read
/// of that id answers 500.
pub proof fn lemma_delete_then_get(
    t0: UserTable,
    id: i32,
    t1: UserTable,
    deleted: Result<UserNoPassword, StoreError>,
    t2: UserTable,
    read: Result<UserNoPassword, StoreError>,
)
    requires
        table_wf(t0),
        executes(t0, Query::Remove(id as int), t1, row_reply(deleted)),
        (deleted is Ok),
        executes(t1, Query::ById(id as int), t2, row_reply(read)),
    ensures
        (response_for(Operation::Delete, row_reply(deleted)) == ResponseValue {
            status: 200,
            body: Body::One(projection(t0, id as int)),
        }),
        !t1.rows.contains_key(id as int),
        response_for(Operation::GetById, row_reply(read)).status == 500,
{
}

/// Deleting the same id twice: once the first deletion has succeeded, the
/// second fails, answers 500 and changes nothing.
pub proof fn lemma_delete_twice(
    t0: UserTable,
    id: i32,
    t1: UserTable,
    first: Result<UserNoPassword, StoreError>,
    t2: UserTable,
    second: Result<UserNoPassword, StoreError>,
)
    requires
        table_wf(t0),
        executes(t0, Query::Remove(id as int), t1, row_reply(first)),
        (first is Ok),
        executes(t1, Query::Remove(id as int), t2, row_reply(second)),
    ensures
        (second is Err),
        t2 == t1,
        response_for(Operation::Delete, row_reply(second)).status == 500,
{
}

} // verus!
