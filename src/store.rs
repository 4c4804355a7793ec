//! What the store does with each statement: the table as a map from id to
//! stored row, and the replies that a statement may bring back.
use vstd::prelude::*;
use crate::path_id::fits_i32;
use crate::statement::Query;
use crate::user::{PublicUser, StoreError, UserNoPassword};

verus! {

/// A stored row: the public username and the write-only password hash.
pub struct StoredUser {
    pub username: Seq<char>,
    pub password_hash: Seq<char>,
}

/// The `users` table: its rows by id, and every id the store has handed out.
pub struct UserTable {
    pub rows: Map<int, StoredUser>,
    pub issued: Set<int>,
}

/// What a statement brings back from the store.
pub enum Reply {
    Rows(Seq<PublicUser>),
    Row(PublicUser),
    Failed(Seq<char>),
}

pub open spec fn table_wf(t: UserTable) -> bool {
    &&& t.rows.dom().finite()
    &&& t.rows.dom().subset_of(t.issued)
}

/// The public projection of the row with the given id.
pub open spec fn projection(t: UserTable, id: int) -> PublicUser {
    PublicUser { id, username: t.rows[id].username }
}

/// `v` holds the projection of every row of `t` once, in some order.
pub open spec fn lists_table(t: UserTable, v: Seq<PublicUser>) -> bool {
    &&& v.len() == t.rows.dom().len()
    &&& forall|i: int|
        0 <= i < v.len() ==> t.rows.contains_key(#[trigger] v[i].id) && v[i] == projection(
            t,
            v[i].id,
        )
    &&& forall|i: int, j: int| 0 <= i < j < v.len() ==> v[i].id != v[j].id
}

/// The store runs `q` on `before`, leaves `after`, and replies `reply`.
/// Any statement may fail and leave the table as it was; a statement on a
/// single id succeeds only when a row has that id.
pub open spec fn executes(before: UserTable, q: Query, after: UserTable, reply: Reply) -> bool {
    ||| reply is Failed && after == before
    ||| match q {
        Query::All => after == before && (reply matches Reply::Rows(v) && lists_table(before, v)),
        Query::ById(id) => {
            &&& after == before
            &&& before.rows.contains_key(id)
            &&& reply == Reply::Row(projection(before, id))
        },
        Query::Insert(name, hash) => {
            &&& reply matches Reply::Row(u)
            &&& !before.issued.contains(u.id)
            &&& fits_i32(u.id)
            &&& u.username == name
            &&& after == UserTable {
                rows: before.rows.insert(u.id, StoredUser { username: name, password_hash: hash }),
                issued: before.issued.insert(u.id),
            }
        },
        Query::Rename(id, name) => {
            &&& before.rows.contains_key(id)
            &&& reply == Reply::Row(PublicUser { id, username: name })
            &&& after == UserTable {
                rows: before.rows.insert(
                    id,
                    StoredUser { username: name, password_hash: before.rows[id].password_hash },
                ),
                issued: before.issued,
            }
        },
        Query::Remove(id) => {
            &&& before.rows.contains_key(id)
            &&& reply == Reply::Row(projection(before, id))
            &&& after == UserTable { rows: before.rows.remove(id), issued: before.issued }
        },
    }
}

/// The reply that a multi-row fetch stands for.
pub open spec fn list_reply(r: Result<Vec<UserNoPassword>, StoreError>) -> Reply {
    match r {
        Ok(v) => Reply::Rows(v@.map_values(|u: UserNoPassword| u@)),
        Err(e) => Reply::Failed(e.message@),
    }
}

/// The reply that a single-row fetch stands for.
pub open spec fn row_reply(r: Result<UserNoPassword, StoreError>) -> Reply {
    match r {
        Ok(u) => Reply::Row(u@),
        Err(e) => Reply::Failed(e.message@),
    }
}

} // verus!
