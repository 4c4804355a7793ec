//! The parameterized statements that the service runs against the `users`
//! table, one per operation.
use vstd::prelude::*;
use crate::user::{CreateUserBody, UpdateUserBody};

verus! {

/// One parameterized statement on the `users` table.
#[derive(Debug, Clone, PartialEq, Eq)]
pub enum Statement {
    /// Every row's public projection.
    SelectAll,
    /// The public projection of the row with this id.
    SelectById { id: i32 },
    /// A new row; the store assigns its id.
    Insert { username: String, password_hash: String },
    /// A new username for the row with this id.
    UpdateUsername { id: i32, username: String },
    /// Removal of the row with this id.
    DeleteById { id: i32 },
}

/// A value bound to a statement's placeholder.
#[derive(Debug, Clone, PartialEq, Eq)]
pub enum Param {
    Int(i32),
    Text(String),
}

/// The mathematical value of a statement.
pub enum Query {
    All,
    ById(int),
    Insert(Seq<char>, Seq<char>),
    Rename(int, Seq<char>),
    Remove(int),
}

/// The mathematical value of a bound parameter.
pub enum ParamValue {
    Int(int),
    Text(Seq<char>),
}

impl View for Statement {
    type V = Query;

    open spec fn view(&self) -> Query {
        match self {
            Statement::SelectAll => Query::All,
            Statement::SelectById { id } => Query::ById(*id as int),
            Statement::Insert { username, password_hash } => Query::Insert(
                username@,
                password_hash@,
            ),
            Statement::UpdateUsername { id, username } => Query::Rename(*id as int, username@),
            Statement::DeleteById { id } => Query::Remove(*id as int),
        }
    }
}

impl View for Param {
    type V = ParamValue;

    open spec fn view(&self) -> ParamValue {
        match self {
            Param::Int(i) => ParamValue::Int(*i as int),
            Param::Text(s) => ParamValue::Text(s@),
        }
    }
}

/// The SQL text of each statement; `$n` is the n-th bound parameter.
pub open spec fn sql_text(q: Query) -> Seq<char> {
    match q {
        Query::All => "SELECT id, username FROM users"@,
        Query::ById(_) => "SELECT id, username FROM users WHERE id = $1"@,
        Query::Insert(_, _) =>
            "INSERT INTO users (username, password) VALUES ($1, $2) RETURNING id, username"@,
        Query::Rename(_, _) =>
            "UPDATE users SET username = $1 WHERE id = $2 RETURNING id, username"@,
        Query::Remove(_) => "DELETE FROM users WHERE id = $1 RETURNING id, username"@,
    }
}

/// The values bound to `$1`, `$2`, ... in order.
pub open spec fn bound_values(q: Query) -> Seq<ParamValue> {
    match q {
        Query::All => seq![],
        Query::ById(id) => seq![ParamValue::Int(id)],
        Query::Insert(name, hash) => seq![ParamValue::Text(name), ParamValue::Text(hash)],
        Query::Rename(id, name) => seq![ParamValue::Text(name), ParamValue::Int(id)],
        Query::Remove(id) => seq![ParamValue::Int(id)],
    }
}

impl Statement {
    /// The statement's SQL text.
    pub fn sql(&self) -> (r: &'static str)
        ensures
            r@ == sql_text(self@),
    {
        match self {
            Statement::SelectAll => "SELECT id, username FROM users",
            Statement::SelectById { .. } => "SELECT id, username FROM users WHERE id = $1",
            Statement::Insert { .. } =>
                "INSERT INTO users (username, password) VALUES ($1, $2) RETURNING id, username",
            Statement::UpdateUsername { .. } =>
                "UPDATE users SET username = $1 WHERE id = $2 RETURNING id, username",
            Statement::DeleteById { .. } => "DELETE FROM users WHERE id = $1 RETURNING id, username",
        }
    }

    /// The values to bind to the statement's placeholders, in order.
    pub fn params(&self) -> (r: Vec<Param>)
        ensures
            r@.len() == bound_values(self@).len(),
            forall|i: int| 0 <= i < r@.len() ==> #[trigger] r@[i]@ == bound_values(self@)[i],
    {
        let mut r: Vec<Param> = Vec::new();
        match self {
            Statement::SelectAll => {},
            Statement::SelectById { id } => {
                r.push(Param::Int(*id));
            },
            Statement::Insert { username, password_hash } => {
                r.push(Param::Text(username.clone()));
                r.push(Param::Text(password_hash.clone()));
            },
            Statement::UpdateUsername { id, username } => {
                r.push(Param::Text(username.clone()));
                r.push(Param::Int(*id));
            },
            Statement::DeleteById { id } => {
                r.push(Param::Int(*id));
            },
        }
        r
    }
}

/// The statement that stores a new user. The plaintext password is consumed
/// here and dropped: only the hash prepared from it reaches the store.
pub fn insert_statement(body: CreateUserBody, password_hash: String) -> (r: Statement)
    ensures
        r@ == Query::Insert(body.username@, password_hash@),
{
    let CreateUserBody { username, password: _ } = body;
    Statement::Insert { username, password_hash }
}

/// The statement that renames the user with the given id.
pub fn update_statement(id: i32, body: UpdateUserBody) -> (r: Statement)
    ensures
        r@ == Query::Rename(id as int, body.username@),
{
    Statement::UpdateUsername { id, username: body.username }
}

} // verus!
