use user_crud::path_id::{parse_user_id, DecodeError};
use user_crud::response::{
    respond_list, respond_one, status_of_success, Operation, Response, ResponseBody,
};
use user_crud::statement::{insert_statement, update_statement, Param, Statement};
use user_crud::user::{CreateUserBody, StoreError, UpdateUserBody, UserNoPassword};

fn user(id: i32, name: &str) -> UserNoPassword {
    UserNoPassword { id, username: name.to_string() }
}

fn store_error(msg: &str) -> StoreError {
    StoreError { message: msg.to_string() }
}

#[test]
fn path_id_plain_digits() {
    assert_eq!(parse_user_id("42"), Ok(42));
    assert_eq!(parse_user_id("0"), Ok(0));
    assert_eq!(parse_user_id("007"), Ok(7));
}

#[test]
fn path_id_signs() {
    assert_eq!(parse_user_id("-7"), Ok(-7));
    assert_eq!(parse_user_id("+5"), Ok(5));
    assert_eq!(parse_user_id("-"), Err(DecodeError::Empty));
    assert_eq!(parse_user_id("+"), Err(DecodeError::Empty));
}

#[test]
fn path_id_empty() {
    assert_eq!(parse_user_id(""), Err(DecodeError::Empty));
}

#[test]
fn path_id_not_an_integer() {
    assert_eq!(parse_user_id("12a"), Err(DecodeError::InvalidDigit));
    assert_eq!(parse_user_id("abc"), Err(DecodeError::InvalidDigit));
    assert_eq!(parse_user_id(" 1"), Err(DecodeError::InvalidDigit));
    assert_eq!(parse_user_id("1.5"), Err(DecodeError::InvalidDigit));
    assert_eq!(parse_user_id("--1"), Err(DecodeError::InvalidDigit));
    assert_eq!(parse_user_id("é"), Err(DecodeError::InvalidDigit));
}

#[test]
fn path_id_limits() {
    assert_eq!(parse_user_id("2147483647"), Ok(i32::MAX));
    assert_eq!(parse_user_id("-2147483648"), Ok(i32::MIN));
    assert_eq!(parse_user_id("2147483648"), Err(DecodeError::OutOfRange));
    assert_eq!(parse_user_id("-2147483649"), Err(DecodeError::OutOfRange));
    assert_eq!(parse_user_id("99999999999999999999"), Err(DecodeError::OutOfRange));
}

#[test]
fn path_id_agrees_with_std() {
    for s in ["1", "-1", "+0", "", "x", "2147483647", "2147483648", "-2147483648", "-0", "12 "] {
        assert_eq!(parse_user_id(s).ok(), s.parse::<i32>().ok(), "segment {:?}", s);
    }
}

#[test]
fn statement_texts() {
    assert_eq!(Statement::SelectAll.sql(), "SELECT id, username FROM users");
    assert_eq!(
        Statement::SelectById { id: 1 }.sql(),
        "SELECT id, username FROM users WHERE id = $1"
    );
    assert_eq!(
        Statement::DeleteById { id: 1 }.sql(),
        "DELETE FROM users WHERE id = $1 RETURNING id, username"
    );
    assert!(Statement::SelectAll.params().is_empty());
    assert_eq!(Statement::DeleteById { id: 9 }.params(), vec![Param::Int(9)]);
}

#[test]
fn insert_binds_hash_not_password() {
    let body = CreateUserBody { username: "alice".to_string(), password: "p@ss".to_string() };
    let st = insert_statement(body, "$argon2id$v=19$hash".to_string());
    assert_eq!(
        st.sql(),
        "INSERT INTO users (username, password) VALUES ($1, $2) RETURNING id, username"
    );
    let params = st.params();
    assert_eq!(
        params,
        vec![Param::Text("alice".to_string()), Param::Text("$argon2id$v=19$hash".to_string())]
    );
    assert!(!params.contains(&Param::Text("p@ss".to_string())));
}

#[test]
fn update_binds_name_then_id() {
    let st = update_statement(3, UpdateUserBody { username: "bob".to_string() });
    assert_eq!(st, Statement::UpdateUsername { id: 3, username: "bob".to_string() });
    assert_eq!(
        st.sql(),
        "UPDATE users SET username = $1 WHERE id = $2 RETURNING id, username"
    );
    assert_eq!(st.params(), vec![Param::Text("bob".to_string()), Param::Int(3)]);
}

#[test]
fn success_statuses() {
    assert_eq!(status_of_success(Operation::Create), 201);
    assert_eq!(status_of_success(Operation::List), 200);
    assert_eq!(status_of_success(Operation::GetById), 200);
    assert_eq!(status_of_success(Operation::Update), 200);
    assert_eq!(status_of_success(Operation::Delete), 200);
}

#[test]
fn create_alice_answers_created() {
    let body = CreateUserBody { username: "alice".to_string(), password: "p@ss".to_string() };
    let st = insert_statement(body, "hashed".to_string());
    let name = match &st {
        Statement::Insert { username, .. } => username.clone(),
        _ => panic!("not an insert"),
    };
    let r = respond_one(Operation::Create, Ok(user(1, &name)));
    assert_eq!(r, Response { status: 201, body: ResponseBody::User(user(1, "alice")) });
    let shown = format!("{:?}", r);
    assert!(!shown.contains("p@ss"));
    assert!(!shown.contains("hashed"));
}

#[test]
fn list_counts_rows() {
    let rows = vec![user(1, "alice"), user(2, "bob")];
    let r = respond_list(Ok(rows.clone()));
    assert_eq!(r.status, 200);
    match r.body {
        ResponseBody::Users(v) => {
            assert_eq!(v.len(), 2);
            assert_eq!(v, rows);
        }
        _ => panic!("expected an array"),
    }
    let empty = respond_list(Ok(Vec::new()));
    assert_eq!(empty, Response { status: 200, body: ResponseBody::Users(Vec::new()) });
}

#[test]
fn list_failure_is_server_error() {
    let r = respond_list(Err(store_error("PoolTimedOut")));
    assert_eq!(r, Response { status: 500, body: ResponseBody::Error("PoolTimedOut".to_string()) });
}

#[test]
fn get_existing_and_missing() {
    let found = respond_one(Operation::GetById, Ok(user(4, "carol")));
    assert_eq!(found, Response { status: 200, body: ResponseBody::User(user(4, "carol")) });
    let missing = respond_one(Operation::GetById, Err(store_error("RowNotFound")));
    assert_eq!(missing, Response { status: 500, body: ResponseBody::Error("RowNotFound".to_string()) });
}

#[test]
fn update_answers_same_id_new_name() {
    let r = respond_one(Operation::Update, Ok(user(3, "bob")));
    assert_eq!(r, Response { status: 200, body: ResponseBody::User(user(3, "bob")) });
}

#[test]
fn delete_then_delete_again() {
    let first = respond_one(Operation::Delete, Ok(user(5, "dave")));
    assert_eq!(first, Response { status: 200, body: ResponseBody::User(user(5, "dave")) });
    let second = respond_one(Operation::Delete, Err(store_error("RowNotFound")));
    assert_eq!(second.status, 500);
    let read = respond_one(Operation::GetById, Err(store_error("RowNotFound")));
    assert_eq!(read.status, 500);
}
