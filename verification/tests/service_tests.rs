use crud_api::handlers::{handle_client, respond, Step};
use crud_api::request::{body_from_request, read_request};
use crud_api::store::{StoreCommand, StoreReply};
use crud_api::user::User;
use std::collections::BTreeMap;

/// A table in memory that answers as a store that works does.
struct Table {
    rows: BTreeMap<i32, (String, String)>,
    next: i32,
    reachable: bool,
}

impl Table {
    fn new() -> Table {
        Table { rows: BTreeMap::new(), next: 1, reachable: true }
    }

    fn run(&mut self, command: &StoreCommand) -> StoreReply {
        if !self.reachable {
            return StoreReply::Failed;
        }
        match command {
            StoreCommand::FetchOne { id } => match self.rows.get(id) {
                Some((name, email)) => {
                    StoreReply::Row { id: *id, name: name.clone(), email: email.clone() }
                }
                None => StoreReply::NoRow,
            },
            StoreCommand::FetchAll => StoreReply::Rows(
                self.rows
                    .iter()
                    .map(|(id, (name, email))| User {
                        id: Some(*id),
                        name: name.clone(),
                        email: email.clone(),
                    })
                    .collect(),
            ),
            StoreCommand::Insert { name, email } => {
                let id = self.next;
                self.next += 1;
                self.rows.insert(id, (name.clone(), email.clone()));
                StoreReply::Inserted { id }
            }
            StoreCommand::Update { id, name, email } => match self.rows.get_mut(id) {
                Some(row) => {
                    *row = (name.clone(), email.clone());
                    StoreReply::Affected { rows: 1 }
                }
                None => StoreReply::Affected { rows: 0 },
            },
            StoreCommand::Delete { id } => match self.rows.remove(id) {
                Some(_) => StoreReply::Affected { rows: 1 },
                None => StoreReply::Affected { rows: 0 },
            },
        }
    }
}

/// The user that a body holds, for bodies that are one JSON object.
fn decode(body: &str) -> Option<User> {
    let value: serde_json::Value = serde_json::from_str(body).ok()?;
    let object = value.as_object()?;
    let id = match object.get("id") {
        None => None,
        Some(id) if id.is_null() => None,
        Some(id) => Some(i32::try_from(id.as_i64()?).ok()?),
    };
    Some(User {
        id,
        name: String::from(object.get("name")?.as_str()?),
        email: String::from(object.get("email")?.as_str()?),
    })
}

/// One connection: what is sent back for what was received.
fn serve(table: &mut Table, received: &[u8]) -> String {
    let request = read_request(Some(received));
    let decoded = decode(&body_from_request(&request));
    let response = match handle_client(&request, decoded) {
        Step::Reply(response) => response,
        Step::Ask(command) => {
            let reply = table.run(&command);
            respond(&command, reply)
        }
    };
    response.to_text()
}

const OK: &str = "HTTP/1.1 200 OK\r\nContent-Type: application/json\r\n\r\n";
const NOT_FOUND: &str = "HTTP/1.1 404 NOT FOUND\r\n\r\n";
const FAILURE: &str = "HTTP/1.1 500 INTERNAL SERVER ERROR\r\n\r\n";

#[test]
fn create_read_delete_read() {
    let mut table = Table::new();
    table.next = 17;
    let created = serve(
        &mut table,
        b"POST /users\r\n\r\n{\"id\":null,\"name\":\"Ada\",\"email\":\"ada@x.com\"}",
    );
    assert_eq!(created, format!("{}User created with id: 17}}", OK));
    let read = serve(&mut table, b"GET /users/17");
    assert_eq!(read, format!("{}{{\"id\":17,\"name\":\"Ada\",\"email\":\"ada@x.com\"}}", OK));
    let deleted = serve(&mut table, b"DELETE /users/17");
    assert_eq!(deleted, format!("{}User deleted", OK));
    let read_again = serve(&mut table, b"GET /users/17");
    assert_eq!(read_again, format!("{}User not found", NOT_FOUND));
}

#[test]
fn created_users_are_read_back() {
    let mut table = Table::new();
    for (name, email) in [("Ada", "ada@x.com"), ("", ""), ("a\"b\\c", "line\nbreak"), ("é✓", "😀@x")] {
        let body = format!(
            "{{\"name\":{},\"email\":{}}}",
            serde_json::to_string(name).unwrap(),
            serde_json::to_string(email).unwrap()
        );
        let id = table.next;
        let created = serve(&mut table, format!("POST /users\r\nHost: x\r\n\r\n{}", body).as_bytes());
        assert_eq!(created, format!("{}User created with id: {}}}", OK, id));
        let read = serve(&mut table, format!("GET /users/{}\r\nHost: x\r\n\r\n", id).as_bytes());
        assert!(read.starts_with(OK));
        let user = decode(&read[OK.len()..]).unwrap();
        assert_eq!(user, User { id: Some(id), name: String::from(name), email: String::from(email) });
    }
}

#[test]
fn unknown_ids_are_not_found() {
    let mut table = Table::new();
    serve(&mut table, b"POST /users\r\n\r\n{\"name\":\"a\",\"email\":\"b\"}");
    let not_found = format!("{}User not found", NOT_FOUND);
    assert_eq!(serve(&mut table, b"GET /users/2"), not_found);
    assert_eq!(serve(&mut table, b"PUT /users/2\r\n\r\n{\"name\":\"c\",\"email\":\"d\"}"), not_found);
    assert_eq!(serve(&mut table, b"DELETE /users/2"), not_found);
    assert_eq!(serve(&mut table, b"GET /users/0"), not_found);
    assert_eq!(serve(&mut table, b"GET /users/-1"), not_found);
    assert_eq!(table.rows.len(), 1);
    assert_eq!(table.rows.get(&1), Some(&(String::from("a"), String::from("b"))));
}

#[test]
fn an_empty_store_lists_nothing() {
    let mut table = Table::new();
    assert_eq!(serve(&mut table, b"GET /users"), format!("{}[]", OK));
    assert_eq!(serve(&mut table, b"GET /users HTTP/1.1\r\nHost: x\r\n\r\n"), format!("{}[]", OK));
}

#[test]
fn a_store_lists_what_it_holds() {
    let mut table = Table::new();
    serve(&mut table, b"POST /users\r\n\r\n{\"name\":\"a\",\"email\":\"a@x\"}");
    serve(&mut table, b"POST /users\r\n\r\n{\"name\":\"b\",\"email\":\"b@x\"}");
    assert_eq!(
        serve(&mut table, b"GET /users"),
        format!(
            "{}[{{\"id\":1,\"name\":\"a\",\"email\":\"a@x\"}},{{\"id\":2,\"name\":\"b\",\"email\":\"b@x\"}}]",
            OK
        )
    );
}

#[test]
fn an_update_replaces_name_and_email() {
    let mut table = Table::new();
    serve(&mut table, b"POST /users\r\n\r\n{\"name\":\"a\",\"email\":\"a@x\"}");
    serve(&mut table, b"POST /users\r\n\r\n{\"name\":\"b\",\"email\":\"b@x\"}");
    let request = b"PUT /users/1\r\n\r\n{\"id\":2,\"name\":\"c\",\"email\":\"c@x\"}";
    assert_eq!(serve(&mut table, request), format!("{}User updated", OK));
    let once = table.rows.clone();
    assert_eq!(once.get(&1), Some(&(String::from("c"), String::from("c@x"))));
    assert_eq!(once.get(&2), Some(&(String::from("b"), String::from("b@x"))));
    assert_eq!(serve(&mut table, request), format!("{}User updated", OK));
    assert_eq!(table.rows, once);
    assert_eq!(
        serve(&mut table, b"GET /users/1"),
        format!("{}{{\"id\":1,\"name\":\"c\",\"email\":\"c@x\"}}", OK)
    );
}

#[test]
fn a_delete_succeeds_once() {
    let mut table = Table::new();
    serve(&mut table, b"POST /users\r\n\r\n{\"name\":\"a\",\"email\":\"a@x\"}");
    assert_eq!(serve(&mut table, b"DELETE /users/1"), format!("{}User deleted", OK));
    assert!(table.rows.is_empty());
    assert_eq!(serve(&mut table, b"DELETE /users/1"), format!("{}User not found", NOT_FOUND));
}

#[test]
fn a_malformed_body_writes_nothing() {
    let mut table = Table::new();
    serve(&mut table, b"POST /users\r\n\r\n{\"name\":\"a\",\"email\":\"a@x\"}");
    let before = table.rows.clone();
    let failure = format!("{}Internal server error", FAILURE);
    assert_eq!(serve(&mut table, b"POST /users\r\n\r\n"), failure);
    assert_eq!(serve(&mut table, b"POST /users\r\n\r\n{\"name\":\"b\"}"), failure);
    assert_eq!(serve(&mut table, b"POST /users\r\n\r\n{\"name\":1,\"email\":\"b\"}"), failure);
    assert_eq!(serve(&mut table, b"POST /users\r\n\r\nnot json"), failure);
    assert_eq!(serve(&mut table, b"POST /users"), failure);
    assert_eq!(serve(&mut table, b"PUT /users/1\r\n\r\n{\"email\":\"b\"}"), failure);
    assert_eq!(serve(&mut table, b"PUT /users/1\r\n\r\n[]"), failure);
    assert_eq!(serve(&mut table, b"PUT /users/1"), failure);
    assert_eq!(table.rows, before);
    assert_eq!(table.next, 2);
}

#[test]
fn a_store_out_of_reach_is_a_failure() {
    let mut table = Table::new();
    serve(&mut table, b"POST /users\r\n\r\n{\"name\":\"a\",\"email\":\"a@x\"}");
    table.reachable = false;
    let failure = format!("{}Internal server error", FAILURE);
    assert_eq!(serve(&mut table, b"GET /users/1"), failure);
    assert_eq!(serve(&mut table, b"GET /users"), failure);
    assert_eq!(serve(&mut table, b"POST /users\r\n\r\n{\"name\":\"b\",\"email\":\"b@x\"}"), failure);
    assert_eq!(serve(&mut table, b"PUT /users/1\r\n\r\n{\"name\":\"b\",\"email\":\"b@x\"}"), failure);
    assert_eq!(serve(&mut table, b"DELETE /users/1"), failure);
    assert_eq!(serve(&mut table, b"GET /nothing"), format!("{}Resource not found", NOT_FOUND));
}

#[test]
fn an_empty_request_is_not_found() {
    let mut table = Table::new();
    assert_eq!(serve(&mut table, b""), format!("{}Resource not found", NOT_FOUND));
    let request = read_request(None);
    assert_eq!(
        handle_client(&request, None),
        Step::Reply(crud_api::response::Response::new(
            crud_api::response::Status::NotFound,
            "Resource not found"
        ))
    );
}

#[test]
fn a_path_with_a_protocol_names_user_zero() {
    let mut table = Table::new();
    serve(&mut table, b"POST /users HTTP/1.1\r\n\r\n{\"name\":\"a\",\"email\":\"a@x\"}");
    assert_eq!(
        serve(&mut table, b"GET /users/1 HTTP/1.1\r\n\r\n"),
        format!("{}User not found", NOT_FOUND)
    );
    table.rows.insert(0, (String::from("z"), String::from("z@x")));
    assert_eq!(
        serve(&mut table, b"GET /users/1 HTTP/1.1\r\n\r\n"),
        format!("{}{{\"id\":0,\"name\":\"z\",\"email\":\"z@x\"}}", OK)
    );
}

#[test]
fn bytes_that_are_not_text_are_replaced() {
    let mut table = Table::new();
    let created = serve(&mut table, b"POST /users\r\n\r\n{\"name\":\"a\xffb\",\"email\":\"c\"}");
    assert_eq!(created, format!("{}User created with id: 1}}", OK));
    assert_eq!(
        serve(&mut table, b"GET /users/1"),
        format!("{}{{\"id\":1,\"name\":\"a\u{fffd}b\",\"email\":\"c\"}}", OK)
    );
}
