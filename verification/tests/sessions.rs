use users_api::handler::{decoded, handle_client, stored, Step};
use users_api::request::InputError;
use users_api::response::{Response, Status};
use users_api::store::{StoreCommand, StoreReply};
use users_api::user::User;

/// A table in memory that answers as the relational store does.
struct Table {
    rows: Vec<User>,
    serial: i32,
}

fn run(table: &mut Table, command: &StoreCommand) -> StoreReply {
    match command {
        StoreCommand::Insert { name, email } => {
            table.serial += 1;
            table.rows.push(User { id: Some(table.serial), name: name.clone(), email: email.clone() });
            StoreReply::Affected(1)
        }
        StoreCommand::SelectOne { id } => {
            match table.rows.iter().find(|row| row.id == Some(*id)) {
                Some(row) => StoreReply::Rows(vec![copy(row)]),
                None => StoreReply::Failed,
            }
        }
        StoreCommand::SelectAll => StoreReply::Rows(table.rows.iter().map(copy).collect()),
        StoreCommand::Update { id, name, email } => {
            let mut count = 0;
            for row in table.rows.iter_mut() {
                if row.id == Some(*id) {
                    row.name = name.clone();
                    row.email = email.clone();
                    count += 1;
                }
            }
            StoreReply::Affected(count)
        }
        StoreCommand::Delete { id } => {
            let before = table.rows.len();
            table.rows.retain(|row| row.id != Some(*id));
            StoreReply::Affected((before - table.rows.len()) as u64)
        }
    }
}

fn copy(row: &User) -> User {
    User { id: row.id, name: row.name.clone(), email: row.email.clone() }
}

/// Decodes a body for these tests: a JSON object with a text `name` and a
/// text `email`.
fn decode(body: &str) -> Result<User, InputError> {
    let value: serde_json::Value = serde_json::from_str(body).map_err(|_| InputError::ParseError)?;
    let name = value.get("name").and_then(|v| v.as_str()).ok_or(InputError::ParseError)?;
    let email = value.get("email").and_then(|v| v.as_str()).ok_or(InputError::ParseError)?;
    Ok(User { id: None, name: name.to_string(), email: email.to_string() })
}

/// Serves one request against the table; `None` where no response is sent.
fn serve(table: &mut Table, request: &str) -> Option<String> {
    let mut step = handle_client(request.as_bytes());
    loop {
        step = match step {
            Step::Close => return None,
            Step::Decode { pending, body } => decoded(pending, decode(&body)),
            Step::Execute(command) => {
                let reply = run(table, &command);
                Step::Send(stored(&command, &reply))
            }
            Step::Send(response) => return Some(response.render()),
        };
    }
}

fn seeded() -> Table {
    let mut table = Table { rows: Vec::new(), serial: 0 };
    for (name, email) in [("Ann", "ann@x.com"), ("Bob", "bob@x.com"), ("Cy", "cy@x.com")] {
        run(&mut table, &StoreCommand::Insert { name: name.to_string(), email: email.to_string() });
    }
    table
}

#[test]
fn created_user_is_listed_with_an_id() {
    let mut table = Table { rows: Vec::new(), serial: 0 };
    let created = serve(
        &mut table,
        "POST /users HTTP/1.1\r\nContent-Type: application/json\r\n\r\n{\"name\":\"Ann\",\"email\":\"ann@x.com\"}",
    );
    assert_eq!(created, Some("HTTP/1.1 200 OK\r\n\r\nUser created".to_string()));
    assert_eq!(table.rows.len(), 1);
    let listed = serve(&mut table, "GET /users HTTP/1.1\r\n\r\n");
    assert_eq!(
        listed,
        Some(
            "HTTP/1.1 200 OK\r\nContent-Type: application/json\r\n\r\n[{\"id\":1,\"name\":\"Ann\",\"email\":\"ann@x.com\"}]"
                .to_string()
        )
    );
}

#[test]
fn existing_user_is_read() {
    let mut table = seeded();
    assert_eq!(
        serve(&mut table, "GET /users/1 HTTP/1.1\r\n\r\n"),
        Some(
            "HTTP/1.1 200 OK\r\nContent-Type: application/json\r\n\r\n{\"id\":1,\"name\":\"Ann\",\"email\":\"ann@x.com\"}"
                .to_string()
        )
    );
}

#[test]
fn absent_user_read_and_delete() {
    let mut table = seeded();
    assert_eq!(
        serve(&mut table, "GET /users/999 HTTP/1.1\r\n\r\n"),
        Some("HTTP/1.1 500 INTERNAL SERVER ERROR\r\n\r\nUser not found".to_string())
    );
    assert_eq!(
        serve(&mut table, "DELETE /users/999 HTTP/1.1\r\n\r\n"),
        Some("HTTP/1.1 404 NOT FOUND\r\n\r\nUser not found".to_string())
    );
    assert_eq!(table.rows.len(), 3);
}

#[test]
fn update_changes_exactly_one_row() {
    let mut table = seeded();
    let updated = serve(
        &mut table,
        "PUT /users/2 HTTP/1.1\r\n\r\n{\"name\":\"Robert\",\"email\":\"rob@x.com\"}",
    );
    assert_eq!(updated, Some("HTTP/1.1 200 OK\r\n\r\nUser updated".to_string()));
    assert_eq!(
        table.rows,
        vec![
            User { id: Some(1), name: "Ann".to_string(), email: "ann@x.com".to_string() },
            User { id: Some(2), name: "Robert".to_string(), email: "rob@x.com".to_string() },
            User { id: Some(3), name: "Cy".to_string(), email: "cy@x.com".to_string() },
        ]
    );
}

#[test]
fn update_of_absent_user_is_confirmed_and_changes_nothing() {
    let mut table = seeded();
    let updated = serve(&mut table, "PUT /users/999 HTTP/1.1\r\n\r\n{\"name\":\"X\",\"email\":\"x\"}");
    assert_eq!(updated, Some("HTTP/1.1 200 OK\r\n\r\nUser updated".to_string()));
    assert_eq!(table.rows, seeded().rows);
}

#[test]
fn deleted_user_is_no_longer_listed() {
    let mut table = seeded();
    assert_eq!(
        serve(&mut table, "DELETE /users/1 HTTP/1.1\r\n\r\n"),
        Some("HTTP/1.1 200 OK\r\n\r\nUser deleted".to_string())
    );
    assert_eq!(table.rows.len(), 2);
    assert_eq!(
        serve(&mut table, "GET /users HTTP/1.1\r\n\r\n"),
        Some(
            "HTTP/1.1 200 OK\r\nContent-Type: application/json\r\n\r\n[{\"id\":2,\"name\":\"Bob\",\"email\":\"bob@x.com\"},{\"id\":3,\"name\":\"Cy\",\"email\":\"cy@x.com\"}]"
                .to_string()
        )
    );
    assert_eq!(
        serve(&mut table, "GET /users/1 HTTP/1.1\r\n\r\n"),
        Some("HTTP/1.1 500 INTERNAL SERVER ERROR\r\n\r\nUser not found".to_string())
    );
}

#[test]
fn malformed_json_to_create_inserts_no_row() {
    let mut table = seeded();
    for body in ["{\"name\":\"Ann\"", "not json", "{\"name\":1,\"email\":\"a\"}", "{\"name\":\"Ann\"}", "[]", " "] {
        let request = format!("POST /users HTTP/1.1\r\n\r\n{}", body);
        assert_eq!(
            serve(&mut table, &request),
            Some("HTTP/1.1 500 INTERNAL SERVER ERROR\r\n\r\nError".to_string())
        );
    }
    assert_eq!(table.rows, seeded().rows);
}

#[test]
fn create_without_body_inserts_no_row() {
    let mut table = seeded();
    assert_eq!(
        serve(&mut table, "POST /users HTTP/1.1\r\n\r\n"),
        Some("HTTP/1.1 500 INTERNAL SERVER ERROR\r\n\r\nError".to_string())
    );
    assert_eq!(
        serve(&mut table, "POST /users HTTP/1.1\r\n"),
        Some("HTTP/1.1 500 INTERNAL SERVER ERROR\r\n\r\nError".to_string())
    );
    assert_eq!(table.rows.len(), 3);
}

#[test]
fn unknown_request_touches_nothing() {
    let mut table = seeded();
    assert_eq!(
        serve(&mut table, "GET /unknown HTTP/1.1\r\n\r\n"),
        Some("HTTP/1.1 404 NOT FOUND\r\n\r\n".to_string())
    );
    assert_eq!(table.rows.len(), 3);
}

#[test]
fn empty_read_sends_nothing() {
    let mut table = seeded();
    assert_eq!(serve(&mut table, ""), None);
}

#[test]
fn each_response_is_built_from_status_and_body() {
    let response = Response { status: Status::Success, json: true, body: "{}".to_string() };
    assert_eq!(response.render(), "HTTP/1.1 200 OK\r\nContent-Type: application/json\r\n\r\n{}");
}
