use users_api::request::request_body;
use users_api::user::{json_array, serialize_user, serialize_users, user_object, User};

fn user(id: Option<i32>, name: &str, email: &str) -> User {
    User { id, name: name.to_string(), email: email.to_string() }
}

#[test]
fn user_is_an_object_of_three_members() {
    assert_eq!(
        serialize_user(&user(Some(1), "Ann", "ann@x.com")),
        "{\"id\":1,\"name\":\"Ann\",\"email\":\"ann@x.com\"}"
    );
}

#[test]
fn missing_id_is_null() {
    assert_eq!(
        serialize_user(&user(None, "Ann", "ann@x.com")),
        "{\"id\":null,\"name\":\"Ann\",\"email\":\"ann@x.com\"}"
    );
}

#[test]
fn ids_are_written_in_decimal() {
    assert_eq!(serialize_user(&user(Some(0), "", "")), "{\"id\":0,\"name\":\"\",\"email\":\"\"}");
    assert_eq!(serialize_user(&user(Some(-7), "", "")), "{\"id\":-7,\"name\":\"\",\"email\":\"\"}");
    assert_eq!(
        serialize_user(&user(Some(i32::MAX), "", "")),
        "{\"id\":2147483647,\"name\":\"\",\"email\":\"\"}"
    );
    assert_eq!(
        serialize_user(&user(Some(i32::MIN), "", "")),
        "{\"id\":-2147483648,\"name\":\"\",\"email\":\"\"}"
    );
    assert_eq!(serialize_user(&user(Some(1090), "", "")), "{\"id\":1090,\"name\":\"\",\"email\":\"\"}");
}

#[test]
fn strings_are_quoted_and_escaped() {
    assert_eq!(
        serialize_user(&user(Some(2), "A \"b\" \\ c", "x\ny\t\u{1}")),
        "{\"id\":2,\"name\":\"A \\\"b\\\" \\\\ c\",\"email\":\"x\\ny\\t\\u0001\"}"
    );
}

#[test]
fn text_beyond_ascii_is_kept() {
    assert_eq!(
        serialize_user(&user(Some(3), "Zo\u{e9}", "\u{1f600}/")),
        "{\"id\":3,\"name\":\"Zo\u{e9}\",\"email\":\"\u{1f600}/\"}"
    );
}

#[test]
fn object_is_framed_around_given_texts() {
    assert_eq!(user_object("1", "\"a\"", "\"b\""), "{\"id\":1,\"name\":\"a\",\"email\":\"b\"}");
    assert_eq!(user_object("", "", ""), "{\"id\":,\"name\":,\"email\":}");
}

#[test]
fn array_is_framed_around_given_texts() {
    assert_eq!(json_array(&vec![]), "[]");
    assert_eq!(json_array(&vec!["1".to_string()]), "[1]");
    assert_eq!(json_array(&vec!["1".to_string(), "{}".to_string(), "".to_string()]), "[1,{},]");
}

#[test]
fn no_users_is_an_empty_array() {
    assert_eq!(serialize_users(&vec![]), "[]");
}

#[test]
fn users_are_listed_in_order() {
    let users = vec![user(Some(2), "Bob", "bob@x.com"), user(Some(1), "Ann", "ann@x.com")];
    assert_eq!(
        serialize_users(&users),
        "[{\"id\":2,\"name\":\"Bob\",\"email\":\"bob@x.com\"},{\"id\":1,\"name\":\"Ann\",\"email\":\"ann@x.com\"}]"
    );
}

#[test]
fn written_user_reads_back() {
    let samples = [
        user(Some(1), "Ann", "ann@x.com"),
        user(None, "", ""),
        user(Some(-12), "quote \" backslash \\ slash /", "line\r\nbreak\u{0}\u{7f}"),
        user(Some(i32::MIN), "\u{e9}\u{4e2d}\u{1f600}", "\u{8}\u{c}\u{1f}"),
    ];
    for u in samples.iter() {
        let text = serialize_user(u);
        let value: serde_json::Value = serde_json::from_str(&text).unwrap();
        assert_eq!(value.get("name").and_then(|v| v.as_str()), Some(u.name.as_str()));
        assert_eq!(value.get("email").and_then(|v| v.as_str()), Some(u.email.as_str()));
        assert_eq!(value.get("id").and_then(|v| v.as_i64()), u.id.map(|n| n as i64));
        assert_eq!(value.as_object().map(|m| m.len()), Some(3));
    }
}

#[test]
fn read_body_is_written_with_the_same_name_and_email() {
    let body = "{ \"email\" : \"ann@x.com\", \"name\" : \"Ann \\u00e9\\n\", \"extra\": [1, 2] }";
    let read: serde_json::Value = serde_json::from_str(body).unwrap();
    let u = user(
        None,
        read.get("name").and_then(|v| v.as_str()).unwrap(),
        read.get("email").and_then(|v| v.as_str()).unwrap(),
    );
    let written: serde_json::Value = serde_json::from_str(&serialize_user(&u)).unwrap();
    assert_eq!(written.get("name"), read.get("name"));
    assert_eq!(written.get("email"), read.get("email"));
    assert_eq!(written.get("id"), Some(&serde_json::Value::Null));
}

#[test]
fn written_list_reads_back() {
    let users = vec![user(Some(1), "a,b", "]"), user(Some(2), "[", "},{")];
    let value: serde_json::Value = serde_json::from_str(&serialize_users(&users)).unwrap();
    let items = value.as_array().unwrap();
    assert_eq!(items.len(), 2);
    assert_eq!(items[0].get("name").and_then(|v| v.as_str()), Some("a,b"));
    assert_eq!(items[1].get("email").and_then(|v| v.as_str()), Some("},{"));
}

#[test]
fn written_user_sent_as_a_body_reads_back() {
    let samples = [
        user(Some(7), "Ann", "ann@x.com"),
        user(None, "quote \" backslash \\", "\r\n\r\n"),
        user(Some(-1), "\u{e9}\u{4e2d}\u{1f600}", "tab\there"),
    ];
    for u in samples.iter() {
        let text = serialize_user(u);
        let request = format!("POST /users HTTP/1.1\r\nHost: x\r\n\r\n{}", text);
        let body = request_body(&request).unwrap();
        assert_eq!(body, text);
        let value: serde_json::Value = serde_json::from_str(body).unwrap();
        assert_eq!(value.get("name").and_then(|v| v.as_str()), Some(u.name.as_str()));
        assert_eq!(value.get("email").and_then(|v| v.as_str()), Some(u.email.as_str()));
        assert_eq!(value.get("id").and_then(|v| v.as_i64()), u.id.map(|n| n as i64));
    }
}

#[test]
fn body_after_a_head_that_ends_with_a_line_break() {
    let text = serialize_user(&user(Some(7), "Ann", "ann@x.com"));
    let request = format!("POST /users HTTP/1.1\r\n\r\n\r\n{}", text);
    assert_eq!(request_body(&request), Ok(format!("\r\n{}", text).as_str()));
}
