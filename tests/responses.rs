use backend::response::{Response, Status};
use backend::user::{json_array, user_object_json, users_to_json, User};

fn user(id: Option<i32>, name: &str, email: &str) -> User {
    User::new(id, name.to_string(), email.to_string())
}

#[test]
fn user_json_shape() {
    assert_eq!(
        user(Some(1), "Ann", "a@x.com").to_json(),
        "{\"id\":1,\"name\":\"Ann\",\"email\":\"a@x.com\"}"
    );
}

#[test]
fn user_json_null_id() {
    assert_eq!(user(None, "B", "b").to_json(), "{\"id\":null,\"name\":\"B\",\"email\":\"b\"}");
}

#[test]
fn user_json_negative_and_extreme_ids() {
    assert_eq!(user(Some(-45), "", "").to_json(), "{\"id\":-45,\"name\":\"\",\"email\":\"\"}");
    assert_eq!(
        user(Some(i32::MIN), "", "").to_json(),
        "{\"id\":-2147483648,\"name\":\"\",\"email\":\"\"}"
    );
    assert_eq!(
        user(Some(i32::MAX), "", "").to_json(),
        "{\"id\":2147483647,\"name\":\"\",\"email\":\"\"}"
    );
    assert_eq!(user(Some(0), "", "").to_json(), "{\"id\":0,\"name\":\"\",\"email\":\"\"}");
}

#[test]
fn user_json_escapes_strings() {
    assert_eq!(
        user(Some(3), "A \"q\"", "back\\slash\n").to_json(),
        "{\"id\":3,\"name\":\"A \\\"q\\\"\",\"email\":\"back\\\\slash\\n\"}"
    );
}

#[test]
fn users_json_empty() {
    assert_eq!(users_to_json(&vec![]), "[]");
}

#[test]
fn users_json_several() {
    let us = vec![user(Some(1), "Ann", "a@x.com"), user(Some(2), "Bo", "b@x.com")];
    assert_eq!(
        users_to_json(&us),
        "[{\"id\":1,\"name\":\"Ann\",\"email\":\"a@x.com\"},{\"id\":2,\"name\":\"Bo\",\"email\":\"b@x.com\"}]"
    );
}

#[test]
fn success_template_has_cors_headers() {
    let r = Response::with_text(Status::Success, "x");
    assert_eq!(
        r.to_text(),
        "HTTP/1.1 200 OK\r\nContent-Type: application/json\r\nAccess-Control-Allow-Origin: *\r\nAccess-Control-Allow-Methods: GET, POST, PUT, DELETE\r\nAccess-Control-Allow-Headers: Content-Type\r\n\r\nx"
    );
}

#[test]
fn error_templates_have_no_headers() {
    assert_eq!(
        Response::with_text(Status::NotFound, "User not found").to_text(),
        "HTTP/1.1 404 NOT FOUND\r\n\r\nUser not found"
    );
    assert_eq!(
        Response::with_text(Status::InternalError, "Internal error").to_text(),
        "HTTP/1.1 500 INTERNAL ERROR\r\n\r\nInternal error"
    );
    assert!(!Status::NotFound.status_line().contains("Access-Control"));
    assert!(!Status::InternalError.status_line().contains("Access-Control"));
}

#[test]
fn object_from_written_strings() {
    assert_eq!(
        user_object_json(Some(12), "\"n\"", "\"e\""),
        "{\"id\":12,\"name\":\"n\",\"email\":\"e\"}"
    );
    assert_eq!(
        user_object_json(None, "N", "E"),
        "{\"id\":null,\"name\":N,\"email\":E}"
    );
}

#[test]
fn array_of_written_items() {
    assert_eq!(json_array(&vec![]), "[]");
    assert_eq!(json_array(&vec!["1".to_string()]), "[1]");
    assert_eq!(json_array(&vec!["1".to_string(), "{}".to_string(), "x".to_string()]), "[1,{},x]");
}

#[test]
fn user_json_reads_back_as_json() {
    let u = user(Some(5), "Zoë \u{1F600} \t", "e\u{1}");
    let v: serde_json::Value = serde_json::from_str(&u.to_json()).unwrap();
    assert_eq!(v["id"], 5);
    assert_eq!(v["name"], "Zoë \u{1F600} \t");
    assert_eq!(v["email"], "e\u{1}");
}

#[test]
fn user_json_escapes_controls_by_table() {
    assert_eq!(
        user(None, "\u{1}\u{1f}\u{8}\u{c}\r\t", "a/b é").to_json(),
        "{\"id\":null,\"name\":\"\\u0001\\u001f\\b\\f\\r\\t\",\"email\":\"a/b é\"}"
    );
}
