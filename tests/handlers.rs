use backend::response::{Response, Status};
use backend::service::{plan, respond, Outcome, Plan, Query};
use backend::user::User;
use std::collections::BTreeMap;

/// A stand-in for the users table, answering queries as the database would.
struct Table {
    rows: BTreeMap<i32, (String, String)>,
    next: i32,
}

impl Table {
    fn new() -> Table {
        Table { rows: BTreeMap::new(), next: 1 }
    }

    fn run(&mut self, q: &Query) -> Outcome {
        match q {
            Query::Insert { name, email } => {
                let id = self.next;
                self.next += 1;
                self.rows.insert(id, (name.clone(), email.clone()));
                Outcome::Row(User::new(Some(id), name.clone(), email.clone()))
            }
            Query::SelectOne { id } => match self.rows.get(id) {
                Some((n, e)) => Outcome::Row(User::new(Some(*id), n.clone(), e.clone())),
                None => Outcome::NoRow,
            },
            Query::SelectAll => Outcome::Rows(
                self.rows
                    .iter()
                    .map(|(id, (n, e))| User::new(Some(*id), n.clone(), e.clone()))
                    .collect(),
            ),
            Query::Update { id, name, email } => match self.rows.get_mut(id) {
                Some(row) => {
                    *row = (name.clone(), email.clone());
                    Outcome::Affected(1)
                }
                None => Outcome::Affected(0),
            },
            Query::Delete { id } => match self.rows.remove(id) {
                Some(_) => Outcome::Affected(1),
                None => Outcome::Affected(0),
            },
        }
    }

    fn handle(&mut self, request: &str, body: Option<User>) -> Response {
        match plan(request, body) {
            Plan::Respond(r) => r,
            Plan::Run(q) => {
                let o = self.run(&q);
                respond(&q, o)
            }
        }
    }
}

fn body(name: &str, email: &str) -> Option<User> {
    Some(User::new(None, name.to_string(), email.to_string()))
}

fn text(status: Status, content: &str) -> Response {
    Response::with_text(status, content)
}

#[test]
fn create_then_read_same_object() {
    let mut t = Table::new();
    let created = t.handle("POST /api/rust/users HTTP/1.1\r\n\r\n{}", body("Ann", "a@x.com"));
    assert_eq!(created.status, Status::Success);
    assert_eq!(created.content, "{\"id\":1,\"name\":\"Ann\",\"email\":\"a@x.com\"}");
    let read = t.handle("GET /api/rust/users/1 HTTP/1.1\r\n\r\n", None);
    assert_eq!(read, created);
}

#[test]
fn read_missing_is_not_found() {
    let mut t = Table::new();
    let r = t.handle("GET /api/rust/users/99 HTTP/1.1\r\n\r\n", None);
    assert_eq!(r, text(Status::NotFound, "User not found"));
}

#[test]
fn list_after_creates() {
    let mut t = Table::new();
    assert_eq!(t.handle("GET /api/rust/users HTTP/1.1", None), text(Status::Success, "[]"));
    t.handle("POST /api/rust/users HTTP/1.1", body("Ann", "a@x.com"));
    t.handle("POST /api/rust/users HTTP/1.1", body("Bo", "b@x.com"));
    t.handle("POST /api/rust/users HTTP/1.1", body("Cy", "c@x.com"));
    let r = t.handle("GET /api/rust/users HTTP/1.1", None);
    assert_eq!(r.status, Status::Success);
    let v: serde_json::Value = serde_json::from_str(&r.content).unwrap();
    let items = v.as_array().unwrap();
    assert_eq!(items.len(), 3);
    for (name, email) in [("Ann", "a@x.com"), ("Bo", "b@x.com"), ("Cy", "c@x.com")] {
        assert!(items.iter().any(|u| u["name"] == name && u["email"] == email && u["id"].is_i64()));
    }
}

#[test]
fn update_existing_then_read() {
    let mut t = Table::new();
    t.handle("POST /api/rust/users HTTP/1.1", body("Ann", "a@x.com"));
    let r = t.handle("PUT /api/rust/users/1 HTTP/1.1", body("Anna", "anna@x.com"));
    assert_eq!(r, text(Status::Success, "User updated"));
    let read = t.handle("GET /api/rust/users/1 HTTP/1.1", None);
    assert_eq!(read.content, "{\"id\":1,\"name\":\"Anna\",\"email\":\"anna@x.com\"}");
}

#[test]
fn update_missing_still_reports_success() {
    let mut t = Table::new();
    let r = t.handle("PUT /api/rust/users/8 HTTP/1.1", body("X", "x@x"));
    assert_eq!(r, text(Status::Success, "User updated"));
    assert!(t.rows.is_empty());
}

#[test]
fn delete_existing_then_missing() {
    let mut t = Table::new();
    t.handle("POST /api/rust/users HTTP/1.1", body("Ann", "a@x.com"));
    let r = t.handle("DELETE /api/rust/users/1 HTTP/1.1", None);
    assert_eq!(r, text(Status::Success, "User deleted"));
    let read = t.handle("GET /api/rust/users/1 HTTP/1.1", None);
    assert_eq!(read, text(Status::NotFound, "User not found"));
    let again = t.handle("DELETE /api/rust/users/1 HTTP/1.1", None);
    assert_eq!(again, text(Status::NotFound, "User not found"));
}

#[test]
fn options_to_any_path() {
    for req in ["OPTIONS /api/rust/users HTTP/1.1", "OPTIONS /whatever HTTP/1.1", "OPTIONS"] {
        let r = plan(req, None);
        assert_eq!(r, Plan::Respond(text(Status::Success, "")));
        if let Plan::Respond(resp) = r {
            let out = resp.to_text();
            assert!(out.starts_with("HTTP/1.1 200 OK\r\n"));
            assert!(out.contains("Access-Control-Allow-Origin: *"));
            assert!(out.ends_with("\r\n\r\n"));
        }
    }
}

#[test]
fn unknown_route_not_found() {
    let r = plan("PATCH /api/rust/users/1 HTTP/1.1", None);
    assert_eq!(r, Plan::Respond(text(Status::NotFound, "404 not found")));
    if let Plan::Respond(resp) = r {
        assert_eq!(resp.to_text(), "HTTP/1.1 404 NOT FOUND\r\n\r\n404 not found");
    }
}

#[test]
fn repeated_read_is_identical() {
    let mut t = Table::new();
    t.handle("POST /api/rust/users HTTP/1.1", body("Ann", "a@x.com"));
    let a = t.handle("GET /api/rust/users/1 HTTP/1.1", None).to_text();
    let b = t.handle("GET /api/rust/users/1 HTTP/1.1", None).to_text();
    assert_eq!(a, b);
}

#[test]
fn bad_id_is_internal_error() {
    let r = plan("GET /api/rust/users/abc HTTP/1.1", None);
    assert_eq!(r, Plan::Respond(text(Status::InternalError, "Internal error")));
    let r = plan("DELETE /api/rust/users/ HTTP/1.1", None);
    assert_eq!(r, Plan::Respond(text(Status::InternalError, "Internal error")));
    let r = plan("PUT /api/rust/users/x HTTP/1.1", body("a", "b"));
    assert_eq!(r, Plan::Respond(text(Status::InternalError, "Internal error")));
}

#[test]
fn bad_body_is_internal_error() {
    let r = plan("POST /api/rust/users HTTP/1.1\r\n\r\nnot json", None);
    assert_eq!(r, Plan::Respond(text(Status::InternalError, "Internal error")));
    let r = plan("PUT /api/rust/users/3 HTTP/1.1\r\n\r\nnot json", None);
    assert_eq!(r, Plan::Respond(text(Status::InternalError, "Internal error")));
}

#[test]
fn plans_queries() {
    assert_eq!(
        plan("POST /api/rust/users HTTP/1.1", body("Ann", "a@x.com")),
        Plan::Run(Query::Insert { name: "Ann".to_string(), email: "a@x.com".to_string() })
    );
    assert_eq!(plan("GET /api/rust/users/-4 HTTP/1.1", None), Plan::Run(Query::SelectOne { id: -4 }));
    assert_eq!(plan("GET /api/rust/users HTTP/1.1", None), Plan::Run(Query::SelectAll));
    assert_eq!(
        plan("PUT /api/rust/users/2 HTTP/1.1", body("N", "E")),
        Plan::Run(Query::Update { id: 2, name: "N".to_string(), email: "E".to_string() })
    );
    assert_eq!(plan("DELETE /api/rust/users/9 HTTP/1.1", None), Plan::Run(Query::Delete { id: 9 }));
}

#[test]
fn store_failures() {
    let q = Query::SelectAll;
    assert_eq!(respond(&q, Outcome::Unavailable), text(Status::InternalError, "Internal error"));
    assert_eq!(respond(&q, Outcome::Failed), text(Status::InternalError, "Internal error"));
    let ins = Query::Insert { name: "a".to_string(), email: "b".to_string() };
    assert_eq!(
        respond(&ins, Outcome::NoRow),
        text(Status::InternalError, "Failed to retrieve user")
    );
    assert_eq!(respond(&ins, Outcome::Failed), text(Status::InternalError, "Internal error"));
    let one = Query::SelectOne { id: 1 };
    assert_eq!(respond(&one, Outcome::Failed), text(Status::InternalError, "Internal error"));
    assert_eq!(respond(&one, Outcome::Affected(1)), text(Status::InternalError, "Internal error"));
    let del = Query::Delete { id: 1 };
    assert_eq!(respond(&del, Outcome::Affected(2)), text(Status::Success, "User deleted"));
    assert_eq!(respond(&del, Outcome::Failed), text(Status::InternalError, "Internal error"));
    let upd = Query::Update { id: 1, name: "a".to_string(), email: "b".to_string() };
    assert_eq!(respond(&upd, Outcome::Unavailable), text(Status::InternalError, "Internal error"));
}

#[test]
fn id_beyond_path_is_internal_error() {
    let r = plan("GET /api/rust/users/ 5 HTTP/1.1", None);
    assert_eq!(r, Plan::Respond(text(Status::InternalError, "Internal error")));
}
