use vstd::prelude::*;
use crate::response::{status_line_of, ResponseView, Status};
use crate::route::{route_of, starts_with, Route};
use crate::service::{
    id_of, plan_of, response_of, user_not_found, Answer, PlanView, QueryView,
};
use crate::user::{user_json, users_json, UserView};

verus! {

/// The users table as plain values: each id with its name and email.
pub type Table = Map<i32, (Seq<char>, Seq<char>)>;

/// The stored row of `id` as a user.
pub open spec fn stored_user(t: Table, id: i32) -> UserView {
    UserView { id: Some(id), name: t[id].0, email: t[id].1 }
}

/// What the store answers to a query on table `t`; `fresh` is the id that it gives a
/// new row. A listing comes in no set order: it is some listing of the rows.
pub open spec fn store_answer(t: Table, q: QueryView, fresh: i32) -> Answer {
    match q {
        QueryView::Insert { name, email } => Answer::Row(
            UserView { id: Some(fresh), name, email },
        ),
        QueryView::SelectOne { id } => if t.contains_key(id) {
            Answer::Row(stored_user(t, id))
        } else {
            Answer::NoRow
        },
        QueryView::SelectAll => Answer::Rows(choose|us: Seq<UserView>| is_listing(t, us)),
        QueryView::Update { id, .. } => Answer::Affected(if t.contains_key(id) { 1 } else { 0 }),
        QueryView::Delete { id } => Answer::Affected(if t.contains_key(id) { 1 } else { 0 }),
    }
}

/// The table after a query ran on `t`; `fresh` is the id that it gives a new row.
pub open spec fn store_after(t: Table, q: QueryView, fresh: i32) -> Table {
    match q {
        QueryView::Insert { name, email } => t.insert(fresh, (name, email)),
        QueryView::Update { id, name, email } => if t.contains_key(id) {
            t.insert(id, (name, email))
        } else {
            t
        },
        QueryView::Delete { id } => t.remove(id),
        _ => t,
    }
}

/// The response to reading `id` from table `t`.
pub open spec fn read_response(t: Table, id: i32) -> ResponseView {
    response_of(QueryView::SelectOne { id }, store_answer(t, QueryView::SelectOne { id }, id))
}

/// `us` lists the rows of `t`, each once, in any order.
pub open spec fn is_listing(t: Table, us: Seq<UserView>) -> bool {
    &&& forall|j: int|
        0 <= j < us.len() ==> (#[trigger] us[j]).id is Some && t.contains_key(us[j].id->0)
            && us[j] == stored_user(t, us[j].id->0)
    &&& forall|i: int, j: int|
        0 <= i < us.len() && 0 <= j < us.len() && i != j ==> #[trigger] us[i].id
            != #[trigger] us[j].id
    &&& forall|k: i32| #[trigger]
        t.contains_key(k) ==> exists|j: int| 0 <= j < us.len() && us[j].id == Some(k)
}

/// The table that a run of creations on an empty table leaves, each row with the id
/// that the store gave it.
pub open spec fn created(rows: Seq<(i32, Seq<char>, Seq<char>)>) -> Table
    decreases rows.len(),
{
    if rows.len() == 0 {
        Map::empty()
    } else {
        let r = rows.last();
        store_after(created(rows.drop_last()), QueryView::Insert { name: r.1, email: r.2 }, r.0)
    }
}

/// A created row as a user.
pub open spec fn row_user(r: (i32, Seq<char>, Seq<char>)) -> UserView {
    UserView { id: Some(r.0), name: r.1, email: r.2 }
}

pub open spec fn distinct_ids(rows: Seq<(i32, Seq<char>, Seq<char>)>) -> bool {
    forall|i: int, j: int|
        0 <= i < rows.len() && 0 <= j < rows.len() && i != j ==> #[trigger] rows[i].0
            != #[trigger] rows[j].0
}

/// Creating a user answers with the stored user, its id given, and reading that id
/// right after answers with the very same object.
pub proof fn law_create_then_read(t: Table, name: Seq<char>, email: Seq<char>, fresh: i32)
    requires
        !t.contains_key(fresh),
    ensures
        ({
            let q = QueryView::Insert { name, email };
            let created = response_of(q, store_answer(t, q, fresh));
            &&& created == (Status::Success, user_json(UserView { id: Some(fresh), name, email }))
            &&& read_response(store_after(t, q, fresh), fresh) == created
        }),
{
    let t2 = t.insert(fresh, (name, email));
    assert(t2.contains_key(fresh));
    assert(t2[fresh] == (name, email));
}

/// A read request whose path names an id that the table lacks runs a read of that id
/// and gets the not-found response.
pub proof fn law_read_missing(t: Table, request: Seq<char>, body: Option<UserView>, id: i32)
    requires
        route_of(request) == Route::ReadUser,
        id_of(request) == Some(id),
        !t.contains_key(id),
    ensures
        plan_of(request, body) == PlanView::Run(QueryView::SelectOne { id }),
        read_response(t, id) == user_not_found(),
{
}

proof fn lemma_created(rows: Seq<(i32, Seq<char>, Seq<char>)>)
    requires
        distinct_ids(rows),
    ensures
        created(rows).dom().finite(),
        created(rows).dom().len() == rows.len(),
        forall|i: int|
            0 <= i < rows.len() ==> #[trigger] created(rows).contains_key(rows[i].0)
                && created(rows)[rows[i].0] == (rows[i].1, rows[i].2),
        forall|k: i32|
            #[trigger] created(rows).contains_key(k) ==> exists|i: int|
                0 <= i < rows.len() && rows[i].0 == k,
    decreases rows.len(),
{
    if rows.len() > 0 {
        let p = rows.drop_last();
        let r = rows.last();
        assert forall|i: int, j: int|
            0 <= i < p.len() && 0 <= j < p.len() && i != j implies #[trigger] p[i].0
            != #[trigger] p[j].0 by {
            assert(rows[i].0 != rows[j].0);
        }
        lemma_created(p);
        let t = created(p);
        if t.contains_key(r.0) {
            let i = choose|i: int| 0 <= i < p.len() && p[i].0 == r.0;
            assert(rows[i].0 == rows[rows.len() - 1].0);
        }
        assert(created(rows) == t.insert(r.0, (r.1, r.2)));
        assert(created(rows).dom() == t.dom().insert(r.0));
        assert forall|i: int| 0 <= i < rows.len() implies #[trigger] created(rows).contains_key(
            rows[i].0,
        ) && created(rows)[rows[i].0] == (rows[i].1, rows[i].2) by {
            if i < rows.len() - 1 {
                assert(rows[i] == p[i]);
                assert(rows[i].0 != rows[rows.len() - 1].0);
            }
        }
        assert forall|k: i32| #[trigger] created(rows).contains_key(k) implies exists|i: int|
            0 <= i < rows.len() && rows[i].0 == k by {
            if k == r.0 {
                assert(rows[rows.len() - 1].0 == k);
            } else {
                let i = choose|i: int| 0 <= i < p.len() && p[i].0 == k;
                assert(rows[i] == p[i]);
            }
        }
    }
}

/// Listing after a run of creations on an empty table gives a JSON array of exactly
/// as many users, holding every created user with its id, in whatever order the
/// store lists them.
pub proof fn law_list_after_creates(rows: Seq<(i32, Seq<char>, Seq<char>)>, us: Seq<UserView>)
    requires
        distinct_ids(rows),
        is_listing(created(rows), us),
    ensures
        response_of(QueryView::SelectAll, Answer::Rows(us)) == (Status::Success, users_json(us)),
        us.len() == rows.len(),
        forall|i: int| 0 <= i < rows.len() ==> us.contains(row_user(#[trigger] rows[i])),
{
    let t = created(rows);
    lemma_created(rows);
    let ids = us.map_values(|u: UserView| u.id->0);
    assert forall|i: int, j: int|
        0 <= i < ids.len() && 0 <= j < ids.len() && i != j implies ids[i] != ids[j] by {
        assert(us[i].id != us[j].id);
        assert(us[i].id is Some && us[j].id is Some);
    }
    assert(ids.no_duplicates());
    ids.unique_seq_to_set();
    assert forall|k: i32| ids.to_set().contains(k) <==> t.dom().contains(k) by {
        if ids.to_set().contains(k) {
            let j = choose|j: int| 0 <= j < ids.len() && ids[j] == k;
            assert(us[j].id is Some);
        }
        if t.contains_key(k) {
            let j = choose|j: int| 0 <= j < us.len() && us[j].id == Some(k);
            assert(ids[j] == k);
            assert(ids.contains(k));
        }
    }
    assert(ids.to_set() =~= t.dom());
    assert forall|i: int| 0 <= i < rows.len() implies us.contains(row_user(#[trigger] rows[i])) by {
        assert(t.contains_key(rows[i].0));
        let j = choose|j: int| 0 <= j < us.len() && us[j].id == Some(rows[i].0);
        assert(us[j] == stored_user(t, rows[i].0));
        assert(us[j] == row_user(rows[i]));
    }
}

/// Updating a stored id answers with the literal success text, and a read after it
/// shows the new name and email.
pub proof fn law_update_existing(t: Table, id: i32, name: Seq<char>, email: Seq<char>, fresh: i32)
    requires
        t.contains_key(id),
    ensures
        ({
            let q = QueryView::Update { id, name, email };
            &&& response_of(q, store_answer(t, q, fresh)) == (Status::Success, "User updated"@)
            &&& read_response(store_after(t, q, fresh), id) == (
            Status::Success,
            user_json(UserView { id: Some(id), name, email }),
            )
        }),
{
    let t2 = t.insert(id, (name, email));
    assert(t2.contains_key(id));
    assert(t2[id] == (name, email));
}

/// Updating an id that the table lacks still answers with the literal success text,
/// and leaves the table as it was.
pub proof fn law_update_missing(t: Table, id: i32, name: Seq<char>, email: Seq<char>, fresh: i32)
    requires
        !t.contains_key(id),
    ensures
        ({
            let q = QueryView::Update { id, name, email };
            &&& response_of(q, store_answer(t, q, fresh)) == (Status::Success, "User updated"@)
            &&& store_after(t, q, fresh) == t
        }),
{
}

/// Deleting a stored id answers with the literal success text and a read after it
/// finds nothing; deleting an id that the table lacks gives the not-found response.
pub proof fn law_delete(t: Table, id: i32, fresh: i32)
    ensures
        ({
            let q = QueryView::Delete { id };
            &&& t.contains_key(id) ==> response_of(q, store_answer(t, q, fresh)) == (
            Status::Success,
            "User deleted"@,
            )
            &&& t.contains_key(id) ==> read_response(store_after(t, q, fresh), id)
                == user_not_found()
            &&& !t.contains_key(id) ==> response_of(q, store_answer(t, q, fresh))
                == user_not_found()
        }),
{
}

/// A preflight request, to any path, is answered at once with the success template,
/// whose head carries the CORS headers, and an empty body.
pub proof fn law_preflight(request: Seq<char>, body: Option<UserView>)
    requires
        starts_with(request, "OPTIONS"@),
    ensures
        plan_of(request, body) == PlanView::Respond((Status::Success, Seq::<char>::empty())),
        starts_with(status_line_of(Status::Success), "HTTP/1.1 200 OK\r\n"@),
{
    reveal_strlit("HTTP/1.1 200 OK\r\n");
    reveal_strlit("HTTP/1.1 200 OK\r\nContent-Type: application/json\r\nAccess-Control-Allow-Origin: *\r\nAccess-Control-Allow-Methods: GET, POST, PUT, DELETE\r\nAccess-Control-Allow-Headers: Content-Type\r\n\r\n");
    assert(status_line_of(Status::Success).take(17) =~= "HTTP/1.1 200 OK\r\n"@);
}

/// A request that no route matches gets the not-found template with the body
/// `404 not found`.
pub proof fn law_unknown_route(request: Seq<char>, body: Option<UserView>)
    requires
        route_of(request) == Route::Unknown,
    ensures
        plan_of(request, body) == PlanView::Respond((Status::NotFound, "404 not found"@)),
{
}

/// A read request runs a read, which leaves the table as it was, so the same request
/// twice, with no write between, gives the same response, byte for byte.
pub proof fn law_read_repeatable(t: Table, request: Seq<char>, body: Option<UserView>, id: i32, fresh: i32)
    requires
        route_of(request) == Route::ReadUser,
        id_of(request) == Some(id),
    ensures
        plan_of(request, body) == PlanView::Run(QueryView::SelectOne { id }),
        store_after(t, QueryView::SelectOne { id }, fresh) == t,
        read_response(store_after(t, QueryView::SelectOne { id }, fresh), id) == read_response(t, id),
{
}

} // verus!
