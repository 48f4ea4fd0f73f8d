use vstd::prelude::*;
use vstd::string::StrSliceExecFns;
use crate::request::chars_of;

verus! {

/// Which handler a request goes to.
#[derive(Clone, Copy, Debug, PartialEq, Eq, Structural)]
pub enum Route {
    /// A CORS preflight: answered at once with an empty success.
    Preflight,
    CreateUser,
    ReadUser,
    ListUsers,
    UpdateUser,
    DeleteUser,
    /// Nothing matched.
    Unknown,
}

pub open spec fn starts_with(s: Seq<char>, p: Seq<char>) -> bool {
    p.len() <= s.len() && s.take(p.len() as int) == p
}

/// The route of a request, the first of these patterns that its text starts with.
pub open spec fn route_of(request: Seq<char>) -> Route {
    if starts_with(request, "OPTIONS"@) {
        Route::Preflight
    } else if starts_with(request, "POST /api/rust/users"@) {
        Route::CreateUser
    } else if starts_with(request, "GET /api/rust/users/"@) {
        Route::ReadUser
    } else if starts_with(request, "GET /api/rust/users"@) {
        Route::ListUsers
    } else if starts_with(request, "PUT /api/rust/users/"@) {
        Route::UpdateUser
    } else if starts_with(request, "DELETE /api/rust/users/"@) {
        Route::DeleteUser
    } else {
        Route::Unknown
    }
}

fn has_prefix(s: &Vec<char>, p: &str) -> (r: bool)
    ensures
        r == starts_with(s@, p@),
{
    let n = p.unicode_len();
    if n > s.len() {
        return false;
    }
    let mut i: usize = 0;
    while i < n
        invariant
            n == p@.len(),
            n <= s@.len(),
            i <= n,
            forall|j: int| 0 <= j < i ==> s@[j] == p@[j],
        decreases n - i,
    {
        if s[i] != p.get_char(i) {
            assert(s@.take(n as int)[i as int] != p@[i as int]);
            return false;
        }
        i = i + 1;
    }
    assert(s@.take(n as int) =~= p@);
    true
}

/// Picks the handler for a request by the start of its text; earlier patterns win,
/// so an id path is read as one item before the collection.
pub fn route(request: &str) -> (r: Route)
    ensures
        r == route_of(request@),
{
    let s = chars_of(request);
    if has_prefix(&s, "OPTIONS") {
        Route::Preflight
    } else if has_prefix(&s, "POST /api/rust/users") {
        Route::CreateUser
    } else if has_prefix(&s, "GET /api/rust/users/") {
        Route::ReadUser
    } else if has_prefix(&s, "GET /api/rust/users") {
        Route::ListUsers
    } else if has_prefix(&s, "PUT /api/rust/users/") {
        Route::UpdateUser
    } else if has_prefix(&s, "DELETE /api/rust/users/") {
        Route::DeleteUser
    } else {
        Route::Unknown
    }
}

} // verus!
