use vstd::prelude::*;
use vstd::string::StringExecFns;
use crate::json::{decimal_of, json_quote, json_string_of, push_decimal};

verus! {

/// The one stored entity. `id` is given by the store and absent before creation.
#[derive(Clone, Debug, PartialEq, Eq)]
pub struct User {
    pub id: Option<i32>,
    pub name: String,
    pub email: String,
}

/// A user as plain values.
pub struct UserView {
    pub id: Option<i32>,
    pub name: Seq<char>,
    pub email: Seq<char>,
}

impl View for User {
    type V = UserView;

    open spec fn view(&self) -> UserView {
        UserView { id: self.id, name: self.name@, email: self.email@ }
    }
}

/// The JSON of an id: the integer, or `null` when absent.
pub open spec fn id_json(id: Option<i32>) -> Seq<char> {
    match id {
        Some(n) => decimal_of(n as int),
        None => "null"@,
    }
}

/// A JSON object with the fields `id`, `name`, `email` in that order and no white
/// space, the name and email given already written as JSON strings.
pub open spec fn user_object(id: Option<i32>, name_json: Seq<char>, email_json: Seq<char>) -> Seq<
    char,
> {
    "{\"id\":"@ + id_json(id) + ",\"name\":"@ + name_json + ",\"email\":"@ + email_json + "}"@
}

/// The JSON object of a user.
pub open spec fn user_json(u: UserView) -> Seq<char> {
    user_object(u.id, json_string_of(u.name), json_string_of(u.email))
}

fn push_object(out: &mut String, id: Option<i32>, name_json: &str, email_json: &str)
    ensures
        final(out)@ == old(out)@ + user_object(id, name_json@, email_json@),
{
    out.append("{\"id\":");
    match id {
        Some(n) => push_decimal(out, n),
        None => out.append("null"),
    }
    out.append(",\"name\":");
    out.append(name_json);
    out.append(",\"email\":");
    out.append(email_json);
    out.append("}");
    assert(out@ =~= old(out)@ + user_object(id, name_json@, email_json@));
}

/// The JSON object of a user from its id and its name and email already written as
/// JSON strings.
pub fn user_object_json(id: Option<i32>, name_json: &str, email_json: &str) -> (r: String)
    ensures
        r@ == user_object(id, name_json@, email_json@),
{
    let mut out = String::new();
    push_object(&mut out, id, name_json, email_json);
    assert(out@ =~= user_object(id, name_json@, email_json@));
    out
}

/// The items separated by commas.
pub open spec fn joined(items: Seq<Seq<char>>) -> Seq<char>
    decreases items.len(),
{
    if items.len() == 0 {
        Seq::empty()
    } else if items.len() == 1 {
        items[0]
    } else {
        joined(items.drop_last()) + ","@ + items.last()
    }
}

/// A JSON array of items already written as JSON.
pub open spec fn array_json(items: Seq<Seq<char>>) -> Seq<char> {
    "["@ + joined(items) + "]"@
}

/// The JSON array of users.
pub open spec fn users_json(us: Seq<UserView>) -> Seq<char> {
    array_json(us.map_values(|u: UserView| user_json(u)))
}

pub open spec fn texts(items: Seq<String>) -> Seq<Seq<char>> {
    items.map_values(|s: String| s@)
}

pub open spec fn views(us: Seq<User>) -> Seq<UserView> {
    us.map_values(|u: User| u@)
}

impl User {
    pub fn new(id: Option<i32>, name: String, email: String) -> (r: User)
        ensures
            r.id == id,
            r.name == name,
            r.email == email,
    {
        User { id, name, email }
    }

    fn push_json(&self, out: &mut String)
        ensures
            final(out)@ == old(out)@ + user_json(self@),
    {
        let name_json = json_quote(self.name.as_str());
        let email_json = json_quote(self.email.as_str());
        push_object(out, self.id, name_json.as_str(), email_json.as_str());
    }

    /// This user as a JSON object.
    pub fn to_json(&self) -> (r: String)
        ensures
            r@ == user_json(self@),
    {
        let mut out = String::new();
        self.push_json(&mut out);
        assert(out@ =~= user_json(self@));
        out
    }
}

/// A JSON array of items already written as JSON, in the order given.
pub fn json_array(items: &Vec<String>) -> (r: String)
    ensures
        r@ == array_json(texts(items@)),
{
    let mut out = String::new();
    out.append("[");
    let ghost ts = texts(items@);
    let mut i: usize = 0;
    while i < items.len()
        invariant
            i <= items@.len(),
            ts == texts(items@),
            out@ == "["@ + joined(ts.take(i as int)),
        decreases items@.len() - i,
    {
        if i > 0 {
            out.append(",");
        }
        out.append(items[i].as_str());
        proof {
            let t = ts.take(i + 1);
            assert(t.drop_last() =~= ts.take(i as int));
            assert(t.last() == items@[i as int]@);
            if i == 0 {
                assert(ts.take(0) =~= Seq::<Seq<char>>::empty());
            }
            assert(out@ =~= "["@ + joined(t));
        }
        i = i + 1;
    }
    out.append("]");
    assert(ts.take(items@.len() as int) =~= ts);
    out
}

/// A list of users as a JSON array, in the order given.
pub fn users_to_json(users: &Vec<User>) -> (r: String)
    ensures
        r@ == users_json(views(users@)),
{
    let mut objects: Vec<String> = Vec::new();
    let mut i: usize = 0;
    while i < users.len()
        invariant
            i <= users@.len(),
            objects@.len() == i,
            forall|j: int| 0 <= j < i ==> (#[trigger] objects@[j])@ == user_json(users@[j]@),
        decreases users@.len() - i,
    {
        let o = users[i].to_json();
        objects.push(o);
        i = i + 1;
    }
    assert(texts(objects@) =~= views(users@).map_values(|u: UserView| user_json(u)));
    json_array(&objects)
}

} // verus!
