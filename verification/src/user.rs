//! The user record and its JSON text.

use vstd::prelude::*;
use vstd::string::StringExecFns;

verus! {

/// One row of the users table. The store assigns `id`; a user that has not
/// been stored yet has none.
#[derive(Debug, PartialEq, Eq)]
pub struct User {
    pub id: Option<i32>,
    pub name: String,
    pub email: String,
}

/// A user as contracts see it.
pub struct UserView {
    pub id: Option<i32>,
    pub name: Seq<char>,
    pub email: Seq<char>,
}

impl View for User {
    type V = UserView;

    open spec fn view(&self) -> UserView {
        UserView { id: self.id, name: self.name@, email: self.email@ }
    }
}

/// The views of `users`, in order.
pub open spec fn views_of(users: Seq<User>) -> Seq<UserView> {
    users.map_values(|user: User| user@)
}

/// The JSON string literal that `serde_json` writes for `value`: the text in
/// double quotes, with its escapes.
pub uninterp spec fn json_string(value: Seq<char>) -> Seq<char>;

/// The decimal digits of `n`, without leading zeros.
pub open spec fn digits_of(n: nat) -> Seq<char>
    decreases n,
{
    if n < 10 {
        seq![(0x30 + n) as u8 as char]
    } else {
        digits_of(n / 10).push((0x30 + n % 10) as u8 as char)
    }
}

/// `n` in decimal, with a `-` before the digits of a negative number.
pub open spec fn integer_text(n: int) -> Seq<char> {
    if n < 0 {
        seq!['-'] + digits_of((-n) as nat)
    } else {
        digits_of(n as nat)
    }
}

/// The JSON text of an id: the number in decimal, or `null` where there is
/// none.
pub open spec fn json_id(id: Option<i32>) -> Seq<char> {
    match id {
        Some(n) => integer_text(n as int),
        None => "null"@,
    }
}

/// Calls `serde_json::to_string` on a string slice. Writing a string into a
/// byte vector cannot fail, so there is always a text, and it depends on
/// `value` alone.
#[verifier::external_body]
fn encode_string(value: &str) -> (r: Option<String>)
    ensures
        r.is_some(),
        r.unwrap()@ == json_string(value@),
{
    serde_json::to_string(value).ok()
}

/// Calls `serde_json::to_string` on an optional 32-bit integer. It writes
/// `null` for `None` and the number in decimal for `Some`, and writing into a
/// byte vector cannot fail, so there is always a text.
#[verifier::external_body]
fn encode_id(id: Option<i32>) -> (r: Option<String>)
    ensures
        r.is_some(),
        r.unwrap()@ == json_id(id),
{
    serde_json::to_string(&id).ok()
}

/// A JSON object with the three members of a user, given the JSON text of
/// each value.
pub open spec fn object_text(id: Seq<char>, name: Seq<char>, email: Seq<char>) -> Seq<char> {
    "{\"id\":"@ + id + ",\"name\":"@ + name + ",\"email\":"@ + email + "}"@
}

/// The JSON text of a user.
pub open spec fn user_json(user: UserView) -> Seq<char> {
    object_text(json_id(user.id), json_string(user.name), json_string(user.email))
}

/// `items` with a comma between each two.
pub open spec fn joined(items: Seq<Seq<char>>) -> Seq<char>
    decreases items.len(),
{
    if items.len() == 0 {
        Seq::empty()
    } else if items.len() == 1 {
        items[0]
    } else {
        joined(items.drop_last()) + ","@ + items.last()
    }
}

/// A JSON array, given the JSON text of each element.
pub open spec fn array_text(items: Seq<Seq<char>>) -> Seq<char> {
    "["@ + joined(items) + "]"@
}

/// The JSON text of a list of users.
pub open spec fn users_json(users: Seq<UserView>) -> Seq<char> {
    array_text(users.map_values(|user: UserView| user_json(user)))
}

/// Writes a user object around the JSON text of its three values.
pub fn user_object(id: &str, name: &str, email: &str) -> (text: String)
    ensures
        text@ == object_text(id@, name@, email@),
{
    let mut text = String::from_str("{\"id\":");
    text.append(id);
    text.append(",\"name\":");
    text.append(name);
    text.append(",\"email\":");
    text.append(email);
    text.append("}");
    text
}

/// Writes a JSON array around the JSON text of its elements.
pub fn json_array(items: &Vec<String>) -> (text: String)
    ensures
        text@ == array_text(items@.map_values(|item: String| item@)),
{
    let ghost texts = items@.map_values(|item: String| item@);
    let mut text = String::from_str("[");
    let mut i: usize = 0;
    while i < items.len()
        invariant
            i <= items@.len(),
            texts == items@.map_values(|item: String| item@),
            text@ == "["@ + joined(texts.take(i as int)),
        decreases items@.len() - i,
    {
        proof {
            assert(texts.take(i + 1).drop_last() =~= texts.take(i as int));
            assert(texts.take(i + 1).last() == items@[i as int]@);
        }
        if i > 0 {
            text.append(",");
        }
        text.append(items[i].as_str());
        i = i + 1;
    }
    assert(texts.take(i as int) =~= texts);
    text.append("]");
    text
}

/// Writes a user as JSON.
pub fn serialize_user(user: &User) -> (text: String)
    ensures
        text@ == user_json(user@),
{
    let id = encode_id(user.id).unwrap();
    let name = encode_string(user.name.as_str()).unwrap();
    let email = encode_string(user.email.as_str()).unwrap();
    user_object(id.as_str(), name.as_str(), email.as_str())
}

/// Writes a list of users as JSON.
pub fn serialize_users(users: &Vec<User>) -> (text: String)
    ensures
        text@ == users_json(views_of(users@)),
{
    let mut items: Vec<String> = Vec::new();
    let mut i: usize = 0;
    while i < users.len()
        invariant
            i <= users@.len(),
            items@.len() == i,
            forall|j: int| 0 <= j < i ==> (#[trigger] items@[j])@ == user_json(users@[j]@),
        decreases users@.len() - i,
    {
        items.push(serialize_user(&users[i]));
        i = i + 1;
    }
    assert(items@.map_values(|item: String| item@) =~= views_of(users@).map_values(
        |user: UserView| user_json(user),
    ));
    json_array(&items)
}

} // verus!
