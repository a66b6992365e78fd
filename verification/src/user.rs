//! The user record and its JSON text.

use crate::number::{decimal_string, decimal_text};
use vstd::prelude::*;

verus! {

/// A user as the service exchanges it.  A record that has not been stored yet
/// has no `id`: the store assigns it.
#[derive(Clone, Debug, PartialEq, Eq)]
pub struct User {
    pub id: Option<i32>,
    pub name: String,
    pub email: String,
}

/// What a `User` holds, as plain mathematics.
pub struct UserView {
    pub id: Option<i32>,
    pub name: Seq<char>,
    pub email: Seq<char>,
}

impl UserView {
    /// This user as the store holds it under `id`.
    pub open spec fn with_id(self, id: i32) -> UserView {
        UserView { id: Some(id), name: self.name, email: self.email }
    }
}

impl View for User {
    type V = UserView;

    open spec fn view(&self) -> UserView {
        UserView { id: self.id, name: self.name@, email: self.email@ }
    }
}

/// The view of a user that may not be there.
pub open spec fn option_view(user: Option<User>) -> Option<UserView> {
    match user {
        Some(user) => Some(user@),
        None => None,
    }
}

/// The views of a list of users, in the same order.
pub open spec fn user_views(users: Seq<User>) -> Seq<UserView> {
    users.map_values(|u: User| u@)
}

/// The lower-case hexadecimal digit of value `d`.
pub open spec fn hex_digit(d: int) -> char {
    if d < 10 {
        ('0' as int + d) as char
    } else {
        ('a' as int + d - 10) as char
    }
}

/// How one character stands inside a JSON string: the quotation mark and the
/// backslash behind a backslash, the control characters below U+0020 by their
/// short escape where JSON has one and as `\u00XX` otherwise, every other
/// character as it is.
pub open spec fn json_escape(c: char) -> Seq<char> {
    if c == '"' {
        seq!['\\', '"']
    } else if c == '\\' {
        seq!['\\', '\\']
    } else if c == '\u{8}' {
        seq!['\\', 'b']
    } else if c == '\t' {
        seq!['\\', 't']
    } else if c == '\n' {
        seq!['\\', 'n']
    } else if c == '\u{c}' {
        seq!['\\', 'f']
    } else if c == '\r' {
        seq!['\\', 'r']
    } else if (c as int) < 0x20 {
        seq!['\\', 'u', '0', '0', hex_digit((c as int) / 16), hex_digit((c as int) % 16)]
    } else {
        seq![c]
    }
}

/// The characters of `s`, each escaped for a JSON string.
pub open spec fn json_escaped(s: Seq<char>) -> Seq<char>
    decreases s.len(),
{
    if s.len() == 0 {
        Seq::empty()
    } else {
        json_escaped(s.drop_last()) + json_escape(s.last())
    }
}

/// `s` as a JSON string: escaped, between quotation marks.
pub open spec fn json_string(s: Seq<char>) -> Seq<char> {
    seq!['"'] + json_escaped(s) + seq!['"']
}

/// An identifier as JSON: the number in base ten, or `null`.
pub open spec fn json_id(id: Option<i32>) -> Seq<char> {
    match id {
        Some(v) => decimal_text(v as int),
        None => "null"@,
    }
}

/// A user as JSON: an object with the members `id`, `name` and `email`, in
/// that order and without white space.
pub open spec fn user_json(u: UserView) -> Seq<char> {
    "{\"id\":"@ + json_id(u.id) + ",\"name\":"@ + json_string(u.name) + ",\"email\":"@
        + json_string(u.email) + "}"@
}

/// The users as JSON objects with a comma between neighbours.
pub open spec fn user_list_items(users: Seq<UserView>) -> Seq<char>
    decreases users.len(),
{
    if users.len() == 0 {
        Seq::empty()
    } else if users.len() == 1 {
        user_json(users[0])
    } else {
        user_list_items(users.drop_last()) + ","@ + user_json(users.last())
    }
}

/// A list of users as JSON: an array of their objects, in order.
pub open spec fn user_list_json(users: Seq<UserView>) -> Seq<char> {
    "["@ + user_list_items(users) + "]"@
}

/// Calls `serde_json::to_string` on a string slice.  The contract is what that
/// function writes for a string: a quotation mark, the characters with the
/// escapes of `json_escape`, a quotation mark.  It cannot fail on a string:
/// the text goes to a buffer in memory and a string has no other way to be
/// refused.
#[verifier::external_body]
fn quote_json(s: &str) -> (out: String)
    ensures
        out@ == json_string(s@),
{
    serde_json::to_string(s).unwrap()
}

impl User {
    /// The JSON text of this user.
    pub fn to_json(&self) -> (out: String)
        ensures
            out@ == user_json(self@),
    {
        let mut out = String::from_str("{\"id\":");
        match self.id {
            Some(v) => {
                let number = decimal_string(v);
                out.append(number.as_str());
            },
            None => {
                out.append("null");
            },
        }
        out.append(",\"name\":");
        let name = quote_json(self.name.as_str());
        out.append(name.as_str());
        out.append(",\"email\":");
        let email = quote_json(self.email.as_str());
        out.append(email.as_str());
        out.append("}");
        out
    }
}

/// The JSON text of a list of users.
pub fn user_list_to_json(users: &Vec<User>) -> (out: String)
    ensures
        out@ == user_list_json(user_views(users@)),
{
    let ghost views = user_views(users@);
    let mut out = String::from_str("[");
    let mut i: usize = 0;
    while i < users.len()
        invariant
            i <= users.len(),
            views == user_views(users@),
            out@ == "["@ + user_list_items(views.take(i as int)),
        decreases users.len() - i,
    {
        let ghost before = views.take(i as int);
        let ghost after = views.take(i + 1);
        assert(after.drop_last() =~= before);
        assert(after.last() == users@[i as int]@);
        if i > 0 {
            out.append(",");
        }
        let item = users[i].to_json();
        out.append(item.as_str());
        assert(out@ =~= "["@ + user_list_items(after)) by {
            if i == 0 {
                assert(after[0] == after.last());
                assert(before =~= Seq::<UserView>::empty());
            }
        }
        i = i + 1;
    }
    assert(views.take(i as int) =~= views);
    out.append("]");
    out
}

} // verus!
