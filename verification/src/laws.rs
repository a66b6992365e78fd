//! What holds of the service as a whole, when the store behind it works.

use crate::handlers::{created_body, internal_server_error, outcome, plan, success,
    user_not_found, StepView};
use crate::number::{decimal_text, is_digit, nat_text, nat_text_is_digits, parse_of_decimal_text};
use crate::request::{body_of, path_id, request_line};
use crate::response::ResponseView;
use crate::route::{route_of, Route};
use crate::store::{answers, is_row, StoreCommandView, StoreReplyView, Table};
use crate::text::{absent_without_first_char, field, first_after_prefix_without_first_char,
    first_occurrence_meaning, last_occurrence, last_occurrence_meaning, occurs_at, starts_with};
use crate::user::{user_json, user_list_json, UserView};
use vstd::prelude::*;

verus! {

/// A request is served: with a store that works and holds `before`, the
/// client that sends `request`, whose body decodes to `decoded`, gets
/// `response`, and the store holds `after` then.
pub open spec fn serves(
    before: Table,
    request: Seq<char>,
    decoded: Option<UserView>,
    response: ResponseView,
    after: Table,
) -> bool {
    match plan(request, decoded) {
        StepView::Reply(reply) => response == reply && after == before,
        StepView::Ask(command) => exists|reply: StoreReplyView|
            #[trigger] answers(before, command, reply, after) && response == outcome(
                command,
                reply,
            ),
    }
}

/// The request line opens the request and holds no line terminator.
pub proof fn request_line_is_first_line(text: Seq<char>)
    ensures
        request_line(text).is_prefix_of(text),
        forall|i: int| !occurs_at(request_line(text), "\r\n"@, i),
{
    reveal_strlit("\r\n");
    first_occurrence_meaning(text, "\r\n"@);
    let line = request_line(text);
    assert forall|i: int| !occurs_at(line, "\r\n"@, i) by {
        if occurs_at(line, "\r\n"@, i) {
            assert(line.subrange(i, i + "\r\n"@.len()) =~= text.subrange(i, i + "\r\n"@.len()));
            assert(occurs_at(text, "\r\n"@, i));
        }
    }
}

/// The body closes the request.  Where the request holds a blank line, a
/// blank line stands right before the body, and none begins in the body or
/// reaches into it.
pub proof fn body_follows_last_blank_line(text: Seq<char>)
    ensures
        body_of(text).is_suffix_of(text),
        (exists|i: int| occurs_at(text, "\r\n\r\n"@, i)) ==> occurs_at(
            text,
            "\r\n\r\n"@,
            text.len() - body_of(text).len() - "\r\n\r\n"@.len(),
        ),
        forall|i: int|
            text.len() - body_of(text).len() - "\r\n\r\n"@.len() < i ==> !occurs_at(
                text,
                "\r\n\r\n"@,
                i,
            ),
{
    last_occurrence_meaning(text, "\r\n\r\n"@);
    match last_occurrence(text, "\r\n\r\n"@) {
        Some(i) => {
            assert(text =~= text.take(i + "\r\n\r\n"@.len()) + body_of(text));
        },
        None => {
            assert(text =~= text + body_of(text));
        },
    }
}

/// Every character of a number in base ten is a digit or the minus sign.
pub proof fn decimal_text_chars(n: int)
    ensures
        forall|i: int|
            0 <= i < decimal_text(n).len() ==> is_digit(#[trigger] decimal_text(n)[i])
                || decimal_text(n)[i] == '-',
{
    if n < 0 {
        nat_text_is_digits((-n) as nat);
        let digits = nat_text((-n) as nat);
        assert forall|i: int| 0 <= i < decimal_text(n).len() implies is_digit(
            #[trigger] decimal_text(n)[i],
        ) || decimal_text(n)[i] == '-' by {
            if i > 0 {
                assert(decimal_text(n)[i] == digits[i - 1]);
            }
        }
    } else {
        nat_text_is_digits(n as nat);
    }
}

/// A request line that ends in `/users/` and an identifier in base ten names
/// that identifier, whatever stands before the first `/` and whatever lines
/// follow.
pub proof fn path_id_of_users_line(method: Seq<char>, id: i32, tail: Seq<char>)
    requires
        forall|i: int| 0 <= i < method.len() ==> method[i] != '/' && method[i] != '\r',
        tail.len() == 0 || starts_with(tail, "\r\n"@),
    ensures
        request_line(method + "/users/"@ + decimal_text(id as int) + tail) == method + "/users/"@
            + decimal_text(id as int),
        path_id(method + "/users/"@ + decimal_text(id as int) + tail) == id,
{
    reveal_strlit("/users/");
    reveal_strlit("\r\n");
    reveal_strlit("/");
    let users = "/users/"@;
    let digits = decimal_text(id as int);
    let line = method + users + digits;
    let text = line + tail;
    let m = method.len() as int;
    let l = line.len() as int;
    decimal_text_chars(id as int);
    assert forall|j: int| 0 <= j < line.len() implies line[j] != '\r' by {
        if j < m {
            assert(line[j] == method[j]);
        } else if j < m + 7 {
            assert(line[j] == users[j - m]);
        } else {
            assert(line[j] == digits[j - m - 7]);
        }
    }
    if tail.len() == 0 {
        assert(text =~= line);
        absent_without_first_char(line, "\r\n"@);
    } else {
        assert(text.subrange(l, l + 2) =~= tail.subrange(0, 2));
        assert forall|j: int| 0 <= j < line.len() implies text[j] != "\r\n"@[0] by {
            assert(text[j] == line[j]);
        }
        first_after_prefix_without_first_char(text, "\r\n"@, l);
        assert(text.take(l) =~= line);
    }
    assert(request_line(text) == line);
    // The first piece is the method, the second is `users`, the third the digits.
    let slash = "/"@;
    assert(line.subrange(m, m + 1) =~= slash);
    assert forall|j: int| 0 <= j < m implies line[j] != slash[0] by {
        assert(line[j] == method[j]);
    }
    first_after_prefix_without_first_char(line, slash, m);
    let second = line.skip(m + 1);
    assert(second =~= users.skip(1) + digits);
    assert(second.subrange(5, 6) =~= slash);
    first_after_prefix_without_first_char(second, slash, 5);
    assert(second.skip(6) =~= digits);
    absent_without_first_char(digits, slash);
    assert(field(digits, slash, 0) == Some(digits));
    assert(field(second, slash, 1) == field(digits, slash, 0));
    assert(field(line, slash, 2) == field(second, slash, 1));
    parse_of_decimal_text(id);
}

/// The three requests that name a user by its identifier are routed to the
/// operation they ask for and carry that identifier, whatever lines follow
/// the request line.
pub proof fn user_requests_name_their_user(id: i32, tail: Seq<char>)
    requires
        tail.len() == 0 || starts_with(tail, "\r\n"@),
    ensures
        route_of(request_line("GET /users/"@ + decimal_text(id as int) + tail)) == Route::GetOne,
        path_id("GET /users/"@ + decimal_text(id as int) + tail) == id,
        route_of(request_line("PUT /users/"@ + decimal_text(id as int) + tail)) == Route::Update,
        path_id("PUT /users/"@ + decimal_text(id as int) + tail) == id,
        route_of(request_line("DELETE /users/"@ + decimal_text(id as int) + tail))
            == Route::Delete,
        path_id("DELETE /users/"@ + decimal_text(id as int) + tail) == id,
{
    reveal_strlit("/users/");
    reveal_strlit("GET ");
    reveal_strlit("PUT ");
    reveal_strlit("DELETE ");
    reveal_strlit("GET /users/");
    reveal_strlit("GET /users");
    reveal_strlit("POST /users");
    reveal_strlit("PUT /users/");
    reveal_strlit("PUT /users");
    reveal_strlit("DELETE /users/");
    let digits = decimal_text(id as int);
    assert("GET /users/"@ =~= "GET "@ + "/users/"@);
    assert("PUT /users/"@ =~= "PUT "@ + "/users/"@);
    assert("DELETE /users/"@ =~= "DELETE "@ + "/users/"@);
    path_id_of_users_line("GET "@, id, tail);
    path_id_of_users_line("PUT "@, id, tail);
    path_id_of_users_line("DELETE "@, id, tail);
    let get = "GET /users/"@ + digits;
    assert(get.subrange(0, 11) =~= "GET /users/"@);
    let put = "PUT /users/"@ + digits;
    assert(put.subrange(0, 10) =~= "PUT /users"@);
    assert(put.subrange(0, 11)[0] != "GET /users/"@[0]);
    assert(put.subrange(0, 10)[0] != "GET /users"@[0]);
    assert(put.subrange(0, 11)[1] != "POST /users"@[1]);
    let delete = "DELETE /users/"@ + digits;
    assert(delete.subrange(0, 14) =~= "DELETE /users/"@);
    assert(delete.subrange(0, 11)[0] != "GET /users/"@[0]);
    assert(delete.subrange(0, 10)[0] != "GET /users"@[0]);
    assert(delete.subrange(0, 11)[0] != "POST /users"@[0]);
    assert(delete.subrange(0, 10)[0] != "PUT /users"@[0]);
}

/// The sentence that answers a creation names one identifier only.
pub proof fn created_body_names_one_id(a: i32, b: i32)
    requires
        created_body(a) == created_body(b),
    ensures
        a == b,
{
    reveal_strlit("}");
    let head = "User created with id: "@;
    let da = decimal_text(a as int);
    let db = decimal_text(b as int);
    let n = head.len() as int;
    assert(created_body(a).len() == n + da.len() + 1);
    assert(created_body(b).len() == n + db.len() + 1);
    assert(da =~= created_body(a).subrange(n, n + da.len()));
    assert(db =~= created_body(b).subrange(n, n + db.len()));
    parse_of_decimal_text(a);
    parse_of_decimal_text(b);
}

/// A user that was created is read back: when a creation was answered with an
/// identifier, reading that identifier next gives the name and the email that
/// were sent, under that identifier.
pub proof fn created_user_is_read_back(
    before: Table,
    create: Seq<char>,
    user: UserView,
    id: i32,
    between: Table,
    read: Seq<char>,
    decoded: Option<UserView>,
    response: ResponseView,
    after: Table,
)
    requires
        route_of(request_line(create)) == Route::Create,
        serves(before, create, Some(user), success(created_body(id)), between),
        route_of(request_line(read)) == Route::GetOne,
        path_id(read) == id,
        serves(between, read, decoded, response, after),
    ensures
        response == success(user_json(user.with_id(id))),
        after == between,
{
    let insert = StoreCommandView::Insert { name: user.name, email: user.email };
    let created = choose|reply: StoreReplyView| #[trigger]
        answers(before, insert, reply, between) && success(created_body(id)) == outcome(
            insert,
            reply,
        );
    match created {
        StoreReplyView::Inserted { id: given } => {
            created_body_names_one_id(id, given);
        },
        _ => {},
    }
    assert(between.dom().contains(id));
}

/// An identifier that the store does not hold is not found: reading it,
/// replacing it by a user, and removing it are each answered so, and the
/// store is left as it was.
pub proof fn unknown_id_is_not_found(
    table: Table,
    request: Seq<char>,
    decoded: Option<UserView>,
    response: ResponseView,
    after: Table,
)
    requires
        !table.dom().contains(path_id(request)),
        route_of(request_line(request)) == Route::GetOne || route_of(request_line(request))
            == Route::Delete || (route_of(request_line(request)) == Route::Update
            && decoded is Some),
        serves(table, request, decoded, response, after),
    ensures
        response == user_not_found(),
        after == table,
{
}

/// Reading all users of a store that holds none succeeds with the empty
/// list.
pub proof fn empty_store_lists_nothing(
    request: Seq<char>,
    decoded: Option<UserView>,
    response: ResponseView,
    after: Table,
)
    requires
        route_of(request_line(request)) == Route::GetAll,
        serves(Map::empty(), request, decoded, response, after),
    ensures
        response == success("[]"@),
        after == Map::<i32, (Seq<char>, Seq<char>)>::empty(),
{
    reveal_strlit("[");
    reveal_strlit("]");
    reveal_strlit("[]");
    let empty = Map::<i32, (Seq<char>, Seq<char>)>::empty();
    let reply = choose|reply: StoreReplyView| #[trigger]
        answers(empty, StoreCommandView::FetchAll, reply, after) && response == outcome(
            StoreCommandView::FetchAll,
            reply,
        );
    match reply {
        StoreReplyView::Rows(users) => {
            if users.len() > 0 {
                assert(is_row(empty, users[0]));
            }
            assert(user_list_json(users) =~= "[]"@);
        },
        _ => {},
    }
}

/// Replacing a user that the store holds succeeds and puts exactly the name
/// and the email that were sent under its identifier, leaving every other
/// row alone; doing the same again succeeds again and changes nothing.
pub proof fn update_replaces_and_repeats(
    table: Table,
    request: Seq<char>,
    user: UserView,
    first: ResponseView,
    between: Table,
    second: ResponseView,
    after: Table,
)
    requires
        table.dom().contains(path_id(request)),
        route_of(request_line(request)) == Route::Update,
        serves(table, request, Some(user), first, between),
        serves(between, request, Some(user), second, after),
    ensures
        first == success("User updated"@),
        between == table.insert(path_id(request), (user.name, user.email)),
        second == first,
        after == between,
{
    assert(between.dom().contains(path_id(request)));
    assert(between.insert(path_id(request), (user.name, user.email)) =~= between);
}

/// Removing a user that the store holds succeeds and takes its row away;
/// removing it again finds nothing.
pub proof fn delete_succeeds_once(
    table: Table,
    request: Seq<char>,
    decoded: Option<UserView>,
    first: ResponseView,
    between: Table,
    second: ResponseView,
    after: Table,
)
    requires
        table.dom().contains(path_id(request)),
        route_of(request_line(request)) == Route::Delete,
        serves(table, request, decoded, first, between),
        serves(between, request, decoded, second, after),
    ensures
        first == success("User deleted"@),
        between == table.remove(path_id(request)),
        second == user_not_found(),
        after == between,
{
}

/// A creation or a replacement whose body is not a user fails, and the store
/// is not asked anything: nothing is written.
pub proof fn undecodable_body_fails_unwritten(
    table: Table,
    request: Seq<char>,
    response: ResponseView,
    after: Table,
)
    requires
        route_of(request_line(request)) == Route::Create || route_of(request_line(request))
            == Route::Update,
        serves(table, request, None, response, after),
    ensures
        plan(request, None) == StepView::Reply(internal_server_error()),
        response == internal_server_error(),
        after == table,
{
}

} // verus!
