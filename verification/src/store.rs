//! The store as this crate sees it: the commands it is asked to run, the
//! replies it gives, and what a store that works answers.

use crate::user::{user_views, User, UserView};
use vstd::prelude::*;

verus! {

/// The statement that makes the table of users where it does not exist yet.
pub const CREATE_TABLE: &'static str =
    "CREATE TABLE IF NOT EXISTS users (id SERIAL PRIMARY KEY, name VARCHAR NOT NULL, email VARCHAR NOT NULL)";

/// One round trip to the store.
#[derive(Clone, Debug, PartialEq, Eq)]
pub enum StoreCommand {
    /// Read the row of this identifier.
    FetchOne { id: i32 },
    /// Read every row.
    FetchAll,
    /// Add a row; the store assigns its identifier.
    Insert { name: String, email: String },
    /// Replace name and email in the row of this identifier.
    Update { id: i32, name: String, email: String },
    /// Remove the row of this identifier.
    Delete { id: i32 },
}

/// What a `StoreCommand` holds, as plain mathematics.
pub enum StoreCommandView {
    FetchOne { id: i32 },
    FetchAll,
    Insert { name: Seq<char>, email: Seq<char> },
    Update { id: i32, name: Seq<char>, email: Seq<char> },
    Delete { id: i32 },
}

impl View for StoreCommand {
    type V = StoreCommandView;

    open spec fn view(&self) -> StoreCommandView {
        match self {
            StoreCommand::FetchOne { id } => StoreCommandView::FetchOne { id: *id },
            StoreCommand::FetchAll => StoreCommandView::FetchAll,
            StoreCommand::Insert { name, email } => StoreCommandView::Insert {
                name: name@,
                email: email@,
            },
            StoreCommand::Update { id, name, email } => StoreCommandView::Update {
                id: *id,
                name: name@,
                email: email@,
            },
            StoreCommand::Delete { id } => StoreCommandView::Delete { id: *id },
        }
    }
}

/// A value that goes into a statement in place of `$1`, `$2` or `$3`.
#[derive(Clone, Debug, PartialEq, Eq)]
pub enum Parameter {
    Integer(i32),
    Text(String),
}

/// What a `Parameter` holds, as plain mathematics.
pub enum ParameterView {
    Integer(i32),
    Text(Seq<char>),
}

impl View for Parameter {
    type V = ParameterView;

    open spec fn view(&self) -> ParameterView {
        match self {
            Parameter::Integer(value) => ParameterView::Integer(*value),
            Parameter::Text(value) => ParameterView::Text(value@),
        }
    }
}

/// The views of a list of parameters, in the same order.
pub open spec fn parameter_views(parameters: Seq<Parameter>) -> Seq<ParameterView> {
    parameters.map_values(|p: Parameter| p@)
}

impl StoreCommandView {
    /// The statement that carries this command out, with `$1`, `$2`, `$3`
    /// where the values of `parameters` go.
    pub open spec fn statement(self) -> Seq<char> {
        match self {
            StoreCommandView::FetchOne { .. } => "SELECT id, name, email FROM users WHERE id = $1"@,
            StoreCommandView::FetchAll => "SELECT id, name, email FROM users"@,
            StoreCommandView::Insert { .. } =>
                "INSERT INTO users (name, email) VALUES ($1, $2) RETURNING id"@,
            StoreCommandView::Update { .. } =>
                "UPDATE users SET name = $1, email = $2 WHERE id = $3"@,
            StoreCommandView::Delete { .. } => "DELETE FROM users WHERE id = $1"@,
        }
    }
}

impl StoreCommandView {
    /// The values that go into the statement, `$1` first: name and email
    /// before the identifier.
    pub open spec fn parameters(self) -> Seq<ParameterView> {
        match self {
            StoreCommandView::FetchOne { id } => seq![ParameterView::Integer(id)],
            StoreCommandView::FetchAll => seq![],
            StoreCommandView::Insert { name, email } => seq![
                ParameterView::Text(name),
                ParameterView::Text(email),
            ],
            StoreCommandView::Update { id, name, email } => seq![
                ParameterView::Text(name),
                ParameterView::Text(email),
                ParameterView::Integer(id),
            ],
            StoreCommandView::Delete { id } => seq![ParameterView::Integer(id)],
        }
    }
}

impl StoreCommand {
    /// The values that go into the statement, `$1` first.
    pub fn parameters(&self) -> (parameters: Vec<Parameter>)
        ensures
            parameter_views(parameters@) == self@.parameters(),
    {
        let mut parameters: Vec<Parameter> = Vec::new();
        match self {
            StoreCommand::FetchOne { id } => {
                parameters.push(Parameter::Integer(*id));
            },
            StoreCommand::FetchAll => {},
            StoreCommand::Insert { name, email } => {
                parameters.push(Parameter::Text(name.clone()));
                parameters.push(Parameter::Text(email.clone()));
            },
            StoreCommand::Update { id, name, email } => {
                parameters.push(Parameter::Text(name.clone()));
                parameters.push(Parameter::Text(email.clone()));
                parameters.push(Parameter::Integer(*id));
            },
            StoreCommand::Delete { id } => {
                parameters.push(Parameter::Integer(*id));
            },
        }
        assert(parameter_views(parameters@) =~= self@.parameters());
        parameters
    }

    /// The statement that carries this command out.
    pub fn statement(&self) -> (sql: &'static str)
        ensures
            sql@ == self@.statement(),
    {
        match self {
            StoreCommand::FetchOne { .. } => "SELECT id, name, email FROM users WHERE id = $1",
            StoreCommand::FetchAll => "SELECT id, name, email FROM users",
            StoreCommand::Insert { .. } =>
                "INSERT INTO users (name, email) VALUES ($1, $2) RETURNING id",
            StoreCommand::Update { .. } => "UPDATE users SET name = $1, email = $2 WHERE id = $3",
            StoreCommand::Delete { .. } => "DELETE FROM users WHERE id = $1",
        }
    }
}

/// What came back from one round trip.
#[derive(Clone, Debug, PartialEq, Eq)]
pub enum StoreReply {
    /// The store could not be reached, or it refused the statement.
    Failed,
    /// The row that was asked for.
    Row { id: i32, name: String, email: String },
    /// There is no row of the identifier that was asked for.
    NoRow,
    /// Every row.
    Rows(Vec<User>),
    /// The identifier that the store gave the new row.
    Inserted { id: i32 },
    /// How many rows the statement changed or removed.
    Affected { rows: u64 },
}

/// What a `StoreReply` holds, as plain mathematics.
pub enum StoreReplyView {
    Failed,
    Row { id: i32, name: Seq<char>, email: Seq<char> },
    NoRow,
    Rows(Seq<UserView>),
    Inserted { id: i32 },
    Affected { rows: u64 },
}

impl View for StoreReply {
    type V = StoreReplyView;

    open spec fn view(&self) -> StoreReplyView {
        match self {
            StoreReply::Failed => StoreReplyView::Failed,
            StoreReply::Row { id, name, email } => StoreReplyView::Row {
                id: *id,
                name: name@,
                email: email@,
            },
            StoreReply::NoRow => StoreReplyView::NoRow,
            StoreReply::Rows(users) => StoreReplyView::Rows(user_views(users@)),
            StoreReply::Inserted { id } => StoreReplyView::Inserted { id: *id },
            StoreReply::Affected { rows } => StoreReplyView::Affected { rows: *rows },
        }
    }
}

/// The table of users: name and email under each identifier in use.
pub type Table = Map<i32, (Seq<char>, Seq<char>)>;

/// The row of `id` in `table` as a user.
pub open spec fn row_of(table: Table, id: i32) -> UserView {
    UserView { id: Some(id), name: table[id].0, email: table[id].1 }
}

/// `user` is one of the rows of `table`.
pub open spec fn is_row(table: Table, user: UserView) -> bool {
    &&& user.id matches Some(id)
    &&& table.dom().contains(id)
    &&& user == row_of(table, id)
}

/// `users` is the content of `table`: each row once, in any order.
pub open spec fn lists(table: Table, users: Seq<UserView>) -> bool {
    &&& forall|i: int| 0 <= i < users.len() ==> is_row(table, #[trigger] users[i])
    &&& forall|id: i32| #[trigger]
        table.dom().contains(id) ==> users.contains(row_of(table, id))
    &&& forall|i: int, j: int|
        0 <= i < j < users.len() ==> (#[trigger] users[i]).id != (#[trigger] users[j]).id
}

/// What a store that works does with one command: `reply` is its answer when
/// it holds `before`, and `after` is what it holds then.  Reading changes
/// nothing.  A new row gets an identifier that was not in use.  Replacing and
/// removing say how many rows they touched: one where the identifier was in
/// use, none where it was not.
pub open spec fn answers(
    before: Table,
    command: StoreCommandView,
    reply: StoreReplyView,
    after: Table,
) -> bool {
    match command {
        StoreCommandView::FetchOne { id } => {
            &&& after == before
            &&& reply == if before.dom().contains(id) {
                StoreReplyView::Row { id, name: before[id].0, email: before[id].1 }
            } else {
                StoreReplyView::NoRow
            }
        },
        StoreCommandView::FetchAll => {
            &&& after == before
            &&& reply matches StoreReplyView::Rows(users)
            &&& lists(before, users)
        },
        StoreCommandView::Insert { name, email } => {
            &&& reply matches StoreReplyView::Inserted { id }
            &&& !before.dom().contains(id)
            &&& after == before.insert(id, (name, email))
        },
        StoreCommandView::Update { id, name, email } => if before.dom().contains(id) {
            &&& reply == StoreReplyView::Affected { rows: 1 }
            &&& after == before.insert(id, (name, email))
        } else {
            &&& reply == StoreReplyView::Affected { rows: 0 }
            &&& after == before
        },
        StoreCommandView::Delete { id } => if before.dom().contains(id) {
            &&& reply == StoreReplyView::Affected { rows: 1 }
            &&& after == before.remove(id)
        } else {
            &&& reply == StoreReplyView::Affected { rows: 0 }
            &&& after == before
        },
    }
}

} // verus!
