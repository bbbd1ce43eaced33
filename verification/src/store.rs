//! What the handlers ask of the relational store, and what it answers.

use vstd::prelude::*;
use crate::user::{User, UserView, views_of};

verus! {

/// One statement against the users table.
#[derive(Debug, PartialEq, Eq)]
pub enum StoreCommand {
    /// Add a row with these values; the store assigns the id.
    Insert { name: String, email: String },
    /// Read the row with this id.
    SelectOne { id: i32 },
    /// Read every row.
    SelectAll,
    /// Set the values of the row with this id.
    Update { id: i32, name: String, email: String },
    /// Remove the row with this id.
    Delete { id: i32 },
}

/// A command as contracts see it.
pub enum CommandView {
    Insert { name: Seq<char>, email: Seq<char> },
    SelectOne { id: i32 },
    SelectAll,
    Update { id: i32, name: Seq<char>, email: Seq<char> },
    Delete { id: i32 },
}

impl View for StoreCommand {
    type V = CommandView;

    open spec fn view(&self) -> CommandView {
        match *self {
            StoreCommand::Insert { name, email } => CommandView::Insert {
                name: name@,
                email: email@,
            },
            StoreCommand::SelectOne { id } => CommandView::SelectOne { id },
            StoreCommand::SelectAll => CommandView::SelectAll,
            StoreCommand::Update { id, name, email } => CommandView::Update {
                id,
                name: name@,
                email: email@,
            },
            StoreCommand::Delete { id } => CommandView::Delete { id },
        }
    }
}

/// What came of a command.
#[derive(Debug, PartialEq, Eq)]
pub enum StoreReply {
    /// No connection to the store could be made.
    Unreachable,
    /// The store was reached, and the statement failed. A read of one row
    /// that did not find exactly one row fails in this way.
    Failed,
    /// The statement changed this many rows.
    Affected(u64),
    /// The statement read these rows.
    Rows(Vec<User>),
}

/// A reply as contracts see it.
pub enum ReplyView {
    Unreachable,
    Failed,
    Affected(u64),
    Rows(Seq<UserView>),
}

impl View for StoreReply {
    type V = ReplyView;

    open spec fn view(&self) -> ReplyView {
        match *self {
            StoreReply::Unreachable => ReplyView::Unreachable,
            StoreReply::Failed => ReplyView::Failed,
            StoreReply::Affected(count) => ReplyView::Affected(count),
            StoreReply::Rows(rows) => ReplyView::Rows(views_of(rows@)),
        }
    }
}

/// The name and email of a row.
pub struct Fields {
    pub name: Seq<char>,
    pub email: Seq<char>,
}

/// The users table: the name and email of each row, by its id.
pub type Table = Map<i32, Fields>;

/// The row of `table` with this id, as a user.
pub open spec fn row_of(table: Table, id: i32) -> UserView {
    UserView { id: Some(id), name: table[id].name, email: table[id].email }
}

/// Whether `rows` are the rows of `table`: each of them once, and nothing
/// else, in any order.
pub open spec fn lists(rows: Seq<UserView>, table: Table) -> bool {
    &&& forall|i: int|
        0 <= i < rows.len() ==> {
            &&& (#[trigger] rows[i]).id matches Some(id)
            &&& table.dom().contains(id)
            &&& rows[i] == row_of(table, id)
        }
    &&& forall|id: i32| #[trigger]
        table.dom().contains(id) ==> exists|i: int|
            0 <= i < rows.len() && (#[trigger] rows[i]).id == Some(id)
    &&& forall|i: int, j: int|
        0 <= i < j < rows.len() ==> (#[trigger] rows[i]).id != (#[trigger] rows[j]).id
}

/// What the handlers expect of the store: `reply` and `after` are what a
/// reachable store that holds `before` answers to `command` and holds
/// afterwards.
///
/// - An insert adds one row under an id that no row had.
/// - A read of one row yields that row, and fails where there is none.
/// - A read of all rows yields each row once.
/// - An update sets the name and email of the row with the id, if there is one.
/// - A delete removes the row with the id, if there is one.
/// - Updates and deletes report how many rows they changed.
pub open spec fn keeps(before: Table, command: CommandView, reply: ReplyView, after: Table) -> bool {
    match command {
        CommandView::Insert { name, email } => {
            &&& reply == ReplyView::Affected(1)
            &&& exists|id: i32|
                !before.dom().contains(id) && after == #[trigger] before.insert(
                    id,
                    Fields { name, email },
                )
        },
        CommandView::SelectOne { id } => {
            &&& after == before
            &&& reply == if before.dom().contains(id) {
                ReplyView::Rows(seq![row_of(before, id)])
            } else {
                ReplyView::Failed
            }
        },
        CommandView::SelectAll => {
            &&& after == before
            &&& reply matches ReplyView::Rows(rows)
            &&& lists(rows, before)
        },
        CommandView::Update { id, name, email } => if before.dom().contains(id) {
            after == before.insert(id, Fields { name, email }) && reply == ReplyView::Affected(1)
        } else {
            after == before && reply == ReplyView::Affected(0)
        },
        CommandView::Delete { id } => {
            &&& after == before.remove(id)
            &&& reply == ReplyView::Affected(
                if before.dom().contains(id) {
                    1
                } else {
                    0
                },
            )
        },
    }
}

} // verus!
