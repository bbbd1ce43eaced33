//! What a client sees over several requests, for every store that keeps the
//! users table as the handlers expect.

use vstd::prelude::*;
use crate::handler::{
    after_decode, create_step, internal_error, response_to, user_missing, Pending, StepView,
};
use crate::request::{
    all_digits, body_text, decimal_value, ends_with_line_break, id_of, is_digit,
    lemma_body_follows_head, InputError,
};
use crate::response::{json_success, plain, Status};
use crate::store::{keeps, lists, CommandView, Fields, ReplyView, Table};
use crate::user::{digits_of, integer_text, user_json, users_json, UserView};

verus! {

/// A created user is listed. When a body decodes to `user`, create inserts
/// its name and email and answers `User created`; a read of all users after
/// that succeeds with the JSON of the rows, and one of them has that name and
/// email, under an id that the store assigned.
pub proof fn lemma_created_user_is_listed(
    user: UserView,
    before: Table,
    created: ReplyView,
    table: Table,
    listed: ReplyView,
    after: Table,
)
    requires
        keeps(before, CommandView::Insert { name: user.name, email: user.email }, created, table),
        keeps(table, CommandView::SelectAll, listed, after),
    ensures
        after_decode(Pending::Create, Ok(user)) == StepView::Execute(
            CommandView::Insert { name: user.name, email: user.email },
        ),
        response_to(CommandView::Insert { name: user.name, email: user.email }, created) == plain(
            Status::Success,
            "User created"@,
        ),
        listed matches ReplyView::Rows(rows) && {
            &&& response_to(CommandView::SelectAll, listed) == json_success(users_json(rows))
            &&& exists|i: int|
                0 <= i < rows.len() && (#[trigger] rows[i]).id.is_some() && rows[i].name
                    == user.name && rows[i].email == user.email
        },
{
    let fields = Fields { name: user.name, email: user.email };
    let id = choose|id: i32| !before.dom().contains(id) && table == #[trigger] before.insert(id, fields);
    assert(table.dom().contains(id));
    let rows = listed->Rows_0;
    let i = choose|i: int| 0 <= i < rows.len() && (#[trigger] rows[i]).id == Some(id);
    assert(rows[i].name == user.name);
}

/// An id that is not in the store. A read of the user with that id answers
/// with the internal-error status and `User not found`, and the store is as
/// it was.
pub proof fn lemma_absent_user_cannot_be_read(table: Table, id: i32, reply: ReplyView, after: Table)
    requires
        !table.dom().contains(id),
        keeps(table, CommandView::SelectOne { id }, reply, after),
    ensures
        response_to(CommandView::SelectOne { id }, reply) == user_missing(),
        user_missing().status == Status::InternalServerError,
        after == table,
{
}

/// An id that is not in the store. A delete of the user with that id answers
/// with the not-found status and `User not found`.
pub proof fn lemma_absent_user_cannot_be_deleted(
    table: Table,
    id: i32,
    reply: ReplyView,
    after: Table,
)
    requires
        !table.dom().contains(id),
        keeps(table, CommandView::Delete { id }, reply, after),
    ensures
        response_to(CommandView::Delete { id }, reply) == plain(
            Status::NotFound,
            "User not found"@,
        ),
        after == table,
{
    assert(after =~= table);
}

/// An update of a user that is in the store sets the name and email of that
/// row to the decoded ones, and leaves every other row as it was.
pub proof fn lemma_update_changes_one_row(
    before: Table,
    id: i32,
    user: UserView,
    reply: ReplyView,
    after: Table,
)
    requires
        before.dom().contains(id),
        keeps(before, CommandView::Update { id, name: user.name, email: user.email }, reply, after),
    ensures
        after_decode(Pending::Update { id }, Ok(user)) == StepView::Execute(
            CommandView::Update { id, name: user.name, email: user.email },
        ),
        response_to(CommandView::Update { id, name: user.name, email: user.email }, reply)
            == plain(Status::Success, "User updated"@),
        after.dom() == before.dom(),
        after[id] == (Fields { name: user.name, email: user.email }),
        forall|other: i32| other != id && before.dom().contains(other) ==> after[other] == before[other],
{
    assert(after.dom() =~= before.dom());
}

/// A delete of a user that is in the store reports a row removed, answers
/// `User deleted`, and a read of all users after that lists no row with the
/// id, and every other row as before.
pub proof fn lemma_deleted_user_is_gone(
    before: Table,
    id: i32,
    deleted: ReplyView,
    table: Table,
    listed: ReplyView,
    after: Table,
)
    requires
        before.dom().contains(id),
        keeps(before, CommandView::Delete { id }, deleted, table),
        keeps(table, CommandView::SelectAll, listed, after),
    ensures
        deleted matches ReplyView::Affected(count) && count != 0,
        response_to(CommandView::Delete { id }, deleted) == plain(
            Status::Success,
            "User deleted"@,
        ),
        listed matches ReplyView::Rows(rows) && {
            &&& response_to(CommandView::SelectAll, listed) == json_success(users_json(rows))
            &&& forall|i: int| 0 <= i < rows.len() ==> (#[trigger] rows[i]).id != Some(id)
            &&& lists(rows, before.remove(id))
        },
{
}

/// A body that does not decode stores nothing: whichever handler waited for
/// it answers with the internal-error status, and no statement is run.
pub proof fn lemma_rejected_body_stores_nothing(pending: Pending, error: InputError)
    ensures
        after_decode(pending, Err(error)) == StepView::Send(internal_error()),
        internal_error().status == Status::InternalServerError,
{
}

/// The digits written for a number are digits, at least one, and write that
/// number.
pub proof fn lemma_digits_read_back(n: nat)
    ensures
        digits_of(n).len() > 0,
        all_digits(digits_of(n)),
        decimal_value(digits_of(n)) == n,
    decreases n,
{
    let written = digits_of(n);
    if n < 10 {
        assert(written.drop_last() =~= Seq::<char>::empty());
        assert(decimal_value(written.drop_last()) == 0);
        assert(written.last() as u32 == 0x30 + n);
    } else {
        lemma_digits_read_back(n / 10);
        assert(written.drop_last() =~= digits_of(n / 10));
        assert(written.last() as u32 == 0x30 + n % 10);
        assert forall|i: int| 0 <= i < written.len() implies is_digit(#[trigger] written[i]) by {
            if i < written.len() - 1 {
                assert(written[i] == digits_of(n / 10)[i]);
            }
        }
    }
}

/// The id that a response shows can be used in a path: the text written for
/// an id reads back as that id.
pub proof fn lemma_written_id_reads_back(id: i32)
    ensures
        id_of(integer_text(id as int)) == Some(id),
{
    if id < 0 {
        let digits = digits_of((-id) as nat);
        lemma_digits_read_back((-id) as nat);
        assert(integer_text(id as int).skip(1) =~= digits);
    } else {
        lemma_digits_read_back(id as nat);
        assert(is_digit(digits_of(id as nat)[0]));
    }
}

/// A user that was written can be sent back. When the JSON of `user` follows
/// a head and the separator, create hands exactly that JSON on to be decoded,
/// after the line break that is left over where the head ends with one.
pub proof fn lemma_written_user_is_handed_on(head: Seq<char>, user: UserView)
    requires
        body_text(head).is_none(),
    ensures
        create_step(head + "\r\n\r\n"@ + user_json(user)) == (StepView::Decode {
            pending: Pending::Create,
            body: if ends_with_line_break(head) {
                "\r\n"@ + user_json(user)
            } else {
                user_json(user)
            },
        }),
{
    reveal_strlit("{\"id\":");
    assert(user_json(user).len() > 0);
    lemma_body_follows_head(head, user_json(user));
}

} // verus!
