//! What the service guarantees, request by request, proved of the table model.

use vstd::prelude::*;
use crate::handlers::RequestView;
use crate::response::ResponseView;
use crate::statement::StatementView;
use crate::table::{lemma_delete_absent, lemma_delete_present, other_than, Record, TableState};
use crate::user::UserView;

verus! {

/// No request breaks the table: identifiers stay positive, distinct and below
/// the counter, and the counter never falls.
pub proof fn request_preserves_table(table: TableState, request: RequestView)
    requires
        table.wf(),
    ensures
        table.settled(request).wf(),
        table.settled(request).next_id >= table.next_id,
{
    let next = table.settled(request);
    match request {
        RequestView::AddUser { name, email } => {},
        RequestView::GetUsers => {},
        RequestView::UpdateUser { id, name, email } => {},
        RequestView::DeleteUser { id } => {
            if table.has(id) {
                let at = table.position(id);
                lemma_delete_present(table.rows, id, at);
                assert forall|i: int| 0 <= i < next.rows.len() implies 1 <= #[trigger] next.rows[i].id
                    < next.next_id by {
                    if i < at {
                        assert(next.rows[i] == table.rows[i]);
                    } else {
                        assert(next.rows[i] == table.rows[i + 1]);
                    }
                }
                assert forall|i: int, j: int| 0 <= i < j < next.rows.len() implies (
                #[trigger] next.rows[i]).id < (#[trigger] next.rows[j]).id by {
                    let from_i = if i < at { i } else { i + 1 };
                    let from_j = if j < at { j } else { j + 1 };
                    assert(next.rows[i] == table.rows[from_i]);
                    assert(next.rows[j] == table.rows[from_j]);
                }
            } else {
                lemma_delete_absent(table.rows, id);
            }
        },
    }
}

/// Creating the table where it is already there changes nothing, however
/// often it is done.
pub proof fn create_table_is_idempotent(table: TableState)
    ensures
        !table.rejects(StatementView::CreateTable),
        table.after(StatementView::CreateTable) == table,
        table.after(StatementView::CreateTable).after(StatementView::CreateTable) == table,
{
}

/// Listing changes nothing, and lists every row once, oldest first.
pub proof fn list_reads_the_table(table: TableState)
    ensures
        table.settled(RequestView::GetUsers) == table,
        table.answer(RequestView::GetUsers) == ResponseView::users(table.users()),
        table.users().len() == table.rows.len(),
        forall|i: int| 0 <= i < table.rows.len() ==> #[trigger] table.users()[i] == table.rows[i].user(),
{
}

/// Creating a user and then listing yields the earlier list plus exactly one
/// entry, which carries the given name and email and an identifier that no
/// earlier entry has. The create itself answers 200 with that same list.
///
/// This holds as long as an identifier is left; see
/// [`create_without_identifiers_left`].
pub proof fn create_then_list(table: TableState, name: Seq<char>, email: Seq<char>)
    requires
        table.wf(),
        !table.exhausted(),
    ensures
        ({
            let request = RequestView::AddUser { name, email };
            let created = UserView { id: Some(table.next_id), name, email };
            let later = table.settled(request);
            &&& later.answer(RequestView::GetUsers) == ResponseView::users(
                table.users().push(created),
            )
            &&& table.answer(request) == later.answer(RequestView::GetUsers)
            &&& !table.has(table.next_id)
            &&& forall|i: int|
                0 <= i < table.users().len() ==> (#[trigger] table.users()[i]).id != created.id
            &&& later.has(table.next_id)
        }),
{
    let request = RequestView::AddUser { name, email };
    let created = UserView { id: Some(table.next_id), name, email };
    let later = table.settled(request);
    assert(later.users() =~= table.users().push(created));
    if table.has(table.next_id) {
        let at = choose|i: int| 0 <= i < table.rows.len() && (#[trigger] table.rows[i]).id == table.next_id;
        assert(table.rows[at].id < table.next_id);
    }
    assert forall|i: int| 0 <= i < table.users().len() implies (#[trigger] table.users()[i]).id
        != created.id by {
        assert(table.rows[i].id < table.next_id);
    }
    assert(later.rows[table.rows.len() as int].id == table.next_id);
}

/// Once every identifier is used up, a create is refused: the answer is 500
/// with the table's message, and the table stays as it was.
pub proof fn create_without_identifiers_left(table: TableState, name: Seq<char>, email: Seq<char>)
    requires
        table.exhausted(),
    ensures
        ({
            let request = RequestView::AddUser { name, email };
            &&& table.settled(request) == table
            &&& table.answer(request).status == 500
        }),
{
}

/// Updating an existing user overwrites name and email of that one row and
/// keeps its identifier and its place; every other row stays as it was. The
/// answer is 200 with the list after the update.
pub proof fn update_existing(table: TableState, id: int, name: Seq<char>, email: Seq<char>)
    requires
        table.wf(),
        table.has(id),
    ensures
        ({
            let request = RequestView::UpdateUser { id, name, email };
            let later = table.settled(request);
            &&& table.answer(request) == ResponseView::users(later.users())
            &&& later.next_id == table.next_id
            &&& later.rows.len() == table.rows.len()
            &&& forall|i: int|
                0 <= i < table.rows.len() ==> #[trigger] later.rows[i] == if table.rows[i].id == id {
                    Record { id, name, email }
                } else {
                    table.rows[i]
                }
            &&& forall|i: int, j: int|
                0 <= i < table.rows.len() && 0 <= j < table.rows.len() && (
                #[trigger] table.rows[i]).id == id && (#[trigger] table.rows[j]).id == id ==> i == j
            &&& later.has(id)
        }),
{
    let request = RequestView::UpdateUser { id, name, email };
    let later = table.settled(request);
    assert forall|i: int, j: int|
        0 <= i < table.rows.len() && 0 <= j < table.rows.len() && (#[trigger] table.rows[i]).id == id
            && (#[trigger] table.rows[j]).id == id implies i == j by {
        if i < j {
            assert(table.rows[i].id < table.rows[j].id);
        } else if j < i {
            assert(table.rows[j].id < table.rows[i].id);
        }
    }
    assert(later.rows[table.position(id)].id == id);
}

/// Updating a user that does not exist changes nothing and still answers 200
/// with the list: the miss is not reported.
pub proof fn update_missing(table: TableState, id: int, name: Seq<char>, email: Seq<char>)
    requires
        !table.has(id),
    ensures
        ({
            let request = RequestView::UpdateUser { id, name, email };
            &&& table.settled(request) == table
            &&& table.answer(request) == ResponseView::users(table.users())
        }),
{
    let request = RequestView::UpdateUser { id, name, email };
    assert forall|i: int| 0 <= i < table.rows.len() implies #[trigger] table.settled(request).rows[i]
        == table.rows[i] by {
        assert(table.rows[i].id != id);
    }
    assert(table.settled(request).rows =~= table.rows);
}

/// Deleting an existing user removes exactly its row: the rows before it and
/// after it stay, in order, and a later listing has no entry with that
/// identifier. The answer is 204 without a body.
pub proof fn delete_existing(table: TableState, id: int)
    requires
        table.wf(),
        table.has(id),
    ensures
        ({
            let request = RequestView::DeleteUser { id };
            let later = table.settled(request);
            let at = table.position(id);
            &&& 0 <= at < table.rows.len() && table.rows[at].id == id
            &&& table.answer(request) == ResponseView::no_content()
            &&& later.rows == table.rows.remove(at)
            &&& later.next_id == table.next_id
            &&& !later.has(id)
            &&& later.answer(RequestView::GetUsers) == ResponseView::users(table.users().remove(at))
            &&& forall|i: int|
                0 <= i < later.users().len() ==> (#[trigger] later.users()[i]).id != Some(id)
        }),
{
    let request = RequestView::DeleteUser { id };
    let later = table.settled(request);
    let at = table.position(id);
    lemma_delete_present(table.rows, id, at);
    assert(later.users() =~= table.users().remove(at));
    assert forall|i: int| 0 <= i < later.rows.len() implies (#[trigger] later.rows[i]).id != id by {
        if i < at {
            assert(later.rows[i] == table.rows[i]);
            assert(table.rows[i].id < table.rows[at].id);
        } else {
            assert(later.rows[i] == table.rows[i + 1]);
            assert(table.rows[at].id < table.rows[i + 1].id);
        }
    }
    assert forall|i: int| 0 <= i < later.users().len() implies (#[trigger] later.users()[i]).id
        != Some(id) by {
        assert(later.rows[i].id != id);
    }
}

/// Deleting a user that does not exist changes nothing and still answers 204
/// without a body: the miss is not reported.
pub proof fn delete_missing(table: TableState, id: int)
    requires
        !table.has(id),
    ensures
        ({
            let request = RequestView::DeleteUser { id };
            &&& table.settled(request) == table
            &&& table.answer(request) == ResponseView::no_content()
        }),
{
    assert forall|i: int| 0 <= i < table.rows.len() implies (#[trigger] table.rows[i]).id != id by {}
    lemma_delete_absent(table.rows, id);
    assert(table.rows.filter(other_than(id)) == table.rows);
}

/// A name or an email is stored and listed as the very characters that came
/// in, whatever they are: both are data to the table, never statement text.
pub proof fn text_is_stored_verbatim(table: TableState, name: Seq<char>, email: Seq<char>)
    requires
        table.wf(),
        !table.exhausted(),
    ensures
        ({
            let later = table.settled(RequestView::AddUser { name, email });
            &&& later.users().last().name == name
            &&& later.users().last().email == email
            &&& later.rows.len() == table.rows.len() + 1
        }),
{
}

} // verus!
