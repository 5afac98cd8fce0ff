//! The edge towards the database driver: what came back from the connection
//! is turned into the service's own values here.

use vstd::prelude::*;
use vstd::string::to_string_from_display_ensures;
use crate::error::StoreError;
use crate::user::{User, UserView};

verus! {

/// The driver's error type, opaque to the proofs.
#[verifier::external_type_specification]
#[verifier::external_body]
pub struct ExDriverError(tokio_postgres::Error);

/// The driver's row type, opaque to the proofs.
#[verifier::external_type_specification]
#[verifier::external_body]
pub struct ExDriverRow(tokio_postgres::Row);

/// What the driver reads as a 32-bit integer in the column of a row at an
/// index: the integer, or `None` where it answers with an error.
pub uninterp spec fn integer_column(row: tokio_postgres::Row, index: usize) -> Option<i32>;

/// What the driver reads as text in the column of a row at an index: the
/// text, or `None` where it answers with an error.
pub uninterp spec fn text_column(row: tokio_postgres::Row, index: usize) -> Option<Seq<char>>;

/// `tokio_postgres::Row::try_get` at an index, read as a 32-bit integer. The
/// driver answers with an error when the row has no such column, when the
/// column is not an integer of that width, or when it is null. The outcome
/// depends on the row and the index alone; [`integer_column`] names it.
#[verifier::external_body]
fn column_i32(row: &tokio_postgres::Row, index: usize) -> (value: Result<
    i32,
    tokio_postgres::Error,
>)
    ensures
        match value {
            Ok(number) => integer_column(*row, index) == Some(number),
            Err(_) => integer_column(*row, index) is None,
        },
{
    row.try_get(index)
}

/// `tokio_postgres::Row::try_get` at an index, read as text. The driver
/// answers with an error when the row has no such column, when the column is
/// not text, or when it is null. The outcome depends on the row and the
/// index alone; [`text_column`] names it.
#[verifier::external_body]
fn column_text(row: &tokio_postgres::Row, index: usize) -> (value: Result<
    String,
    tokio_postgres::Error,
>)
    ensures
        match value {
            Ok(text) => text_column(*row, index) == Some(text@),
            Err(_) => text_column(*row, index) is None,
        },
{
    row.try_get(index)
}

/// The user that a row stands for: its first column is the identifier, its
/// second the name, its third the email. A row in which one of the three
/// cannot be read stands for none.
pub open spec fn row_user(row: tokio_postgres::Row) -> Option<UserView> {
    if integer_column(row, 0) is Some && text_column(row, 1) is Some && text_column(row, 2) is Some {
        Some(
            UserView {
                id: Some(integer_column(row, 0)->0 as int),
                name: text_column(row, 1)->0,
                email: text_column(row, 2)->0,
            },
        )
    } else {
        None
    }
}

/// The failure that a driver error stands for: its message is the error's
/// own description.
pub fn store_error(error: &tokio_postgres::Error) -> (failure: StoreError)
    ensures
        to_string_from_display_ensures::<tokio_postgres::Error>(error, failure.message),
{
    StoreError::new(error.to_string())
}

/// Takes the outcome of a statement run for its effect: the count of
/// affected rows as it is, an error as a [`StoreError`] with the driver's
/// description.
pub fn execute_query(outcome: Result<u64, tokio_postgres::Error>) -> (result: Result<
    u64,
    StoreError,
>)
    ensures
        match outcome {
            Ok(count) => result == Ok::<u64, StoreError>(count),
            Err(error) => result is Err && to_string_from_display_ensures::<tokio_postgres::Error>(
                &error,
                result->Err_0.message,
            ),
        },
{
    match outcome {
        Ok(count) => Ok(count),
        Err(error) => Err(store_error(&error)),
    }
}

/// Reads the columns `id`, `name`, `email` of one row, in that order. A row
/// that does not hold them fails with the driver's description of the first
/// column that could not be read.
pub fn user_from_row(row: &tokio_postgres::Row) -> (result: Result<User, StoreError>)
    ensures
        match result {
            Ok(user) => row_user(*row) == Some(user@),
            Err(_) => row_user(*row) is None,
        },
{
    let id = match column_i32(row, 0) {
        Ok(id) => id,
        Err(error) => {
            return Err(store_error(&error));
        },
    };
    let name = match column_text(row, 1) {
        Ok(name) => name,
        Err(error) => {
            return Err(store_error(&error));
        },
    };
    let email = match column_text(row, 2) {
        Ok(email) => email,
        Err(error) => {
            return Err(store_error(&error));
        },
    };
    Ok(User::from_columns(id, name, email))
}

/// Takes the outcome of the full-table read: each row becomes a user, in the
/// order in which the rows came; an error of the driver, or a row that cannot
/// be read, becomes a [`StoreError`].
#[verifier::loop_isolation(false)]
pub fn get_users_from_db(outcome: Result<Vec<tokio_postgres::Row>, tokio_postgres::Error>) -> (result:
    Result<Vec<User>, StoreError>)
    ensures
        match outcome {
            Ok(rows) => {
                &&& result is Ok <==> forall|i: int|
                    0 <= i < rows.len() ==> row_user(#[trigger] rows[i]) is Some
                &&& result is Ok ==> {
                    &&& result->Ok_0.len() == rows.len()
                    &&& forall|i: int|
                        0 <= i < rows.len() ==> row_user(rows[i]) == Some(
                            (#[trigger] result->Ok_0[i])@,
                        )
                }
            },
            Err(error) => result is Err && to_string_from_display_ensures::<tokio_postgres::Error>(
                &error,
                result->Err_0.message,
            ),
        },
{
    match outcome {
        Err(error) => Err(store_error(&error)),
        Ok(rows) => {
            let mut users: Vec<User> = Vec::new();
            let mut i: usize = 0;
            while i < rows.len()
                invariant
                    i <= rows.len(),
                    users.len() == i,
                    forall|j: int| 0 <= j < i ==> row_user(rows[j]) == Some((#[trigger] users[j])@),
                decreases rows.len() - i,
            {
                match user_from_row(&rows[i]) {
                    Ok(user) => users.push(user),
                    Err(failure) => {
                        return Err(failure);
                    },
                }
                i += 1;
            }
            assert forall|j: int| 0 <= j < rows.len() implies row_user(#[trigger] rows[j]) is Some by {
                assert(row_user(rows[j]) == Some(users[j]@));
            }
            Ok(users)
        },
    }
}

} // verus!
