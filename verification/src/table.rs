//! A reference model of the users table, and an in-memory table that
//! implements it.
//!
//! The model fixes what each statement of the gateway means: identifiers are
//! handed out by a counter that only grows, so none is ever used twice, and
//! an update or a delete that matches no row changes nothing and succeeds.
//! Rows are kept in the order of their insertion; a database promises no
//! order, and nothing in the handlers relies on one.

use vstd::prelude::*;
use crate::error::StoreError;
use crate::statement::{Statement, StatementView};
use crate::user::{User, UserView, user_views};

verus! {

/// The largest identifier the table can hand out.
pub const MAX_ID: i32 = 2147483647;

/// A stored row.
pub ghost struct Record {
    pub id: int,
    pub name: Seq<char>,
    pub email: Seq<char>,
}

impl Record {
    /// The user that this row is listed as.
    pub open spec fn user(self) -> UserView {
        UserView { id: Some(self.id), name: self.name, email: self.email }
    }
}

/// The predicate of a delete: every row but the one with this identifier.
pub open spec fn other_than(id: int) -> spec_fn(Record) -> bool {
    |row: Record| row.id != id
}

/// The effect of an update on one row.
pub open spec fn overwrite(id: int, name: Seq<char>, email: Seq<char>) -> spec_fn(Record) -> Record {
    |row: Record|
        if row.id == id {
            Record { id, name, email }
        } else {
            row
        }
}

/// The state of the users table.
pub ghost struct TableState {
    /// The rows, oldest first.
    pub rows: Seq<Record>,
    /// The identifier that the next insert gets.
    pub next_id: int,
}

impl TableState {
    /// The table right after its creation.
    pub open spec fn empty() -> TableState {
        TableState { rows: Seq::empty(), next_id: 1 }
    }

    /// Identifiers are positive, below the counter, and grow with the age of
    /// the row; so no two rows share one.
    pub open spec fn wf(self) -> bool {
        &&& 1 <= self.next_id <= MAX_ID + 1
        &&& forall|i: int| 0 <= i < self.rows.len() ==> 1 <= #[trigger] self.rows[i].id < self.next_id
        &&& forall|i: int, j: int|
            0 <= i < j < self.rows.len() ==> (#[trigger] self.rows[i]).id < (#[trigger] self.rows[j]).id
    }

    /// Whether a row has this identifier.
    pub open spec fn has(self, id: int) -> bool {
        exists|i: int| 0 <= i < self.rows.len() && (#[trigger] self.rows[i]).id == id
    }

    /// Where the row with this identifier stands, if [`has`](Self::has).
    pub open spec fn position(self, id: int) -> int {
        choose|i: int| 0 <= i < self.rows.len() && (#[trigger] self.rows[i]).id == id
    }

    /// Whether the counter has run past the last identifier.
    pub open spec fn exhausted(self) -> bool {
        self.next_id > MAX_ID
    }

    /// The table after a successful insert.
    pub open spec fn insert(self, name: Seq<char>, email: Seq<char>) -> TableState {
        TableState {
            rows: self.rows.push(Record { id: self.next_id, name, email }),
            next_id: self.next_id + 1,
        }
    }

    /// The table after an update.
    pub open spec fn update(self, id: int, name: Seq<char>, email: Seq<char>) -> TableState {
        TableState { rows: self.rows.map_values(overwrite(id, name, email)), next_id: self.next_id }
    }

    /// The table after a delete.
    pub open spec fn delete(self, id: int) -> TableState {
        TableState { rows: self.rows.filter(other_than(id)), next_id: self.next_id }
    }

    /// The rows as a full-table read lists them.
    pub open spec fn users(self) -> Seq<UserView> {
        self.rows.map_values(|row: Record| row.user())
    }

    /// The number of rows that a statement keyed by this identifier matches.
    pub open spec fn matching(self, id: int) -> nat {
        if self.has(id) {
            1
        } else {
            0
        }
    }

    /// Whether the table refuses the statement. Only an insert can fail, and
    /// only when no identifier is left.
    pub open spec fn rejects(self, statement: StatementView) -> bool {
        statement is InsertUser && self.exhausted()
    }

    /// The table after the statement, refused or not.
    pub open spec fn after(self, statement: StatementView) -> TableState {
        match statement {
            StatementView::CreateTable => self,
            StatementView::SelectUsers => self,
            StatementView::InsertUser { name, email } => if self.exhausted() {
                self
            } else {
                self.insert(name, email)
            },
            StatementView::UpdateUser { id, name, email } => self.update(id, name, email),
            StatementView::DeleteUser { id } => self.delete(id),
        }
    }

    /// The number of rows that the statement, not refused, reports as affected.
    pub open spec fn affected(self, statement: StatementView) -> nat {
        match statement {
            StatementView::CreateTable => 0,
            StatementView::SelectUsers => self.rows.len(),
            StatementView::InsertUser { .. } => 1,
            StatementView::UpdateUser { id, .. } => self.matching(id),
            StatementView::DeleteUser { id } => self.matching(id),
        }
    }

    /// The rows that the statement, not refused, returns.
    pub open spec fn returned(self, statement: StatementView) -> Seq<UserView> {
        if statement is SelectUsers {
            self.users()
        } else {
            Seq::empty()
        }
    }
}

/// What the table reports when no identifier is left.
pub open spec fn exhausted_text() -> Seq<char> {
    "nextval: reached maximum value of sequence \"users_id_seq\" (2147483647)"@
}

/// A sequence without the identifier loses nothing to a delete.
pub proof fn lemma_delete_absent(rows: Seq<Record>, id: int)
    requires
        forall|i: int| 0 <= i < rows.len() ==> (#[trigger] rows[i]).id != id,
    ensures
        rows.filter(other_than(id)) == rows,
    decreases rows.len(),
{
    reveal(Seq::filter);
    if rows.len() > 0 {
        let front = rows.drop_last();
        assert forall|i: int| 0 <= i < front.len() implies (#[trigger] front[i]).id != id by {
            assert(front[i] == rows[i]);
        }
        lemma_delete_absent(front, id);
        assert(front.push(rows.last()) =~= rows);
    }
}

/// Where identifiers are distinct, a delete takes out the one row that has
/// the identifier and keeps the rest in place.
pub proof fn lemma_delete_present(rows: Seq<Record>, id: int, at: int)
    requires
        0 <= at < rows.len(),
        rows[at].id == id,
        forall|i: int, j: int|
            0 <= i < j < rows.len() ==> (#[trigger] rows[i]).id != (#[trigger] rows[j]).id,
    ensures
        rows.filter(other_than(id)) == rows.remove(at),
    decreases rows.len(),
{
    reveal(Seq::filter);
    let front = rows.drop_last();
    assert forall|i: int, j: int| 0 <= i < j < front.len() implies (#[trigger] front[i]).id != (
    #[trigger] front[j]).id by {
        assert(front[i] == rows[i] && front[j] == rows[j]);
    }
    if at == rows.len() - 1 {
        assert forall|i: int| 0 <= i < front.len() implies (#[trigger] front[i]).id != id by {
            assert(front[i] == rows[i]);
        }
        lemma_delete_absent(front, id);
        assert(rows.remove(at) =~= front);
    } else {
        assert(rows[at].id != rows[rows.len() - 1].id);
        assert(front[at] == rows[at]);
        lemma_delete_present(front, id, at);
        assert(front.remove(at).push(rows.last()) =~= rows.remove(at));
    }
}

/// A row as the in-memory table holds it.
#[derive(Debug)]
struct StoredRecord {
    id: i32,
    name: String,
    email: String,
}

impl StoredRecord {
    spec fn record(self) -> Record {
        Record { id: self.id as int, name: self.name@, email: self.email@ }
    }
}

/// An in-memory users table that behaves as [`TableState`] says.
#[derive(Debug)]
pub struct Table {
    rows: Vec<StoredRecord>,
    next_id: i64,
}

impl View for Table {
    type V = TableState;

    closed spec fn view(&self) -> TableState {
        TableState {
            rows: self.rows@.map_values(|row: StoredRecord| row.record()),
            next_id: self.next_id as int,
        }
    }
}

impl Table {
    /// The invariant of the table: that of its state.
    pub open spec fn wf(&self) -> bool {
        self@.wf()
    }

    /// A table without rows whose first identifier is 1.
    pub fn new() -> (table: Table)
        ensures
            table.wf(),
            table@ == TableState::empty(),
    {
        let table = Table { rows: Vec::new(), next_id: 1 };
        assert(table@.rows =~= Seq::empty());
        table
    }

    /// Uses up identifiers without storing a row, as inserts that were
    /// rolled back do. The counter stops one past the last identifier.
    pub fn skip_ids(&mut self, count: u32)
        requires
            old(self).wf(),
        ensures
            final(self).wf(),
            final(self)@.rows == old(self)@.rows,
            final(self)@.next_id == if old(self)@.next_id + count <= MAX_ID + 1 {
                old(self)@.next_id + count
            } else {
                MAX_ID + 1
            },
    {
        let limit: i64 = MAX_ID as i64 + 1;
        let wanted: i64 = self.next_id + count as i64;
        self.next_id = if wanted <= limit {
            wanted
        } else {
            limit
        };
        proof {
            let before = old(self)@;
            assert(self@.rows == before.rows);
            assert forall|i: int| 0 <= i < self@.rows.len() implies 1 <= #[trigger] self@.rows[i].id
                < self@.next_id by {
                assert(1 <= before.rows[i].id < before.next_id);
            }
        }
    }

    /// The position of the row with this identifier.
    fn position(&self, id: i32) -> (found: Option<usize>)
        ensures
            match found {
                Some(at) => at < self.rows.len() && self.rows[at as int].id == id,
                None => forall|i: int| 0 <= i < self.rows.len() ==> self.rows[i].id != id,
            },
    {
        let mut i: usize = 0;
        while i < self.rows.len()
            invariant
                i <= self.rows.len(),
                forall|j: int| 0 <= j < i ==> self.rows[j].id != id,
            decreases self.rows.len() - i,
        {
            if self.rows[i].id == id {
                return Some(i);
            }
            i += 1;
        }
        None
    }

    /// Adds a row under the next identifier, unless none is left.
    fn insert(&mut self, name: String, email: String) -> (outcome: Result<u64, StoreError>)
        requires
            old(self).wf(),
        ensures
            final(self).wf(),
            old(self)@.exhausted() ==> *final(self) == *old(self) && outcome is Err
                && outcome->Err_0@ == exhausted_text(),
            !old(self)@.exhausted() ==> final(self)@ == old(self)@.insert(name@, email@)
                && outcome == Ok::<u64, StoreError>(1),
    {
        if self.next_id > MAX_ID as i64 {
            return Err(
                StoreError::new(
                    "nextval: reached maximum value of sequence \"users_id_seq\" (2147483647)".to_owned(),
                ),
            );
        }
        let id: i32 = self.next_id as i32;
        self.rows.push(StoredRecord { id, name, email });
        self.next_id = self.next_id + 1;
        assert(self@.rows =~= old(self)@.insert(name@, email@).rows);
        Ok(1)
    }

    /// Overwrites name and email of the row with this identifier.
    fn update(&mut self, id: i32, name: String, email: String) -> (count: u64)
        requires
            old(self).wf(),
        ensures
            final(self).wf(),
            final(self)@ == old(self)@.update(id as int, name@, email@),
            count == old(self)@.matching(id as int),
    {
        match self.position(id) {
            Some(at) => {
                self.rows.set(at, StoredRecord { id, name, email });
                proof {
                    let before = old(self)@.rows;
                    let after = before.map_values(overwrite(id as int, name@, email@));
                    assert(before[at as int].id == id);
                    assert forall|i: int| 0 <= i < before.len() implies #[trigger] self@.rows[i]
                        == after[i] by {
                        if i != at {
                            assert(before[i].id != before[at as int].id);
                        }
                    }
                    assert(self@.rows =~= after);
                }
                1
            },
            None => {
                proof {
                    let before = old(self)@.rows;
                    assert forall|i: int| 0 <= i < before.len() implies (#[trigger] before[i]).id
                        != id by {
                        assert(self.rows[i].id != id);
                    }
                    assert(before.map_values(overwrite(id as int, name@, email@)) =~= before);
                }
                0
            },
        }
    }

    /// Removes the row with this identifier.
    fn delete(&mut self, id: i32) -> (count: u64)
        requires
            old(self).wf(),
        ensures
            final(self).wf(),
            final(self)@ == old(self)@.delete(id as int),
            count == old(self)@.matching(id as int),
    {
        match self.position(id) {
            Some(at) => {
                self.rows.remove(at);
                proof {
                    let before = old(self)@.rows;
                    assert(before[at as int].id == id);
                    lemma_delete_present(before, id as int, at as int);
                    assert(self@.rows =~= before.remove(at as int));
                }
                1
            },
            None => {
                proof {
                    let before = old(self)@.rows;
                    assert forall|i: int| 0 <= i < before.len() implies (#[trigger] before[i]).id
                        != id by {
                        assert(self.rows[i].id != id);
                    }
                    lemma_delete_absent(before, id as int);
                }
                0
            },
        }
    }

    /// The rows as users, oldest first.
    pub fn list(&self) -> (users: Vec<User>)
        ensures
            user_views(users@) == self@.users(),
    {
        let mut users: Vec<User> = Vec::new();
        let mut i: usize = 0;
        while i < self.rows.len()
            invariant
                i <= self.rows.len(),
                users.len() == i,
                forall|j: int| 0 <= j < i ==> (#[trigger] users[j])@ == self.rows[j].record().user(),
            decreases self.rows.len() - i,
        {
            let row = &self.rows[i];
            users.push(User::from_columns(row.id, row.name.clone(), row.email.clone()));
            i += 1;
        }
        assert(user_views(users@) =~= self@.users());
        users
    }

    /// Runs a statement for its effect and reports the number of rows affected.
    pub fn execute(&mut self, statement: Statement) -> (outcome: Result<u64, StoreError>)
        requires
            old(self).wf(),
        ensures
            final(self).wf(),
            final(self)@ == old(self)@.after(statement@),
            outcome is Err <==> old(self)@.rejects(statement@),
            outcome is Err ==> outcome->Err_0@ == exhausted_text(),
            outcome is Ok ==> outcome->Ok_0 == old(self)@.affected(statement@),
    {
        match statement {
            Statement::CreateTable => Ok(0),
            Statement::SelectUsers => Ok(self.rows.len() as u64),
            Statement::InsertUser { name, email } => self.insert(name, email),
            Statement::UpdateUser { id, name, email } => Ok(self.update(id, name, email)),
            Statement::DeleteUser { id } => Ok(self.delete(id)),
        }
    }

    /// Runs a statement and hands out the rows it returns: those of the
    /// table for a full-table read, none for any other statement.
    pub fn query(&mut self, statement: Statement) -> (outcome: Result<Vec<User>, StoreError>)
        requires
            old(self).wf(),
        ensures
            final(self).wf(),
            final(self)@ == old(self)@.after(statement@),
            outcome is Err <==> old(self)@.rejects(statement@),
            outcome is Err ==> outcome->Err_0@ == exhausted_text(),
            outcome is Ok ==> user_views(outcome->Ok_0@) == old(self)@.returned(statement@),
    {
        match statement {
            Statement::SelectUsers => Ok(self.list()),
            other => match self.execute(other) {
                Ok(_) => {
                    let none: Vec<User> = Vec::new();
                    assert(user_views(none@) =~= Seq::empty());
                    Ok(none)
                },
                Err(error) => Err(error),
            },
        }
    }
}

} // verus!
