//! A whole request against the users table: what the table holds afterwards
//! and what the caller is told.

use vstd::prelude::*;
use vstd::pervasive::unreached;
use crate::handlers::{Request, RequestView, Step, after_read, after_write, begin};
use crate::response::{Response, ResponseView};
use crate::table::{exhausted_text, Table, TableState};

verus! {

impl TableState {
    /// The table after the request.
    pub open spec fn settled(self, request: RequestView) -> TableState {
        match request {
            RequestView::AddUser { name, email } => if self.exhausted() {
                self
            } else {
                self.insert(name, email)
            },
            RequestView::GetUsers => self,
            RequestView::UpdateUser { id, name, email } => self.update(id, name, email),
            RequestView::DeleteUser { id } => self.delete(id),
        }
    }

    /// The response to the request.
    pub open spec fn answer(self, request: RequestView) -> ResponseView {
        match request {
            RequestView::AddUser { .. } => if self.exhausted() {
                ResponseView::failure(exhausted_text())
            } else {
                ResponseView::users(self.settled(request).users())
            },
            RequestView::GetUsers => ResponseView::users(self.users()),
            RequestView::UpdateUser { .. } => ResponseView::users(self.settled(request).users()),
            RequestView::DeleteUser { .. } => ResponseView::no_content(),
        }
    }
}

/// Serves one request from the in-memory table: runs each statement that the
/// handler asks for and hands it the outcome, until the handler is done.
pub fn serve(table: &mut Table, request: Request) -> (response: Response)
    requires
        old(table).wf(),
    ensures
        final(table).wf(),
        final(table)@ == old(table)@.settled(request@),
        response@ == old(table)@.answer(request@),
{
    match begin(request) {
        Step::Done { response } => response,
        Step::Read { statement } => after_read(table.query(statement)),
        Step::Write { statement, then } => {
            let written = table.execute(statement);
            match after_write(then, written) {
                Step::Done { response } => response,
                Step::Read { statement } => after_read(table.query(statement)),
                Step::Write { .. } => unreached(),
            }
        },
    }
}

} // verus!
