//! The statements the gateway sends to the database.
//!
//! Every statement is a fixed text with numbered placeholders plus the values
//! bound to them. Request data never reaches the text.

use vstd::prelude::*;

verus! {

/// A value bound to a placeholder.
#[derive(Debug, Clone, PartialEq, Eq)]
pub enum Param {
    Text(String),
    Int(i32),
}

/// The mathematical value of a [`Param`].
pub ghost enum ParamView {
    Text(Seq<char>),
    Int(int),
}

impl View for Param {
    type V = ParamView;

    open spec fn view(&self) -> ParamView {
        match *self {
            Param::Text(s) => ParamView::Text(s@),
            Param::Int(i) => ParamView::Int(i as int),
        }
    }
}

/// The views of a sequence of parameters, in order.
pub open spec fn param_views(params: Seq<Param>) -> Seq<ParamView> {
    params.map_values(|p: Param| p@)
}

/// One statement of the gateway.
#[derive(Debug, Clone, PartialEq, Eq)]
pub enum Statement {
    /// Create the users table unless it is already there.
    CreateTable,
    /// Read every row of the users table.
    SelectUsers,
    /// Add a row; the database assigns the identifier.
    InsertUser { name: String, email: String },
    /// Overwrite name and email of the row with this identifier, if any.
    UpdateUser { id: i32, name: String, email: String },
    /// Remove the row with this identifier, if any.
    DeleteUser { id: i32 },
}

/// The mathematical value of a [`Statement`].
pub ghost enum StatementView {
    CreateTable,
    SelectUsers,
    InsertUser { name: Seq<char>, email: Seq<char> },
    UpdateUser { id: int, name: Seq<char>, email: Seq<char> },
    DeleteUser { id: int },
}

impl View for Statement {
    type V = StatementView;

    open spec fn view(&self) -> StatementView {
        match *self {
            Statement::CreateTable => StatementView::CreateTable,
            Statement::SelectUsers => StatementView::SelectUsers,
            Statement::InsertUser { name, email } => StatementView::InsertUser {
                name: name@,
                email: email@,
            },
            Statement::UpdateUser { id, name, email } => StatementView::UpdateUser {
                id: id as int,
                name: name@,
                email: email@,
            },
            Statement::DeleteUser { id } => StatementView::DeleteUser { id: id as int },
        }
    }
}

impl StatementView {
    /// The statement text. It depends on the kind of statement alone.
    pub open spec fn sql(self) -> Seq<char> {
        match self {
            StatementView::CreateTable =>
                "CREATE TABLE IF NOT EXISTS users (id SERIAL PRIMARY KEY, name TEXT NOT NULL, email TEXT NOT NULL)"@,
            StatementView::SelectUsers => "SELECT id, name, email FROM users"@,
            StatementView::InsertUser { .. } => "INSERT INTO users (name, email) VALUES ($1, $2)"@,
            StatementView::UpdateUser { .. } =>
                "UPDATE users SET name = $1, email = $2 WHERE id = $3"@,
            StatementView::DeleteUser { .. } => "DELETE FROM users WHERE id = $1"@,
        }
    }

    /// The values bound to `$1`, `$2`, ... in that order.
    pub open spec fn bound(self) -> Seq<ParamView> {
        match self {
            StatementView::CreateTable => seq![],
            StatementView::SelectUsers => seq![],
            StatementView::InsertUser { name, email } => seq![
                ParamView::Text(name),
                ParamView::Text(email),
            ],
            StatementView::UpdateUser { id, name, email } => seq![
                ParamView::Text(name),
                ParamView::Text(email),
                ParamView::Int(id),
            ],
            StatementView::DeleteUser { id } => seq![ParamView::Int(id)],
        }
    }

    /// Whether two statements are of the same kind.
    pub open spec fn same_kind(self, other: StatementView) -> bool {
        match self {
            StatementView::CreateTable => other is CreateTable,
            StatementView::SelectUsers => other is SelectUsers,
            StatementView::InsertUser { .. } => other is InsertUser,
            StatementView::UpdateUser { .. } => other is UpdateUser,
            StatementView::DeleteUser { .. } => other is DeleteUser,
        }
    }
}

impl Statement {
    /// The text to prepare.
    pub fn sql(&self) -> (text: &'static str)
        ensures
            text@ == self@.sql(),
    {
        match self {
            Statement::CreateTable =>
                "CREATE TABLE IF NOT EXISTS users (id SERIAL PRIMARY KEY, name TEXT NOT NULL, email TEXT NOT NULL)",
            Statement::SelectUsers => "SELECT id, name, email FROM users",
            Statement::InsertUser { .. } => "INSERT INTO users (name, email) VALUES ($1, $2)",
            Statement::UpdateUser { .. } => "UPDATE users SET name = $1, email = $2 WHERE id = $3",
            Statement::DeleteUser { .. } => "DELETE FROM users WHERE id = $1",
        }
    }

    /// The values to bind, in placeholder order.
    pub fn params(&self) -> (params: Vec<Param>)
        ensures
            param_views(params@) == self@.bound(),
    {
        let mut params: Vec<Param> = Vec::new();
        match self {
            Statement::CreateTable => {},
            Statement::SelectUsers => {},
            Statement::InsertUser { name, email } => {
                params.push(Param::Text(name.clone()));
                params.push(Param::Text(email.clone()));
            },
            Statement::UpdateUser { id, name, email } => {
                params.push(Param::Text(name.clone()));
                params.push(Param::Text(email.clone()));
                params.push(Param::Int(*id));
            },
            Statement::DeleteUser { id } => {
                params.push(Param::Int(*id));
            },
        }
        assert(param_views(params@) =~= self@.bound());
        params
    }
}

/// Parameter binding: whatever the bound values hold, the text that the
/// database parses is that of the statement's kind.
pub proof fn text_is_independent_of_values(a: StatementView, b: StatementView)
    requires
        a.same_kind(b),
    ensures
        a.sql() == b.sql(),
{
}

} // verus!
