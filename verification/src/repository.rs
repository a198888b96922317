//! The user repository: the one place that knows the shape of the SQL.
//!
//! Each operation yields the statement to run: a fixed text and the values
//! bound to its `?` placeholders, in order. A caller's value reaches the store
//! only as a bound parameter and never becomes part of the text.

use vstd::prelude::*;

verus! {

/// A value bound to one placeholder of a statement.
#[derive(Debug, Clone, Copy, PartialEq, Eq)]
pub enum Param<'a> {
    Int(i64),
    Text(&'a str),
}

/// A bound value as contracts see it.
pub enum ParamView {
    Int(i64),
    Text(Seq<char>),
}

impl<'a> View for Param<'a> {
    type V = ParamView;

    open spec fn view(&self) -> ParamView {
        match *self {
            Param::Int(n) => ParamView::Int(n),
            Param::Text(s) => ParamView::Text(s@),
        }
    }
}

/// A statement as contracts see it: its text and its bound values in order.
pub struct StatementView {
    pub sql: Seq<char>,
    pub params: Seq<ParamView>,
}

/// A parameterised statement, ready to be handed to the store.
#[derive(Debug, Clone, PartialEq, Eq)]
pub struct Statement<'a> {
    pub sql: &'static str,
    pub params: Vec<Param<'a>>,
}

impl<'a> View for Statement<'a> {
    type V = StatementView;

    open spec fn view(&self) -> StatementView {
        StatementView {
            sql: self.sql@,
            params: Seq::new(self.params@.len(), |i: int| self.params@[i]@),
        }
    }
}

/// How many `?` placeholders the first `n` characters of `sql` hold.
pub open spec fn placeholders_in(sql: Seq<char>, n: nat) -> nat
    decreases n,
{
    if n == 0 || n > sql.len() {
        0
    } else {
        placeholders_in(sql, (n - 1) as nat) + if sql[n - 1] == '?' { 1nat } else { 0nat }
    }
}

/// How many `?` placeholders `sql` holds.
pub open spec fn placeholders(sql: Seq<char>) -> nat {
    placeholders_in(sql, sql.len())
}

impl StatementView {
    /// Every placeholder has its value and every value its placeholder.
    pub open spec fn well_formed(self) -> bool {
        placeholders(self.sql) == self.params.len()
    }
}

/// The text that reads every row of the table.
pub open spec fn select_all_sql() -> Seq<char> {
    "SELECT id, username, email FROM users"@
}

/// The text that inserts one row and hands it back with its identifier.
pub open spec fn insert_sql() -> Seq<char> {
    "INSERT INTO users (username, email) VALUES (?, ?) RETURNING id, username, email"@
}

/// The text that reads the row with a given identifier.
pub open spec fn select_by_id_sql() -> Seq<char> {
    "SELECT id, username, email FROM users WHERE id = ?"@
}

/// The text that deletes the row with a given identifier and hands it back.
pub open spec fn delete_by_id_sql() -> Seq<char> {
    "DELETE FROM users WHERE id = ? RETURNING id, username, email"@
}

/// The stateless repository of users.
#[derive(Debug, Clone, Copy, PartialEq, Eq)]
pub struct UserRepository;

impl UserRepository {
    /// Lists every user: the fixed text, with nothing bound.
    pub fn list_users() -> (statement: Statement<'static>)
        ensures
            statement@ == (StatementView { sql: select_all_sql(), params: Seq::empty() }),
            statement@.well_formed(),
    {
        let statement = Statement {
            sql: "SELECT id, username, email FROM users",
            params: Vec::new(),
        };
        proof {
            assert(statement@.params =~= Seq::empty());
            lemma_select_all_placeholders();
        }
        statement
    }

    /// Creates a user: the fixed insert text, with `username` and `email`
    /// bound in that order, each exactly as given. Nothing is checked, so
    /// every pair of texts yields a statement, equal pairs the same one.
    pub fn create_user<'a>(username: &'a str, email: &'a str) -> (statement: Statement<'a>)
        ensures
            statement@ == (StatementView {
                sql: insert_sql(),
                params: seq![ParamView::Text(username@), ParamView::Text(email@)],
            }),
            statement@.well_formed(),
    {
        let mut params: Vec<Param<'a>> = Vec::new();
        params.push(Param::Text(username));
        params.push(Param::Text(email));
        let statement = Statement {
            sql: "INSERT INTO users (username, email) VALUES (?, ?) RETURNING id, username, email",
            params,
        };
        proof {
            assert(statement@.params =~= seq![
                ParamView::Text(username@),
                ParamView::Text(email@),
            ]);
            lemma_insert_placeholders();
        }
        statement
    }

    /// Reads one user: the fixed select text, with `user_id` bound.
    pub fn get_user_by_id(user_id: i64) -> (statement: Statement<'static>)
        ensures
            statement@ == (StatementView {
                sql: select_by_id_sql(),
                params: seq![ParamView::Int(user_id)],
            }),
            statement@.well_formed(),
    {
        let mut params: Vec<Param<'static>> = Vec::new();
        params.push(Param::Int(user_id));
        let statement = Statement {
            sql: "SELECT id, username, email FROM users WHERE id = ?",
            params,
        };
        proof {
            assert(statement@.params =~= seq![ParamView::Int(user_id)]);
            lemma_select_by_id_placeholders();
        }
        statement
    }

    /// Deletes one user and asks for the deleted row in the same statement:
    /// the fixed delete text, with `user_id` bound.
    pub fn delete_user(user_id: i64) -> (statement: Statement<'static>)
        ensures
            statement@ == (StatementView {
                sql: delete_by_id_sql(),
                params: seq![ParamView::Int(user_id)],
            }),
            statement@.well_formed(),
    {
        let mut params: Vec<Param<'static>> = Vec::new();
        params.push(Param::Int(user_id));
        let statement = Statement {
            sql: "DELETE FROM users WHERE id = ? RETURNING id, username, email",
            params,
        };
        proof {
            assert(statement@.params =~= seq![ParamView::Int(user_id)]);
            lemma_delete_by_id_placeholders();
        }
        statement
    }
}

/// The text that lists the table holds no placeholder.
pub proof fn lemma_select_all_placeholders()
    ensures
        placeholders(select_all_sql()) == 0,
{
    reveal_strlit("SELECT id, username, email FROM users");
    reveal_with_fuel(placeholders_in, 40);
}

/// The insert text holds two placeholders.
pub proof fn lemma_insert_placeholders()
    ensures
        placeholders(insert_sql()) == 2,
{
    reveal_strlit(
        "INSERT INTO users (username, email) VALUES (?, ?) RETURNING id, username, email",
    );
    reveal_with_fuel(placeholders_in, 82);
}

/// The text that reads one row holds one placeholder.
pub proof fn lemma_select_by_id_placeholders()
    ensures
        placeholders(select_by_id_sql()) == 1,
{
    reveal_strlit("SELECT id, username, email FROM users WHERE id = ?");
    reveal_with_fuel(placeholders_in, 52);
}

/// The text that deletes one row holds one placeholder.
pub proof fn lemma_delete_by_id_placeholders()
    ensures
        placeholders(delete_by_id_sql()) == 1,
{
    reveal_strlit("DELETE FROM users WHERE id = ? RETURNING id, username, email");
    reveal_with_fuel(placeholders_in, 62);
}

} // verus!
