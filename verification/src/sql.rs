//! The statements the user service sends to the relational store. Each is
//! plain parameterised SQL: the text never holds a value, the values travel
//! beside it in the order of the `?` marks.

use vstd::prelude::*;
use crate::handlers::PROBE_VALUE;
use crate::model::{UpdateRequest, UserRequest};

verus! {

/// A value bound to one `?` of a statement.
#[derive(Debug, PartialEq, Eq)]
pub enum Param {
    Int(i64),
    Text(String),
}

/// A bound value as a mathematical value.
pub enum ParamView {
    Int(int),
    Text(Seq<char>),
}

impl View for Param {
    type V = ParamView;

    open spec fn view(&self) -> ParamView {
        match self {
            Param::Int(n) => ParamView::Int(*n as int),
            Param::Text(t) => ParamView::Text(t@),
        }
    }
}

/// A statement ready to be sent: its text and the values for its `?` marks.
#[derive(Debug, PartialEq, Eq)]
pub struct Statement {
    pub sql: String,
    pub params: Vec<Param>,
}

/// A statement as a mathematical value.
pub struct StatementView {
    pub sql: Seq<char>,
    pub params: Seq<ParamView>,
}

impl View for Statement {
    type V = StatementView;

    open spec fn view(&self) -> StatementView {
        StatementView { sql: self.sql@, params: self.params@.map_values(|p: Param| p@) }
    }
}

impl Statement {
    /// Selects every user, in ascending order of identifier.
    pub fn find_all() -> (s: Statement)
        ensures
            s@.sql
                == "SELECT id, name, mailadress, password, created_at, updated_at, deleted_at FROM user ORDER BY id"@,
            s@.params == Seq::<ParamView>::empty(),
    {
        let s = Statement {
            sql: String::from_str(
                "SELECT id, name, mailadress, password, created_at, updated_at, deleted_at FROM user ORDER BY id",
            ),
            params: Vec::new(),
        };
        assert(s@.params =~= Seq::<ParamView>::empty());
        s
    }

    /// Selects the user with identifier `id`.
    pub fn find_by_id(id: i32) -> (s: Statement)
        ensures
            s@.sql == "SELECT * FROM user WHERE id = ?;"@,
            s@.params == seq![ParamView::Int(id as int)],
    {
        let mut params: Vec<Param> = Vec::new();
        params.push(Param::Int(id as i64));
        let s = Statement { sql: String::from_str("SELECT * FROM user WHERE id = ?;"), params };
        assert(s@.params =~= seq![ParamView::Int(id as int)]);
        s
    }

    /// Inserts a user with the fields of `user`; the store sets both
    /// `created_at` and `updated_at` to its current time.
    pub fn create(user: &UserRequest) -> (s: Statement)
        ensures
            s@.sql
                == "INSERT INTO user (name, mailadress, password, created_at, updated_at) VALUES (?, ?, ?, now(), now());"@,
            s@.params == seq![
                ParamView::Text(user@.name),
                ParamView::Text(user@.mailadress),
                ParamView::Text(user@.password),
            ],
    {
        let mut params: Vec<Param> = Vec::new();
        params.push(Param::Text(user.name.clone()));
        params.push(Param::Text(user.mailadress.clone()));
        params.push(Param::Text(user.password.clone()));
        let s = Statement {
            sql: String::from_str(
                "INSERT INTO user (name, mailadress, password, created_at, updated_at) VALUES (?, ?, ?, now(), now());",
            ),
            params,
        };
        assert(s@.params =~= seq![
            ParamView::Text(user@.name),
            ParamView::Text(user@.mailadress),
            ParamView::Text(user@.password),
        ]);
        s
    }

    /// Gives user `id` the password of `user`; the store sets `updated_at`
    /// to its current time.
    pub fn update(id: u32, user: &UpdateRequest) -> (s: Statement)
        ensures
            s@.sql == "UPDATE user SET password = ?, updated_at = now() WHERE id = ?;"@,
            s@.params == seq![ParamView::Text(user@.password), ParamView::Int(id as int)],
    {
        let mut params: Vec<Param> = Vec::new();
        params.push(Param::Text(user.password.clone()));
        params.push(Param::Int(id as i64));
        let s = Statement {
            sql: String::from_str(
                "UPDATE user SET password = ?, updated_at = now() WHERE id = ?;",
            ),
            params,
        };
        assert(s@.params =~= seq![ParamView::Text(user@.password), ParamView::Int(id as int)]);
        s
    }

    /// Soft-deletes user `id`: the store sets `deleted_at` to its current
    /// time.
    pub fn delete_put(id: u32) -> (s: Statement)
        ensures
            s@.sql == "UPDATE user SET deleted_at = now() WHERE id = ?;"@,
            s@.params == seq![ParamView::Int(id as int)],
    {
        let mut params: Vec<Param> = Vec::new();
        params.push(Param::Int(id as i64));
        let s = Statement {
            sql: String::from_str("UPDATE user SET deleted_at = now() WHERE id = ?;"),
            params,
        };
        assert(s@.params =~= seq![ParamView::Int(id as int)]);
        s
    }

    /// Removes user `id`.
    pub fn delete(id: u32) -> (s: Statement)
        ensures
            s@.sql == "DELETE FROM user WHERE id = ?"@,
            s@.params == seq![ParamView::Int(id as int)],
    {
        let mut params: Vec<Param> = Vec::new();
        params.push(Param::Int(id as i64));
        let s = Statement { sql: String::from_str("DELETE FROM user WHERE id = ?"), params };
        assert(s@.params =~= seq![ParamView::Int(id as int)]);
        s
    }

    /// The liveness probe: asks the store to send the probe value back.
    pub fn alive() -> (s: Statement)
        ensures
            s@.sql == "SELECT ?;"@,
            s@.params == seq![ParamView::Int(PROBE_VALUE as int)],
    {
        let mut params: Vec<Param> = Vec::new();
        params.push(Param::Int(PROBE_VALUE as i64));
        let s = Statement { sql: String::from_str("SELECT ?;"), params };
        assert(s@.params =~= seq![ParamView::Int(PROBE_VALUE as int)]);
        s
    }
}

} // verus!
