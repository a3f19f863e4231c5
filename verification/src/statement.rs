//! A statement ready to run: its text and the values bound to its
//! placeholders.

use crate::text::optional_string;
use vstd::prelude::*;
use vstd::string::*;

verus! {

/// One SQL statement. A bound value is text, or `None` for SQL NULL.
#[derive(Debug, Clone, PartialEq, Eq)]
pub struct Statement {
    pub sql: String,
    pub binds: Vec<Option<String>>,
}

/// The mathematical model of a [`Statement`].
pub struct StatementModel {
    pub sql: Seq<char>,
    pub binds: Seq<Option<Seq<char>>>,
}

impl View for Statement {
    type V = StatementModel;

    open spec fn view(&self) -> StatementModel {
        StatementModel { sql: self.sql@, binds: self.binds@.map_values(|b: Option<String>| optional_string(b)) }
    }
}

/// A statement without bound values.
pub open spec fn plain(sql: Seq<char>) -> StatementModel {
    StatementModel { sql, binds: Seq::empty() }
}

/// A statement with one bound text.
pub open spec fn bound_one(sql: Seq<char>, a: Seq<char>) -> StatementModel {
    StatementModel { sql, binds: seq![Some(a)] }
}

/// A statement with two bound texts.
pub open spec fn bound_two(sql: Seq<char>, a: Seq<char>, b: Seq<char>) -> StatementModel {
    StatementModel { sql, binds: seq![Some(a), Some(b)] }
}

/// How a statement is to be run.
#[derive(Debug, Clone, PartialEq, Eq)]
pub enum Plan {
    /// Fetch the rows that the statement yields.
    Fetch(Statement),
    /// Run the statement and report how many rows it affected.
    Execute(Statement),
    /// Run the text as it stands, without preparing it: for a statement that
    /// the prepared-statement protocol does not take.
    Script(Statement),
}

/// The mathematical model of a [`Plan`].
pub enum PlanModel {
    Fetch(StatementModel),
    Execute(StatementModel),
    Script(StatementModel),
}

impl View for Plan {
    type V = PlanModel;

    open spec fn view(&self) -> PlanModel {
        match self {
            Plan::Fetch(st) => PlanModel::Fetch(st@),
            Plan::Execute(st) => PlanModel::Execute(st@),
            Plan::Script(st) => PlanModel::Script(st@),
        }
    }
}

impl Statement {
    /// A statement without bound values.
    pub fn unbound(sql: String) -> (r: Statement)
        ensures
            r@ == plain(sql@),
    {
        let r = Statement { sql, binds: Vec::new() };
        assert(r@.binds == Seq::<Option<Seq<char>>>::empty());
        r
    }

    /// A statement with one bound text.
    pub fn with_one(sql: String, a: &str) -> (r: Statement)
        ensures
            r@ == bound_one(sql@, a@),
    {
        let mut binds: Vec<Option<String>> = Vec::new();
        binds.push(Some(String::from_str(a)));
        let r = Statement { sql, binds };
        assert(r@.binds == seq![Some(a@)]);
        r
    }

    /// A statement with two bound texts.
    pub fn with_two(sql: String, a: &str, b: &str) -> (r: Statement)
        ensures
            r@ == bound_two(sql@, a@, b@),
    {
        let mut binds: Vec<Option<String>> = Vec::new();
        binds.push(Some(String::from_str(a)));
        binds.push(Some(String::from_str(b)));
        let r = Statement { sql, binds };
        assert(r@.binds == seq![Some(a@), Some(b@)]);
        r
    }
}

} // verus!
