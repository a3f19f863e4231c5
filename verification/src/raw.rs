//! Raw statements: telling a statement that reads from one that changes, and
//! the message that reports a change.

use crate::dialect::Dialect;
use crate::statement::{plain, Plan, PlanModel, Statement};
use crate::text::{decimal, push_decimal, starts_with, to_chars, to_uppercase, trim, trimmed, unicode_uppercase};
use vstd::prelude::*;
use vstd::string::*;

verus! {

/// Whether an upper-case text begins with one of the dialect's read-only
/// keywords.
pub open spec fn begins_with_read_keyword(dialect: Dialect, upper: Seq<char>) -> bool {
    match dialect {
        Dialect::MySql => "SELECT"@.is_prefix_of(upper) || "SHOW"@.is_prefix_of(upper)
            || "DESCRIBE"@.is_prefix_of(upper) || "EXPLAIN"@.is_prefix_of(upper),
        Dialect::Postgres => "SELECT"@.is_prefix_of(upper) || "SHOW"@.is_prefix_of(upper)
            || "EXPLAIN"@.is_prefix_of(upper),
        Dialect::Sqlite => "SELECT"@.is_prefix_of(upper) || "PRAGMA"@.is_prefix_of(upper)
            || "EXPLAIN"@.is_prefix_of(upper),
    }
}

/// Whether a statement only reads: without the whitespace around it and in
/// upper case, it begins with one of the dialect's read-only keywords.
pub open spec fn reads_only(dialect: Dialect, sql: Seq<char>) -> bool {
    begins_with_read_keyword(dialect, unicode_uppercase(trimmed(sql)))
}

/// Whitespace before a statement does not change whether it only reads.
pub proof fn leading_whitespace_is_ignored(dialect: Dialect, space: Seq<char>, sql: Seq<char>)
    requires
        forall|k: int| 0 <= k < space.len() ==> crate::text::unicode_whitespace(space[k]),
    ensures
        reads_only(dialect, space + sql) == reads_only(dialect, sql),
{
    crate::text::trimmed_ignores_leading_whitespace(space, sql);
}

/// Two statements that are the same in upper case, the whitespace around
/// them left off, are told apart by nothing: letter case does not count.
pub proof fn letter_case_is_ignored(dialect: Dialect, a: Seq<char>, b: Seq<char>)
    requires
        unicode_uppercase(trimmed(a)) == unicode_uppercase(trimmed(b)),
    ensures
        reads_only(dialect, a) == reads_only(dialect, b),
{
}

/// Whether an upper-case text begins with one of the dialect's read-only
/// keywords.
pub fn begins_read_only(dialect: Dialect, upper: &str) -> (r: bool)
    ensures
        r == begins_with_read_keyword(dialect, upper@),
{
    let chars = to_chars(upper);
    match dialect {
        Dialect::MySql => starts_with(&chars, "SELECT") || starts_with(&chars, "SHOW")
            || starts_with(&chars, "DESCRIBE") || starts_with(&chars, "EXPLAIN"),
        Dialect::Postgres => starts_with(&chars, "SELECT") || starts_with(&chars, "SHOW")
            || starts_with(&chars, "EXPLAIN"),
        Dialect::Sqlite => starts_with(&chars, "SELECT") || starts_with(&chars, "PRAGMA")
            || starts_with(&chars, "EXPLAIN"),
    }
}

/// Whether a raw statement is a query: letter case and the whitespace around
/// the statement do not count.
pub fn is_query(dialect: Dialect, sql: &str) -> (r: bool)
    ensures
        r == reads_only(dialect, sql@),
{
    let core = trim(sql);
    let upper = to_uppercase(core.as_str());
    begins_read_only(dialect, upper.as_str())
}

/// How a raw statement is run: a query is fetched, anything else is executed.
/// The statement's text is handed on unchanged.
pub open spec fn raw_plan(dialect: Dialect, sql: Seq<char>) -> PlanModel {
    if reads_only(dialect, sql) {
        PlanModel::Fetch(plain(sql))
    } else {
        PlanModel::Execute(plain(sql))
    }
}

/// Plans a raw statement.
pub fn execute_raw(dialect: Dialect, sql: &str) -> (r: Plan)
    ensures
        r@ == raw_plan(dialect, sql@),
{
    let st = Statement::unbound(String::from_str(sql));
    if is_query(dialect, sql) {
        Plan::Fetch(st)
    } else {
        Plan::Execute(st)
    }
}

/// The message that reports how many rows a statement affected.
pub open spec fn success_text(affected: u64) -> Seq<char> {
    "Success: "@ + decimal(affected as nat) + " rows affected"@
}

/// The message that reports how many rows a statement affected.
pub fn success_message(affected: u64) -> (r: String)
    ensures
        r@ == success_text(affected),
{
    let mut out = String::from_str("Success: ");
    push_decimal(&mut out, affected);
    out.append(" rows affected");
    out
}

} // verus!
