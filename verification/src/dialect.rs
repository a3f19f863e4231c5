//! The three SQL dialects and how each writes an identifier.

use vstd::prelude::*;
use vstd::string::*;

verus! {

/// A relational engine that the gateway speaks to.
#[derive(Debug, Clone, Copy, PartialEq, Eq, Structural)]
pub enum Dialect {
    MySql,
    Postgres,
    Sqlite,
}

/// The character that the dialect puts on both sides of an identifier.
pub open spec fn quote_mark(dialect: Dialect) -> Seq<char> {
    match dialect {
        Dialect::MySql => "`"@,
        Dialect::Postgres => "\""@,
        Dialect::Sqlite => "\""@,
    }
}

/// An identifier between the dialect's quote marks. The identifier itself is
/// taken as it is.
pub open spec fn quoted(dialect: Dialect, ident: Seq<char>) -> Seq<char> {
    quote_mark(dialect) + ident + quote_mark(dialect)
}

/// A table's name as a statement refers to it: quoted, and on Postgres within
/// the `public` schema.
pub open spec fn table_ref(dialect: Dialect, table: Seq<char>) -> Seq<char> {
    match dialect {
        Dialect::Postgres => "public."@ + quoted(dialect, table),
        _ => quoted(dialect, table),
    }
}

fn mark(dialect: Dialect) -> (r: &'static str)
    ensures
        r@ == quote_mark(dialect),
{
    match dialect {
        Dialect::MySql => "`",
        Dialect::Postgres => "\"",
        Dialect::Sqlite => "\"",
    }
}

/// Quotes an identifier for the dialect.
pub fn quote(dialect: Dialect, ident: &str) -> (r: String)
    ensures
        r@ == quoted(dialect, ident@),
{
    let mut out = String::from_str(mark(dialect));
    out.append(ident);
    out.append(mark(dialect));
    out
}

/// Writes a reference to a table for the dialect.
pub fn table(dialect: Dialect, name: &str) -> (r: String)
    ensures
        r@ == table_ref(dialect, name@),
{
    match dialect {
        Dialect::Postgres => {
            let mut out = String::from_str("public.");
            let q = quote(dialect, name);
            out.append(q.as_str());
            out
        },
        _ => quote(dialect, name),
    }
}

} // verus!
