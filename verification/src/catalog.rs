//! The statements that ask an engine's catalog about tables, columns, keys
//! and sizes.

use crate::dialect::{quote, quoted, Dialect};
use crate::statement::{bound_one, bound_two, plain, Statement, StatementModel};
use vstd::prelude::*;
use vstd::string::*;

verus! {

/// The text that lists the base tables, without the engine's own.
pub open spec fn list_tables_text(dialect: Dialect) -> Seq<char> {
    match dialect {
        Dialect::MySql => "SHOW FULL TABLES WHERE Table_type = 'BASE TABLE'"@,
        Dialect::Postgres =>
            "SELECT table_name::text FROM information_schema.tables WHERE table_schema = 'public' AND table_type = 'BASE TABLE'"@,
        Dialect::Sqlite =>
            "SELECT name FROM sqlite_master WHERE type='table' AND name NOT LIKE 'sqlite_%'"@,
    }
}

/// The statement that lists the base tables.
pub fn list_tables(dialect: Dialect) -> (r: Statement)
    ensures
        r@ == plain(list_tables_text(dialect)),
{
    Statement::unbound(
        String::from_str(
            match dialect {
                Dialect::MySql => "SHOW FULL TABLES WHERE Table_type = 'BASE TABLE'",
                Dialect::Postgres =>
                    "SELECT table_name::text FROM information_schema.tables WHERE table_schema = 'public' AND table_type = 'BASE TABLE'",
                Dialect::Sqlite =>
                    "SELECT name FROM sqlite_master WHERE type='table' AND name NOT LIKE 'sqlite_%'",
            },
        ),
    )
}

/// The text that lists the views, on the engines that have the listing.
pub open spec fn list_views_text(dialect: Dialect) -> Option<Seq<char>> {
    match dialect {
        Dialect::MySql => Some("SHOW FULL TABLES WHERE Table_type = 'VIEW'"@),
        Dialect::Postgres => Some(
            "SELECT table_name::text FROM information_schema.views WHERE table_schema = 'public'"@,
        ),
        Dialect::Sqlite => None,
    }
}

/// The text that lists the stored functions, on the engines that have them.
pub open spec fn list_functions_text(dialect: Dialect) -> Option<Seq<char>> {
    match dialect {
        Dialect::MySql => Some(
            "SELECT CONVERT(ROUTINE_NAME USING utf8) FROM information_schema.ROUTINES WHERE ROUTINE_TYPE = 'FUNCTION' AND ROUTINE_SCHEMA = DATABASE()"@,
        ),
        Dialect::Postgres => Some(
            "SELECT routine_name::text FROM information_schema.routines WHERE routine_type = 'FUNCTION' AND routine_schema = 'public'"@,
        ),
        Dialect::Sqlite => None,
    }
}

/// The text that lists the stored procedures, on the engines that have them.
pub open spec fn list_procedures_text(dialect: Dialect) -> Option<Seq<char>> {
    match dialect {
        Dialect::MySql => Some(
            "SELECT CONVERT(ROUTINE_NAME USING utf8) FROM information_schema.ROUTINES WHERE ROUTINE_TYPE = 'PROCEDURE' AND ROUTINE_SCHEMA = DATABASE()"@,
        ),
        Dialect::Postgres => Some(
            "SELECT routine_name::text FROM information_schema.routines WHERE routine_type = 'PROCEDURE' AND routine_schema = 'public'"@,
        ),
        Dialect::Sqlite => None,
    }
}

/// The text that lists the databases with their sizes in bytes, on the
/// engines that hold several.
pub open spec fn list_databases_text(dialect: Dialect) -> Option<Seq<char>> {
    match dialect {
        Dialect::MySql => Some(
            "SELECT CONVERT(s.schema_name USING utf8) as schema_name, CAST(COALESCE(SUM(t.data_length + t.index_length), 0) AS SIGNED) as size FROM information_schema.schemata s LEFT JOIN information_schema.tables t ON s.schema_name = t.table_schema GROUP BY s.schema_name ORDER BY s.schema_name"@,
        ),
        Dialect::Postgres => Some(
            "SELECT datname::text, pg_database_size(datname) as size FROM pg_database WHERE datistemplate = false AND has_database_privilege(datname, 'CONNECT') ORDER BY datname"@,
        ),
        Dialect::Sqlite => None,
    }
}

/// An optional statement without bound values.
pub open spec fn optional_plain(sql: Option<Seq<char>>) -> Option<StatementModel> {
    match sql {
        Some(t) => Some(plain(t)),
        None => None,
    }
}

/// The view of an optional statement.
pub open spec fn optional_statement(st: Option<Statement>) -> Option<StatementModel> {
    match st {
        Some(s) => Some(s@),
        None => None,
    }
}

fn optional_unbound(sql: Option<&str>) -> (r: Option<Statement>)
    ensures
        optional_statement(r) == optional_plain(crate::text::optional_str(sql)),
{
    match sql {
        Some(t) => Some(Statement::unbound(String::from_str(t))),
        None => None,
    }
}

/// The statement that lists the views; `None` on SQLite.
pub fn list_views(dialect: Dialect) -> (r: Option<Statement>)
    ensures
        optional_statement(r) == optional_plain(list_views_text(dialect)),
{
    optional_unbound(
        match dialect {
            Dialect::MySql => Some("SHOW FULL TABLES WHERE Table_type = 'VIEW'"),
            Dialect::Postgres => Some(
                "SELECT table_name::text FROM information_schema.views WHERE table_schema = 'public'",
            ),
            Dialect::Sqlite => None,
        },
    )
}

/// The statement that lists the stored functions; `None` on SQLite.
pub fn list_functions(dialect: Dialect) -> (r: Option<Statement>)
    ensures
        optional_statement(r) == optional_plain(list_functions_text(dialect)),
{
    optional_unbound(
        match dialect {
            Dialect::MySql => Some(
                "SELECT CONVERT(ROUTINE_NAME USING utf8) FROM information_schema.ROUTINES WHERE ROUTINE_TYPE = 'FUNCTION' AND ROUTINE_SCHEMA = DATABASE()",
            ),
            Dialect::Postgres => Some(
                "SELECT routine_name::text FROM information_schema.routines WHERE routine_type = 'FUNCTION' AND routine_schema = 'public'",
            ),
            Dialect::Sqlite => None,
        },
    )
}

/// The statement that lists the stored procedures; `None` on SQLite.
pub fn list_procedures(dialect: Dialect) -> (r: Option<Statement>)
    ensures
        optional_statement(r) == optional_plain(list_procedures_text(dialect)),
{
    optional_unbound(
        match dialect {
            Dialect::MySql => Some(
                "SELECT CONVERT(ROUTINE_NAME USING utf8) FROM information_schema.ROUTINES WHERE ROUTINE_TYPE = 'PROCEDURE' AND ROUTINE_SCHEMA = DATABASE()",
            ),
            Dialect::Postgres => Some(
                "SELECT routine_name::text FROM information_schema.routines WHERE routine_type = 'PROCEDURE' AND routine_schema = 'public'",
            ),
            Dialect::Sqlite => None,
        },
    )
}

/// The statement that lists the databases with their sizes; `None` on SQLite.
pub fn list_databases_with_size(dialect: Dialect) -> (r: Option<Statement>)
    ensures
        optional_statement(r) == optional_plain(list_databases_text(dialect)),
{
    optional_unbound(
        match dialect {
            Dialect::MySql => Some(
                "SELECT CONVERT(s.schema_name USING utf8) as schema_name, CAST(COALESCE(SUM(t.data_length + t.index_length), 0) AS SIGNED) as size FROM information_schema.schemata s LEFT JOIN information_schema.tables t ON s.schema_name = t.table_schema GROUP BY s.schema_name ORDER BY s.schema_name",
            ),
            Dialect::Postgres => Some(
                "SELECT datname::text, pg_database_size(datname) as size FROM pg_database WHERE datistemplate = false AND has_database_privilege(datname, 'CONNECT') ORDER BY datname",
            ),
            Dialect::Sqlite => None,
        },
    )
}

/// The text that makes a database the current one, on the engine that has
/// such a statement.
pub open spec fn use_database_text(dialect: Dialect, database: Seq<char>) -> Option<Seq<char>> {
    match dialect {
        Dialect::MySql => Some("USE "@ + quoted(dialect, database)),
        _ => None,
    }
}

/// The statement that makes `database` the current one; `None` but on MySQL.
pub fn use_database(dialect: Dialect, database: &str) -> (r: Option<Statement>)
    ensures
        optional_statement(r) == optional_plain(use_database_text(dialect, database@)),
{
    match dialect {
        Dialect::MySql => {
            let mut sql = String::from_str("USE ");
            sql.append(quote(dialect, database).as_str());
            Some(Statement::unbound(sql))
        },
        _ => None,
    }
}

/// The text that lists a database's tables with their sizes in bytes. MySQL
/// names the database in the text; Postgres lists the connected one.
pub open spec fn list_tables_with_size_text(dialect: Dialect, database: Seq<char>) -> Option<
    Seq<char>,
> {
    match dialect {
        Dialect::MySql => Some(
            "SELECT CONVERT(TABLE_NAME USING utf8) as TABLE_NAME, CAST(COALESCE(DATA_LENGTH + INDEX_LENGTH, 0) AS SIGNED) as size FROM information_schema.TABLES WHERE TABLE_SCHEMA = '"@
                + database + "' ORDER BY TABLE_NAME"@,
        ),
        Dialect::Postgres => Some(
            "SELECT table_name::text, pg_total_relation_size(quote_ident(table_name)) as size FROM information_schema.tables WHERE table_schema = 'public' ORDER BY table_name"@,
        ),
        Dialect::Sqlite => None,
    }
}

/// The statement that lists a database's tables with their sizes; `None` on
/// SQLite.
pub fn list_tables_with_size(dialect: Dialect, database: &str) -> (r: Option<Statement>)
    ensures
        optional_statement(r) == optional_plain(list_tables_with_size_text(dialect, database@)),
{
    match dialect {
        Dialect::MySql => {
            let mut sql = String::from_str(
                "SELECT CONVERT(TABLE_NAME USING utf8) as TABLE_NAME, CAST(COALESCE(DATA_LENGTH + INDEX_LENGTH, 0) AS SIGNED) as size FROM information_schema.TABLES WHERE TABLE_SCHEMA = '",
            );
            sql.append(database);
            sql.append("' ORDER BY TABLE_NAME");
            Some(Statement::unbound(sql))
        },
        Dialect::Postgres => Some(
            Statement::unbound(
                String::from_str(
                    "SELECT table_name::text, pg_total_relation_size(quote_ident(table_name)) as size FROM information_schema.tables WHERE table_schema = 'public' ORDER BY table_name",
                ),
            ),
        ),
        Dialect::Sqlite => None,
    }
}

/// The text that describes a table's columns on SQLite.
pub open spec fn table_info_text(name: Seq<char>) -> Seq<char> {
    "PRAGMA table_info("@ + quoted(Dialect::Sqlite, name) + ")"@
}

fn table_info(name: &str) -> (r: Statement)
    ensures
        r@ == plain(table_info_text(name@)),
{
    let mut sql = String::from_str("PRAGMA table_info(");
    sql.append(quote(Dialect::Sqlite, name).as_str());
    sql.append(")");
    Statement::unbound(sql)
}

/// The statement that lists a table's columns by declared position.
pub open spec fn columns_statement(dialect: Dialect, name: Seq<char>) -> StatementModel {
    match dialect {
        Dialect::MySql => bound_one(
            "SELECT COLUMN_NAME FROM information_schema.COLUMNS WHERE TABLE_SCHEMA = DATABASE() AND TABLE_NAME = ? ORDER BY ORDINAL_POSITION"@,
            name,
        ),
        Dialect::Postgres => bound_one(
            "SELECT column_name::text FROM information_schema.columns WHERE table_schema = 'public' AND table_name = $1 ORDER BY ordinal_position"@,
            name,
        ),
        Dialect::Sqlite => plain(table_info_text(name)),
    }
}

/// The statement that lists a table's columns by declared position. MySQL and
/// Postgres take the table's name as bound text.
pub fn get_columns(dialect: Dialect, name: &str) -> (r: Statement)
    ensures
        r@ == columns_statement(dialect, name@),
{
    match dialect {
        Dialect::MySql => Statement::with_one(
            String::from_str(
                "SELECT COLUMN_NAME FROM information_schema.COLUMNS WHERE TABLE_SCHEMA = DATABASE() AND TABLE_NAME = ? ORDER BY ORDINAL_POSITION",
            ),
            name,
        ),
        Dialect::Postgres => Statement::with_one(
            String::from_str(
                "SELECT column_name::text FROM information_schema.columns WHERE table_schema = 'public' AND table_name = $1 ORDER BY ordinal_position",
            ),
            name,
        ),
        Dialect::Sqlite => table_info(name),
    }
}

/// The statement that asks for the columns of a table's primary key. MySQL
/// and Postgres answer with one row for each column of the key, two at most:
/// enough to tell a key of one column from a wider one.
pub open spec fn primary_key_statement(dialect: Dialect, name: Seq<char>) -> StatementModel {
    match dialect {
        Dialect::MySql => bound_one(
            "SELECT COLUMN_NAME FROM information_schema.KEY_COLUMN_USAGE WHERE TABLE_NAME = ? AND CONSTRAINT_NAME = 'PRIMARY' AND TABLE_SCHEMA = DATABASE() ORDER BY ORDINAL_POSITION LIMIT 2"@,
            name,
        ),
        Dialect::Postgres => bound_one(
            "SELECT kcu.column_name::text FROM information_schema.key_column_usage kcu JOIN information_schema.table_constraints tc ON kcu.constraint_name = tc.constraint_name AND kcu.table_schema = tc.table_schema AND kcu.table_name = tc.table_name WHERE kcu.table_schema = 'public' AND kcu.table_name = $1 AND tc.constraint_type = 'PRIMARY KEY' ORDER BY kcu.ordinal_position LIMIT 2"@,
            name,
        ),
        Dialect::Sqlite => plain(table_info_text(name)),
    }
}

/// The statement that asks for the columns of a table's primary key. MySQL
/// and Postgres answer with the key's columns, two at most; SQLite answers
/// with every column of the table.
pub fn get_primary_key(dialect: Dialect, name: &str) -> (r: Statement)
    ensures
        r@ == primary_key_statement(dialect, name@),
{
    match dialect {
        Dialect::MySql => Statement::with_one(
            String::from_str(
                "SELECT COLUMN_NAME FROM information_schema.KEY_COLUMN_USAGE WHERE TABLE_NAME = ? AND CONSTRAINT_NAME = 'PRIMARY' AND TABLE_SCHEMA = DATABASE() ORDER BY ORDINAL_POSITION LIMIT 2",
            ),
            name,
        ),
        Dialect::Postgres => Statement::with_one(
            String::from_str(
                "SELECT kcu.column_name::text FROM information_schema.key_column_usage kcu JOIN information_schema.table_constraints tc ON kcu.constraint_name = tc.constraint_name AND kcu.table_schema = tc.table_schema AND kcu.table_name = tc.table_name WHERE kcu.table_schema = 'public' AND kcu.table_name = $1 AND tc.constraint_type = 'PRIMARY KEY' ORDER BY kcu.ordinal_position LIMIT 2",
            ),
            name,
        ),
        Dialect::Sqlite => table_info(name),
    }
}

/// The statement that looks one column's declared type up; only Postgres,
/// which casts bound text in the statement, has a use for it.
pub open spec fn declared_type_statement(dialect: Dialect, name: Seq<char>, column: Seq<char>) -> Option<
    StatementModel,
> {
    match dialect {
        Dialect::Postgres => Some(
            bound_two(
                "SELECT udt_name::text FROM information_schema.columns WHERE table_schema = 'public' AND table_name = $1 AND column_name = $2"@,
                name,
                column,
            ),
        ),
        _ => None,
    }
}

/// The statement to run before a cell is updated, to learn the column's
/// declared type; `None` where the dialect casts nothing.
pub fn declared_type_lookup(dialect: Dialect, name: &str, column: &str) -> (r: Option<Statement>)
    ensures
        optional_statement(r) == declared_type_statement(dialect, name@, column@),
{
    match dialect {
        Dialect::Postgres => Some(
            Statement::with_two(
                String::from_str(
                    "SELECT udt_name::text FROM information_schema.columns WHERE table_schema = 'public' AND table_name = $1 AND column_name = $2",
                ),
                name,
                column,
            ),
        ),
        _ => None,
    }
}

/// The statement that lists every column of a table with its declared type;
/// only Postgres has a use for it.
pub open spec fn declared_types_statement(dialect: Dialect, name: Seq<char>) -> Option<StatementModel> {
    match dialect {
        Dialect::Postgres => Some(
            bound_one(
                "SELECT column_name::text, udt_name::text FROM information_schema.columns WHERE table_schema = 'public' AND table_name = $1"@,
                name,
            ),
        ),
        _ => None,
    }
}

/// The statement to run before a row is inserted, to learn the declared type
/// of each column; `None` where the dialect casts nothing.
pub fn declared_types_lookup(dialect: Dialect, name: &str) -> (r: Option<Statement>)
    ensures
        optional_statement(r) == declared_types_statement(dialect, name@),
{
    match dialect {
        Dialect::Postgres => Some(
            Statement::with_one(
                String::from_str(
                    "SELECT column_name::text, udt_name::text FROM information_schema.columns WHERE table_schema = 'public' AND table_name = $1",
                ),
                name,
            ),
        ),
        _ => None,
    }
}

} // verus!
