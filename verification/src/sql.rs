//! The statements that read and change tables, one builder for each
//! operation, written for each dialect.

use crate::dialect::{quote, quoted, table, table_ref, Dialect};
use crate::json::{render_value, value_json};
use crate::row::{CanonicalRow, RowModel};
use crate::statement::{bound_one, bound_two, plain, Statement, StatementModel};
use crate::text::{decimal, optional_str, join, joined, push_decimal, push_signed_decimal, signed_decimal, text_eq, texts};
use crate::value::{CanonicalValue, ValueModel};
use vstd::prelude::*;
use vstd::string::*;

verus! {

/// The text that counts the rows of a table.
pub open spec fn row_count_text(dialect: Dialect, name: Seq<char>) -> Seq<char> {
    "SELECT COUNT(*) FROM "@ + table_ref(dialect, name)
}

/// The statement that counts the rows of a table.
pub fn get_row_count(dialect: Dialect, name: &str) -> (r: Statement)
    ensures
        r@ == plain(row_count_text(dialect, name@)),
{
    let mut sql = String::from_str("SELECT COUNT(*) FROM ");
    sql.append(table(dialect, name).as_str());
    Statement::unbound(sql)
}

/// The ordering of a page: ascending by the primary key where there is one,
/// and none otherwise.
pub open spec fn order_clause(dialect: Dialect, primary_key: Option<Seq<char>>) -> Seq<char> {
    match primary_key {
        Some(key) => " ORDER BY "@ + quoted(dialect, key) + " ASC"@,
        None => Seq::empty(),
    }
}

/// The text that selects the rows of a table in the order of its pages.
pub open spec fn ordered_rows_text(dialect: Dialect, name: Seq<char>, primary_key: Option<Seq<char>>) -> Seq<
    char,
> {
    "SELECT * FROM "@ + table_ref(dialect, name) + order_clause(dialect, primary_key)
}

/// The text that cuts one page out of the ordered rows.
pub open spec fn window_text(limit: i64, offset: i64) -> Seq<char> {
    " LIMIT "@ + signed_decimal(limit as int) + " OFFSET "@ + signed_decimal(offset as int)
}

/// The text that fetches one page of a table: the ordered rows, which are the
/// same for every page, and the page's window.
pub open spec fn page_text(
    dialect: Dialect,
    name: Seq<char>,
    primary_key: Option<Seq<char>>,
    limit: i64,
    offset: i64,
) -> Seq<char> {
    ordered_rows_text(dialect, name, primary_key) + window_text(limit, offset)
}

fn order_by(dialect: Dialect, primary_key: Option<&str>) -> (r: String)
    ensures
        r@ == order_clause(dialect, optional_str(primary_key)),
{
    match primary_key {
        Some(key) => {
            let mut out = String::from_str(" ORDER BY ");
            out.append(quote(dialect, key).as_str());
            out.append(" ASC");
            out
        },
        None => String::new(),
    }
}

fn window(limit: i64, offset: i64) -> (r: String)
    ensures
        r@ == window_text(limit, offset),
{
    let mut out = String::from_str(" LIMIT ");
    push_signed_decimal(&mut out, limit);
    out.append(" OFFSET ");
    push_signed_decimal(&mut out, offset);
    out
}

/// The statement that fetches the page of `limit` rows after the first
/// `offset` ones. With a primary key the rows are ordered by it, ascending,
/// so that pages taken at advancing offsets follow one another; without one
/// the order is the engine's own.
pub fn get_rows(
    dialect: Dialect,
    name: &str,
    primary_key: Option<&str>,
    limit: i64,
    offset: i64,
) -> (r: Statement)
    ensures
        r@ == plain(page_text(dialect, name@, optional_str(primary_key), limit, offset)),
{
    let mut sql = String::from_str("SELECT * FROM ");
    sql.append(table(dialect, name).as_str());
    sql.append(order_by(dialect, primary_key).as_str());
    sql.append(window(limit, offset).as_str());
    Statement::unbound(sql)
}

/// The comparison of the key column with the placeholder at `position`. On
/// Postgres the column is cast to text, so that a key of any type can be
/// matched against bound text.
pub open spec fn key_match(dialect: Dialect, key_column: Seq<char>, position: Seq<char>) -> Seq<char> {
    match dialect {
        Dialect::Postgres => quoted(dialect, key_column) + "::text = $"@ + position,
        _ => quoted(dialect, key_column) + " = ?"@,
    }
}

fn match_key(dialect: Dialect, key_column: &str, position: &str) -> (r: String)
    ensures
        r@ == key_match(dialect, key_column@, position@),
{
    let mut out = quote(dialect, key_column);
    match dialect {
        Dialect::Postgres => {
            out.append("::text = $");
            out.append(position);
        },
        _ => {
            out.append(" = ?");
        },
    }
    out
}

/// The placeholder that takes a cell's new value. On Postgres the bound text
/// is cast to the column's declared type, and to `text` where none is known.
pub open spec fn cast_placeholder(dialect: Dialect, declared: Option<Seq<char>>) -> Seq<char> {
    match dialect {
        Dialect::Postgres => "$1::"@ + match declared {
            Some(t) => t,
            None => "text"@,
        },
        _ => "?"@,
    }
}

fn placeholder_with_cast(dialect: Dialect, declared: Option<&str>) -> (r: String)
    ensures
        r@ == cast_placeholder(dialect, optional_str(declared)),
{
    match dialect {
        Dialect::Postgres => {
            let mut out = String::from_str("$1::");
            match declared {
                Some(t) => out.append(t),
                None => out.append("text"),
            }
            out
        },
        _ => String::from_str("?"),
    }
}

/// The text that sets one cell of the row with a given key.
pub open spec fn update_cell_text(
    dialect: Dialect,
    name: Seq<char>,
    key_column: Seq<char>,
    column: Seq<char>,
    declared: Option<Seq<char>>,
) -> Seq<char> {
    "UPDATE "@ + table_ref(dialect, name) + " SET "@ + quoted(dialect, column) + " = "@
        + cast_placeholder(dialect, declared) + " WHERE "@ + key_match(dialect, key_column, "2"@)
}

/// The statement that sets `column` to `new_value` in the row whose
/// `key_column` equals `key_value`. Both values are bound as text, the new
/// value first. `declared` is the column's declared type, where it was looked
/// up; only Postgres uses it.
pub fn update_cell(
    dialect: Dialect,
    name: &str,
    key_column: &str,
    key_value: &str,
    column: &str,
    new_value: &str,
    declared: Option<&str>,
) -> (r: Statement)
    ensures
        r@ == bound_two(
            update_cell_text(dialect, name@, key_column@, column@, optional_str(declared)),
            new_value@,
            key_value@,
        ),
{
    let mut sql = String::from_str("UPDATE ");
    sql.append(table(dialect, name).as_str());
    sql.append(" SET ");
    sql.append(quote(dialect, column).as_str());
    sql.append(" = ");
    sql.append(placeholder_with_cast(dialect, declared).as_str());
    sql.append(" WHERE ");
    sql.append(match_key(dialect, key_column, "2").as_str());
    Statement::with_two(sql, new_value, key_value)
}

/// The text that deletes the row with a given key.
pub open spec fn delete_row_text(dialect: Dialect, name: Seq<char>, key_column: Seq<char>) -> Seq<
    char,
> {
    "DELETE FROM "@ + table_ref(dialect, name) + " WHERE "@ + key_match(dialect, key_column, "1"@)
}

/// The statement that deletes the row whose `key_column` equals `key_value`,
/// which is bound as text.
pub fn delete_row(dialect: Dialect, name: &str, key_column: &str, key_value: &str) -> (r: Statement)
    ensures
        r@ == bound_one(delete_row_text(dialect, name@, key_column@), key_value@),
{
    let mut sql = String::from_str("DELETE FROM ");
    sql.append(table(dialect, name).as_str());
    sql.append(" WHERE ");
    sql.append(match_key(dialect, key_column, "1").as_str());
    Statement::with_one(sql, key_value)
}

/// The text that drops a table.
pub open spec fn drop_table_text(dialect: Dialect, name: Seq<char>) -> Seq<char> {
    "DROP TABLE "@ + table_ref(dialect, name)
}

/// The statement that drops a table.
pub fn drop_table(dialect: Dialect, name: &str) -> (r: Statement)
    ensures
        r@ == plain(drop_table_text(dialect, name@)),
{
    let mut sql = String::from_str("DROP TABLE ");
    sql.append(table(dialect, name).as_str());
    Statement::unbound(sql)
}

/// The text that renames a table.
pub open spec fn rename_table_text(dialect: Dialect, old_name: Seq<char>, new_name: Seq<char>) -> Seq<
    char,
> {
    match dialect {
        Dialect::MySql => "RENAME TABLE "@ + quoted(dialect, old_name) + " TO "@ + quoted(
            dialect,
            new_name,
        ),
        _ => "ALTER TABLE "@ + table_ref(dialect, old_name) + " RENAME TO "@ + quoted(
            dialect,
            new_name,
        ),
    }
}

/// The statement that renames a table.
pub fn rename_table(dialect: Dialect, old_name: &str, new_name: &str) -> (r: Statement)
    ensures
        r@ == plain(rename_table_text(dialect, old_name@, new_name@)),
{
    match dialect {
        Dialect::MySql => {
            let mut sql = String::from_str("RENAME TABLE ");
            sql.append(quote(dialect, old_name).as_str());
            sql.append(" TO ");
            sql.append(quote(dialect, new_name).as_str());
            Statement::unbound(sql)
        },
        _ => {
            let mut sql = String::from_str("ALTER TABLE ");
            sql.append(table(dialect, old_name).as_str());
            sql.append(" RENAME TO ");
            sql.append(quote(dialect, new_name).as_str());
            Statement::unbound(sql)
        },
    }
}

/// The views of a list of pairs of texts.
pub open spec fn pair_texts(pairs: Seq<(String, String)>) -> Seq<(Seq<char>, Seq<char>)> {
    pairs.map_values(|p: (String, String)| (p.0@, p.1@))
}

/// The type that a catalog listing declares for a column: that of the last
/// entry for the column, and `text` where the listing has none.
pub open spec fn declared_type(types: Seq<(Seq<char>, Seq<char>)>, column: Seq<char>) -> Seq<char>
    decreases types.len(),
{
    if types.len() == 0 {
        "text"@
    } else if types.last().0 == column {
        types.last().1
    } else {
        declared_type(types.drop_last(), column)
    }
}

/// Looks a column's declared type up in a catalog listing of (column, type).
pub fn lookup_type(types: &Vec<(String, String)>, column: &str) -> (r: String)
    ensures
        r@ == declared_type(pair_texts(types@), column@),
{
    let mut i: usize = types.len();
    assert(pair_texts(types@).take(i as int) == pair_texts(types@));
    while i > 0
        invariant
            i <= types.len(),
            declared_type(pair_texts(types@), column@) == declared_type(
                pair_texts(types@).take(i as int),
                column@,
            ),
        decreases i,
    {
        let ghost prefix = pair_texts(types@).take(i as int);
        assert(prefix.drop_last() == pair_texts(types@).take(i - 1));
        if text_eq(types[i - 1].0.as_str(), column) {
            return types[i - 1].1.clone();
        }
        i -= 1;
    }
    String::from_str("text")
}

/// The placeholder at the 1-based `position` of an insert. On Postgres it is
/// numbered and cast to the column's declared type.
pub open spec fn insert_placeholder(
    dialect: Dialect,
    types: Seq<(Seq<char>, Seq<char>)>,
    column: Seq<char>,
    position: nat,
) -> Seq<char> {
    match dialect {
        Dialect::Postgres => "$"@ + decimal(position) + "::"@ + declared_type(types, column),
        _ => "?"@,
    }
}

/// The quoted column names of an insert, in the row's order.
pub open spec fn insert_columns(dialect: Dialect, row: RowModel) -> Seq<Seq<char>> {
    Seq::new(row.len(), |i: int| quoted(dialect, row[i].0))
}

/// The placeholders of an insert, in the row's order.
pub open spec fn insert_placeholders(
    dialect: Dialect,
    types: Seq<(Seq<char>, Seq<char>)>,
    row: RowModel,
) -> Seq<Seq<char>> {
    Seq::new(row.len(), |i: int| insert_placeholder(dialect, types, row[i].0, (i + 1) as nat))
}

/// The text that inserts one row.
pub open spec fn insert_row_text(
    dialect: Dialect,
    name: Seq<char>,
    types: Seq<(Seq<char>, Seq<char>)>,
    row: RowModel,
) -> Seq<char> {
    "INSERT INTO "@ + table_ref(dialect, name) + " ("@ + joined(insert_columns(dialect, row), ", "@)
        + ") VALUES ("@ + joined(insert_placeholders(dialect, types, row), ", "@) + ")"@
}

/// What is bound for a value: nothing for null (SQL NULL), a text as it is,
/// and any other value's JSON text.
pub open spec fn bound_value(v: ValueModel) -> Option<Seq<char>> {
    match v {
        ValueModel::Null => None,
        ValueModel::Text(t) => Some(t),
        _ => Some(value_json(v)),
    }
}

/// The values bound by an insert, in the row's order.
pub open spec fn insert_binds(row: RowModel) -> Seq<Option<Seq<char>>> {
    Seq::new(row.len(), |i: int| bound_value(row[i].1))
}

/// An insert has one column name, one placeholder and one bound value for
/// each column of the row.
pub proof fn insert_binds_match_placeholders(
    dialect: Dialect,
    types: Seq<(Seq<char>, Seq<char>)>,
    row: RowModel,
)
    ensures
        insert_columns(dialect, row).len() == row.len(),
        insert_placeholders(dialect, types, row).len() == row.len(),
        insert_binds(row).len() == row.len(),
{
}

/// The value to bind for a canonical value.
pub fn bind_value(v: &CanonicalValue) -> (r: Option<String>)
    ensures
        crate::text::optional_string(r) == bound_value(v@),
{
    match v {
        CanonicalValue::Null => None,
        CanonicalValue::Text(t) => Some(t.clone()),
        _ => Some(render_value(v)),
    }
}

fn placeholder_at(dialect: Dialect, types: &Vec<(String, String)>, column: &str, position: usize) -> (r:
    String)
    ensures
        r@ == insert_placeholder(dialect, pair_texts(types@), column@, position as nat),
{
    match dialect {
        Dialect::Postgres => {
            let mut out = String::from_str("$");
            push_decimal(&mut out, position as u64);
            out.append("::");
            out.append(lookup_type(types, column).as_str());
            out
        },
        _ => String::from_str("?"),
    }
}

/// The statement that inserts `row` into a table: one placeholder for each
/// column, in the row's order, and the values bound in the same order.
/// `types` is the catalog's listing of (column, declared type); only Postgres
/// uses it.
pub fn insert_row(dialect: Dialect, name: &str, row: &CanonicalRow, types: &Vec<(String, String)>) -> (r:
    Statement)
    ensures
        r@ == (StatementModel {
            sql: insert_row_text(dialect, name@, pair_texts(types@), row@),
            binds: insert_binds(row@),
        }),
{
    let mut columns: Vec<String> = Vec::new();
    let mut placeholders: Vec<String> = Vec::new();
    let mut binds: Vec<Option<String>> = Vec::new();
    let mut i: usize = 0;
    while i < row.len()
        invariant
            i <= row@.len(),
            columns.len() == i,
            placeholders.len() == i,
            binds.len() == i,
            forall|j: int| 0 <= j < i ==> (#[trigger] columns@[j])@ == quoted(dialect, row@[j].0),
            forall|j: int|
                0 <= j < i ==> (#[trigger] placeholders@[j])@ == insert_placeholder(
                    dialect,
                    pair_texts(types@),
                    row@[j].0,
                    (j + 1) as nat,
                ),
            forall|j: int|
                0 <= j < i ==> crate::text::optional_string(#[trigger] binds@[j]) == bound_value(
                    row@[j].1,
                ),
        decreases row@.len() - i,
    {
        columns.push(quote(dialect, row.name(i)));
        placeholders.push(placeholder_at(dialect, types, row.name(i), i + 1));
        binds.push(bind_value(row.value(i)));
        i += 1;
    }
    assert(texts(columns@) == insert_columns(dialect, row@));
    assert(texts(placeholders@) == insert_placeholders(dialect, pair_texts(types@), row@));
    let mut sql = String::from_str("INSERT INTO ");
    sql.append(table(dialect, name).as_str());
    sql.append(" (");
    sql.append(join(&columns, ", ").as_str());
    sql.append(") VALUES (");
    sql.append(join(&placeholders, ", ").as_str());
    sql.append(")");
    let r = Statement { sql, binds };
    assert(r@.binds == insert_binds(row@));
    r
}

} // verus!
