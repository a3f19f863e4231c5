//! What is read out of an engine's answers: names, counts, sizes, keys and
//! declared types.

use crate::dialect::Dialect;
use crate::error::{ErrorModel, GatewayError};
use crate::text::{decode_strict, optional_string, text_eq, texts};
use crate::value::RawCell;
use vstd::prelude::*;
use vstd::string::*;
use vstd::utf8::{decode_utf8, valid_utf8};

verus! {

/// The name that a cell holds: where bytes were read, their text if they are
/// well-formed UTF-8 and nothing if not; else the text that was read. MySQL
/// hands some names out as bytes.
pub open spec fn cell_name(cell: RawCell) -> Option<Seq<char>> {
    match cell.bytes {
        Some(b) => if valid_utf8(b@) {
            Some(decode_utf8(b@))
        } else {
            None
        },
        None => optional_string(cell.text),
    }
}

/// Reads the name that a cell holds.
pub fn read_name(cell: &RawCell) -> (r: Option<String>)
    ensures
        optional_string(r) == cell_name(*cell),
{
    match &cell.bytes {
        Some(b) => decode_strict(b),
        None => match &cell.text {
            Some(t) => Some(t.clone()),
            None => None,
        },
    }
}

/// The failure of an answer that holds a row that cannot be read: a list is
/// handed out whole or not at all.
pub open spec fn unreadable() -> ErrorModel {
    ErrorModel::Query("a row of the answer could not be read"@)
}

fn unreadable_row() -> (e: GatewayError)
    ensures
        e@ == unreadable(),
{
    GatewayError::Query(String::from_str("a row of the answer could not be read"))
}

/// Whether a row has a readable name in the column at `at`.
pub open spec fn has_name_at(row: Seq<RawCell>, at: int) -> bool {
    0 <= at < row.len() && cell_name(row[at]) is Some
}

/// Whether every row of an answer has a readable name in the column at `at`.
pub open spec fn all_named(rows: Seq<Vec<RawCell>>, at: int) -> bool {
    forall|i: int| 0 <= i < rows.len() ==> has_name_at(#[trigger] rows[i]@, at)
}

/// The names that stand in a column of an answer, row by row.
pub open spec fn names_at(rows: Seq<Vec<RawCell>>, at: int) -> Seq<Seq<char>> {
    Seq::new(rows.len(), |i: int| cell_name(rows[i]@[at])->0)
}

/// The names in a column of an answer: all of them where every row holds a
/// readable one, and a failure otherwise.
pub open spec fn column_names(rows: Seq<Vec<RawCell>>, at: int) -> Result<Seq<Seq<char>>, ErrorModel> {
    if all_named(rows, at) {
        Ok(names_at(rows, at))
    } else {
        Err(unreadable())
    }
}

/// The view of a list of names or a failure.
pub open spec fn names_result(r: Result<Vec<String>, GatewayError>) -> Result<Seq<Seq<char>>, ErrorModel> {
    match r {
        Ok(names) => Ok(texts(names@)),
        Err(e) => Err(e@),
    }
}

/// Reads the names that stand in a column of an answer. A row without a
/// readable name there fails the whole reading.
pub fn names_in_column(rows: &Vec<Vec<RawCell>>, at: usize) -> (r: Result<Vec<String>, GatewayError>)
    ensures
        names_result(r) == column_names(rows@, at as int),
{
    let mut names: Vec<String> = Vec::new();
    let mut i: usize = 0;
    while i < rows.len()
        invariant
            i <= rows.len(),
            names.len() == i,
            forall|j: int| 0 <= j < i ==> has_name_at(#[trigger] rows@[j]@, at as int),
            forall|j: int| 0 <= j < i ==> (#[trigger] names@[j])@ == cell_name(rows@[j]@[at as int])->0,
        decreases rows.len() - i,
    {
        if at >= rows[i].len() {
            assert(!has_name_at(rows@[i as int]@, at as int));
            return Err(unreadable_row());
        }
        match read_name(&rows[i][at]) {
            Some(name) => {
                names.push(name);
            },
            None => {
                assert(!has_name_at(rows@[i as int]@, at as int));
                return Err(unreadable_row());
            },
        }
        i += 1;
    }
    assert(texts(names@) == names_at(rows@, at as int));
    Ok(names)
}

/// Where a column's name stands in the answer that lists a table's columns:
/// second in SQLite's description of a table, first elsewhere.
pub open spec fn name_position(dialect: Dialect) -> int {
    match dialect {
        Dialect::Sqlite => 1,
        _ => 0,
    }
}

/// Reads the names of a table's columns out of the answer that lists them.
pub fn read_columns(dialect: Dialect, rows: &Vec<Vec<RawCell>>) -> (r: Result<Vec<String>, GatewayError>)
    ensures
        names_result(r) == column_names(rows@, name_position(dialect)),
{
    match dialect {
        Dialect::Sqlite => names_in_column(rows, 1),
        _ => names_in_column(rows, 0),
    }
}

/// The first cell of a row that is the value of the column `name`.
pub open spec fn named_cell(row: Seq<RawCell>, name: Seq<char>) -> Option<RawCell>
    decreases row.len(),
{
    if row.len() == 0 {
        None
    } else if row[0].name@ == name {
        Some(row[0])
    } else {
        named_cell(row.drop_first(), name)
    }
}

/// Finds the value of a column in a row by the column's name.
pub fn find_cell<'a>(row: &'a Vec<RawCell>, name: &str) -> (r: Option<&'a RawCell>)
    ensures
        match r {
            Some(cell) => named_cell(row@, name@) == Some(*cell),
            None => named_cell(row@, name@) is None,
        },
{
    let mut i: usize = 0;
    assert(row@.skip(0) == row@);
    while i < row.len()
        invariant
            i <= row.len(),
            named_cell(row@, name@) == named_cell(row@.skip(i as int), name@),
        decreases row.len() - i,
    {
        assert(row@.skip(i as int).drop_first() == row@.skip(i + 1));
        if text_eq(row[i].name.as_str(), name) {
            return Some(&row[i]);
        }
        i += 1;
    }
    None
}

/// Whether a row of SQLite's description of a table describes a column of the
/// primary key: its `pk` is a number above zero.
pub open spec fn describes_key(row: Seq<RawCell>) -> bool {
    named_cell(row, "pk"@) is Some && named_cell(row, "pk"@)->0.integer is Some && named_cell(
        row,
        "pk"@,
    )->0.integer->0 > 0
}

/// The name in a row of SQLite's description of a table.
pub open spec fn described_name(row: Seq<RawCell>) -> Option<Seq<char>> {
    match named_cell(row, "name"@) {
        Some(cell) => optional_string(cell.text),
        None => None,
    }
}

/// The names of the columns that SQLite's description of a table marks as
/// belonging to the primary key, in the description's order. A marked column
/// whose name cannot be read counts without a name.
pub open spec fn key_columns(rows: Seq<Vec<RawCell>>) -> Seq<Option<Seq<char>>>
    decreases rows.len(),
{
    if rows.len() == 0 {
        Seq::empty()
    } else if describes_key(rows.last()@) {
        key_columns(rows.drop_last()).push(described_name(rows.last()@))
    } else {
        key_columns(rows.drop_last())
    }
}

/// The single-column primary key in SQLite's description of a table: the
/// column that is marked, where exactly one is. A table without a key has
/// none, and so has a table whose key spans two or more columns.
pub open spec fn described_key(rows: Seq<Vec<RawCell>>) -> Option<Seq<char>> {
    if key_columns(rows).len() == 1 {
        key_columns(rows)[0]
    } else {
        None
    }
}

/// The single-column primary key that an answer names, and none where the
/// table has no key or a key of two or more columns. SQLite describes every
/// column and marks those of the key; the other engines answer with the
/// key's columns, one row each.
pub open spec fn named_key(dialect: Dialect, rows: Seq<Vec<RawCell>>) -> Option<Seq<char>> {
    match dialect {
        Dialect::Sqlite => described_key(rows),
        _ => if rows.len() == 1 && rows[0].len() > 0 {
            cell_name(rows[0]@[0])
        } else {
            None
        },
    }
}

fn is_key_row(row: &Vec<RawCell>) -> (r: bool)
    ensures
        r == describes_key(row@),
{
    match find_cell(row, "pk") {
        Some(cell) => match cell.integer {
            Some(rank) => rank > 0,
            None => false,
        },
        None => false,
    }
}

fn name_in_row(row: &Vec<RawCell>) -> (r: Option<String>)
    ensures
        optional_string(r) == described_name(row@),
{
    match find_cell(row, "name") {
        Some(cell) => match &cell.text {
            Some(t) => Some(t.clone()),
            None => None,
        },
        None => None,
    }
}

proof fn key_columns_of_a_prefix(rows: Seq<Vec<RawCell>>, k: int)
    requires
        0 <= k <= rows.len(),
    ensures
        key_columns(rows.take(k)).len() <= key_columns(rows).len(),
    decreases rows.len(),
{
    if k == rows.len() {
        assert(rows.take(k) == rows);
    } else {
        assert(rows.drop_last().take(k) == rows.take(k));
        key_columns_of_a_prefix(rows.drop_last(), k);
    }
}

proof fn key_columns_count_a_marked_row(rows: Seq<Vec<RawCell>>, i: int)
    requires
        0 <= i < rows.len(),
        describes_key(rows[i]@),
    ensures
        key_columns(rows).len() >= key_columns(rows.take(i)).len() + 1,
{
    assert(rows.take(i + 1).drop_last() == rows.take(i));
    assert(rows.take(i + 1).last() == rows[i]);
    key_columns_of_a_prefix(rows, i + 1);
}

proof fn key_columns_skip_an_unmarked_tail(rows: Seq<Vec<RawCell>>, k: int)
    requires
        0 <= k <= rows.len(),
        forall|j: int| k <= j < rows.len() ==> !describes_key(#[trigger] rows[j]@),
    ensures
        key_columns(rows) == key_columns(rows.take(k)),
    decreases rows.len() - k,
{
    if k == rows.len() {
        assert(rows.take(k) == rows);
    } else {
        assert(!describes_key(rows[rows.len() - 1]@));
        assert(rows.drop_last().take(k) == rows.take(k));
        key_columns_skip_an_unmarked_tail(rows.drop_last(), k);
    }
}

/// A key of two or more columns is no single-column key: where SQLite's
/// description marks two columns, the answer names none.
pub proof fn composite_key_is_no_key(rows: Seq<Vec<RawCell>>, i: int, j: int)
    requires
        0 <= i < j < rows.len(),
        describes_key(rows[i]@),
        describes_key(rows[j]@),
    ensures
        named_key(Dialect::Sqlite, rows) is None,
{
    key_columns_count_a_marked_row(rows, j);
    assert(rows.take(j)[i] == rows[i]);
    key_columns_count_a_marked_row(rows.take(j), i);
}

/// Where SQLite's description marks exactly one column, that column is the
/// key.
pub proof fn single_marked_column_is_the_key(rows: Seq<Vec<RawCell>>, i: int)
    requires
        0 <= i < rows.len(),
        describes_key(rows[i]@),
        forall|j: int| 0 <= j < rows.len() && j != i ==> !describes_key(#[trigger] rows[j]@),
    ensures
        named_key(Dialect::Sqlite, rows) == described_name(rows[i]@),
{
    key_columns_skip_an_unmarked_tail(rows, i + 1);
    assert(rows.take(i + 1).drop_last() == rows.take(i));
    assert(rows.take(i + 1).last() == rows[i]);
    assert forall|j: int| 0 <= j < rows.take(i).len() implies !describes_key(
        #[trigger] rows.take(i)[j]@,
    ) by {
        assert(rows.take(i)[j] == rows[j]);
    }
    key_columns_skip_an_unmarked_tail(rows.take(i), 0);
    assert(rows.take(i).take(0) == Seq::<Vec<RawCell>>::empty());
}

/// Where SQLite's description marks no column, the table has no key.
pub proof fn unmarked_description_has_no_key(rows: Seq<Vec<RawCell>>)
    requires
        forall|j: int| 0 <= j < rows.len() ==> !describes_key(#[trigger] rows[j]@),
    ensures
        named_key(Dialect::Sqlite, rows) is None,
{
    key_columns_skip_an_unmarked_tail(rows, 0);
    assert(rows.take(0) == Seq::<Vec<RawCell>>::empty());
}

/// On MySQL and Postgres the answer holds one row for each column of the
/// key: an answer of no row or of two and more names no key.
pub proof fn only_one_row_names_a_key(dialect: Dialect, rows: Seq<Vec<RawCell>>)
    requires
        dialect != Dialect::Sqlite,
        rows.len() != 1,
    ensures
        named_key(dialect, rows) is None,
{
}

/// The views of a list of optional names.
pub open spec fn optional_texts(names: Seq<Option<String>>) -> Seq<Option<Seq<char>>> {
    names.map_values(|n: Option<String>| optional_string(n))
}

fn marked_columns(rows: &Vec<Vec<RawCell>>) -> (r: Vec<Option<String>>)
    ensures
        optional_texts(r@) == key_columns(rows@),
{
    let mut marked: Vec<Option<String>> = Vec::new();
    let mut i: usize = 0;
    assert(optional_texts(marked@) == key_columns(rows@.take(0)));
    while i < rows.len()
        invariant
            i <= rows.len(),
            optional_texts(marked@) == key_columns(rows@.take(i as int)),
        decreases rows.len() - i,
    {
        assert(rows@.take(i + 1).drop_last() == rows@.take(i as int));
        let ghost before = marked@;
        if is_key_row(&rows[i]) {
            let name = name_in_row(&rows[i]);
            marked.push(name);
            assert(optional_texts(marked@) == optional_texts(before).push(optional_string(name)));
        }
        i += 1;
    }
    assert(rows@.take(i as int) == rows@);
    marked
}

/// Reads the single-column primary key out of the answer to the question
/// for a table's key.
pub fn read_primary_key(dialect: Dialect, rows: &Vec<Vec<RawCell>>) -> (r: Option<String>)
    ensures
        optional_string(r) == named_key(dialect, rows@),
{
    match dialect {
        Dialect::Sqlite => {
            let mut marked = marked_columns(rows);
            if marked.len() == 1 {
                let ghost all = marked@;
                let name = marked.remove(0);
                assert(optional_string(name) == optional_texts(all)[0]);
                name
            } else {
                None
            }
        },
        _ => if rows.len() == 1 && rows[0].len() > 0 {
            read_name(&rows[0][0])
        } else {
            None
        },
    }
}

/// The key to order pages by: the single-column primary key where the engine
/// named one, and none where it named none or could not be asked. A table is
/// then paged in the engine's own order.
pub fn ordering_key(dialect: Dialect, outcome: &Result<Vec<Vec<RawCell>>, String>) -> (r: Option<String>)
    ensures
        optional_string(r) == match *outcome {
            Ok(rows) => named_key(dialect, rows@),
            Err(_) => None,
        },
{
    match outcome {
        Ok(rows) => read_primary_key(dialect, rows),
        Err(_) => None,
    }
}

/// The text in the first column of the first row, if there is one: the
/// declared type in the answer to the question for one column's type.
pub open spec fn first_text(rows: Seq<Vec<RawCell>>) -> Option<Seq<char>> {
    if rows.len() > 0 && rows[0].len() > 0 {
        optional_string(rows[0]@[0].text)
    } else {
        None
    }
}

/// Reads a column's declared type out of the answer to the question for it.
pub fn read_declared_type(rows: &Vec<Vec<RawCell>>) -> (r: Option<String>)
    ensures
        optional_string(r) == first_text(rows@),
{
    if rows.len() > 0 && rows[0].len() > 0 {
        match &rows[0][0].text {
            Some(t) => Some(t.clone()),
            None => None,
        }
    } else {
        None
    }
}

/// The two texts at the start of a row, where the row has them.
pub open spec fn text_pair(row: Seq<RawCell>) -> Option<(Seq<char>, Seq<char>)> {
    if row.len() >= 2 && row[0].text is Some && row[1].text is Some {
        Some((row[0].text->0@, row[1].text->0@))
    } else {
        None
    }
}

/// Whether every row of an answer starts with two texts.
pub open spec fn all_text_pairs(rows: Seq<Vec<RawCell>>) -> bool {
    forall|i: int| 0 <= i < rows.len() ==> text_pair(#[trigger] rows[i]@) is Some
}

/// The pairs of texts that an answer holds: all of them where every row
/// starts with two texts, and a failure otherwise.
pub open spec fn text_pairs(rows: Seq<Vec<RawCell>>) -> Result<Seq<(Seq<char>, Seq<char>)>, ErrorModel> {
    if all_text_pairs(rows) {
        Ok(Seq::new(rows.len(), |i: int| text_pair(rows[i]@)->0))
    } else {
        Err(unreadable())
    }
}

/// The view of a list of pairs or a failure.
pub open spec fn pairs_result(r: Result<Vec<(String, String)>, GatewayError>) -> Result<
    Seq<(Seq<char>, Seq<char>)>,
    ErrorModel,
> {
    match r {
        Ok(pairs) => Ok(crate::sql::pair_texts(pairs@)),
        Err(e) => Err(e@),
    }
}

/// Reads the listing of (column, declared type) out of the answer to the
/// question for a table's types. A row that does not start with two texts
/// fails the whole reading.
pub fn read_declared_types(rows: &Vec<Vec<RawCell>>) -> (r: Result<Vec<(String, String)>, GatewayError>)
    ensures
        pairs_result(r) == text_pairs(rows@),
{
    let mut pairs: Vec<(String, String)> = Vec::new();
    let mut i: usize = 0;
    while i < rows.len()
        invariant
            i <= rows.len(),
            pairs.len() == i,
            forall|j: int| 0 <= j < i ==> text_pair(#[trigger] rows@[j]@) is Some,
            forall|j: int|
                0 <= j < i ==> ((#[trigger] pairs@[j]).0@, pairs@[j].1@) == text_pair(rows@[j]@)->0,
        decreases rows.len() - i,
    {
        if rows[i].len() < 2 {
            assert(text_pair(rows@[i as int]@) is None);
            return Err(unreadable_row());
        }
        match (&rows[i][0].text, &rows[i][1].text) {
            (Some(a), Some(b)) => {
                pairs.push((a.clone(), b.clone()));
            },
            _ => {
                assert(text_pair(rows@[i as int]@) is None);
                return Err(unreadable_row());
            },
        }
        i += 1;
    }
    assert(crate::sql::pair_texts(pairs@) == Seq::new(
        rows@.len(),
        |i: int| text_pair(rows@[i]@)->0,
    ));
    Ok(pairs)
}

/// The name and the size at the start of a row, where the row has them.
pub open spec fn sized_name(row: Seq<RawCell>) -> Option<(Seq<char>, i64)> {
    if row.len() >= 2 && row[0].text is Some && row[1].integer is Some {
        Some((row[0].text->0@, row[1].integer->0))
    } else {
        None
    }
}

/// Whether every row of an answer starts with a name and a size.
pub open spec fn all_sized(rows: Seq<Vec<RawCell>>) -> bool {
    forall|i: int| 0 <= i < rows.len() ==> sized_name(#[trigger] rows[i]@) is Some
}

/// The names with their sizes that an answer holds: all of them where every
/// row starts with a name and a size, and a failure otherwise.
pub open spec fn sized_names(rows: Seq<Vec<RawCell>>) -> Result<Seq<(Seq<char>, i64)>, ErrorModel> {
    if all_sized(rows) {
        Ok(Seq::new(rows.len(), |i: int| sized_name(rows[i]@)->0))
    } else {
        Err(unreadable())
    }
}

/// The views of a list of names with sizes.
pub open spec fn size_texts(sizes: Seq<(String, i64)>) -> Seq<(Seq<char>, i64)> {
    sizes.map_values(|s: (String, i64)| (s.0@, s.1))
}

/// The view of a list of names with sizes or a failure.
pub open spec fn sizes_result(r: Result<Vec<(String, i64)>, GatewayError>) -> Result<
    Seq<(Seq<char>, i64)>,
    ErrorModel,
> {
    match r {
        Ok(sizes) => Ok(size_texts(sizes@)),
        Err(e) => Err(e@),
    }
}

/// Reads names with their sizes in bytes out of an answer. A row that does
/// not start with a name and a size fails the whole reading.
pub fn read_sizes(rows: &Vec<Vec<RawCell>>) -> (r: Result<Vec<(String, i64)>, GatewayError>)
    ensures
        sizes_result(r) == sized_names(rows@),
{
    let mut sizes: Vec<(String, i64)> = Vec::new();
    let mut i: usize = 0;
    while i < rows.len()
        invariant
            i <= rows.len(),
            sizes.len() == i,
            forall|j: int| 0 <= j < i ==> sized_name(#[trigger] rows@[j]@) is Some,
            forall|j: int|
                0 <= j < i ==> ((#[trigger] sizes@[j]).0@, sizes@[j].1) == sized_name(rows@[j]@)->0,
        decreases rows.len() - i,
    {
        if rows[i].len() < 2 {
            assert(sized_name(rows@[i as int]@) is None);
            return Err(unreadable_row());
        }
        match (&rows[i][0].text, rows[i][1].integer) {
            (Some(name), Some(size)) => {
                sizes.push((name.clone(), size));
            },
            _ => {
                assert(sized_name(rows@[i as int]@) is None);
                return Err(unreadable_row());
            },
        }
        i += 1;
    }
    assert(size_texts(sizes@) == Seq::new(rows@.len(), |i: int| sized_name(rows@[i]@)->0));
    Ok(sizes)
}

/// The count that an answer holds: the integer in the first column of the
/// first row. An answer without one is a failed query.
pub open spec fn counted(rows: Seq<Vec<RawCell>>) -> Result<i64, ErrorModel> {
    if rows.len() > 0 && rows[0].len() > 0 && rows[0]@[0].integer is Some {
        Ok(rows[0]@[0].integer->0)
    } else {
        Err(ErrorModel::Query("no count was returned"@))
    }
}

/// Reads the number of rows out of the answer to a count.
pub fn read_count(rows: &Vec<Vec<RawCell>>) -> (r: Result<i64, GatewayError>)
    ensures
        crate::error::result_view(r) == counted(rows@),
{
    if rows.len() > 0 && rows[0].len() > 0 {
        match rows[0][0].integer {
            Some(n) => Ok(n),
            None => Err(GatewayError::Query(String::from_str("no count was returned"))),
        }
    } else {
        Err(GatewayError::Query(String::from_str("no count was returned")))
    }
}

} // verus!
