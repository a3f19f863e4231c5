//! Canonical rows: an ordered mapping from column name to canonical value.

use crate::dialect::Dialect;
use crate::value::{marshal, marshalled, CanonicalValue, RawCell, ValueModel};
use vstd::prelude::*;
use vstd::string::*;

verus! {

/// One column of a row: its name and its value.
#[derive(Debug, Clone, PartialEq, Eq)]
pub struct Column {
    pub name: String,
    pub value: CanonicalValue,
}

/// The mathematical model of a row: its columns in order.
pub type RowModel = Seq<(Seq<char>, ValueModel)>;

/// Whether no name occurs twice among the columns.
pub open spec fn distinct_names(row: RowModel) -> bool {
    forall|i: int, j: int| 0 <= i < j < row.len() ==> row[i].0 != row[j].0
}

/// Whether the row has a column of that name.
pub open spec fn has_column(row: RowModel, name: Seq<char>) -> bool {
    exists|i: int| 0 <= i < row.len() && #[trigger] row[i].0 == name
}

/// The row after `name` is set to `value`: a column of that name keeps its
/// place and takes the value; without one, a new column comes last.
pub open spec fn with_column(row: RowModel, name: Seq<char>, value: ValueModel) -> RowModel {
    if has_column(row, name) {
        let i = choose|i: int| 0 <= i < row.len() && #[trigger] row[i].0 == name;
        row.update(i, (name, value))
    } else {
        row.push((name, value))
    }
}

/// Setting a column keeps every name single.
pub proof fn with_column_keeps_names_distinct(row: RowModel, name: Seq<char>, value: ValueModel)
    requires
        distinct_names(row),
    ensures
        distinct_names(with_column(row, name, value)),
        has_column(with_column(row, name, value), name),
{
    let after = with_column(row, name, value);
    if has_column(row, name) {
        let i = choose|i: int| 0 <= i < row.len() && #[trigger] row[i].0 == name;
        assert(after[i].0 == name);
    } else {
        assert(after[row.len() as int].0 == name);
    }
}

/// The row that a sequence of cells marshals to, each cell set in turn.
pub open spec fn marshalled_row(dialect: Dialect, cells: Seq<RawCell>) -> RowModel
    decreases cells.len(),
{
    if cells.len() == 0 {
        Seq::empty()
    } else {
        with_column(
            marshalled_row(dialect, cells.drop_last()),
            cells.last().name@,
            marshalled(dialect, cells.last()),
        )
    }
}

/// However the cells are named, the row they marshal to holds each name
/// once.
pub proof fn marshalled_row_has_distinct_names(dialect: Dialect, cells: Seq<RawCell>)
    ensures
        distinct_names(marshalled_row(dialect, cells)),
    decreases cells.len(),
{
    if cells.len() > 0 {
        marshalled_row_has_distinct_names(dialect, cells.drop_last());
        with_column_keeps_names_distinct(
            marshalled_row(dialect, cells.drop_last()),
            cells.last().name@,
            marshalled(dialect, cells.last()),
        );
    }
}

/// An ordered mapping from column name to canonical value.
#[derive(Debug, PartialEq, Eq)]
pub struct CanonicalRow {
    columns: Vec<Column>,
}

impl View for CanonicalRow {
    type V = RowModel;

    closed spec fn view(&self) -> RowModel {
        self.columns@.map_values(|c: Column| (c.name@, c.value@))
    }
}

impl CanonicalRow {
    #[verifier::type_invariant]
    spec fn names_are_distinct(self) -> bool {
        distinct_names(self@)
    }

    /// A row without columns.
    pub fn new() -> (row: CanonicalRow)
        ensures
            row@ == RowModel::empty(),
    {
        CanonicalRow { columns: Vec::new() }
    }

    /// The columns, in order.
    pub fn columns(&self) -> (r: &Vec<Column>)
        ensures
            r@.map_values(|c: Column| (c.name@, c.value@)) == self@,
    {
        &self.columns
    }

    /// The number of columns.
    pub fn len(&self) -> (n: usize)
        ensures
            n == self@.len(),
    {
        self.columns.len()
    }

    /// The name of the column at `i`.
    pub fn name(&self, i: usize) -> (r: &str)
        requires
            i < self@.len(),
        ensures
            r@ == self@[i as int].0,
    {
        self.columns[i].name.as_str()
    }

    /// The value of the column at `i`.
    pub fn value(&self, i: usize) -> (r: &CanonicalValue)
        requires
            i < self@.len(),
        ensures
            r@ == self@[i as int].1,
    {
        &self.columns[i].value
    }

    /// Where the column of that name stands, if there is one.
    pub fn position(&self, name: &str) -> (r: Option<usize>)
        ensures
            match r {
                Some(i) => i < self@.len() && self@[i as int].0 == name@,
                None => !has_column(self@, name@),
            },
    {
        let mut i: usize = 0;
        while i < self.columns.len()
            invariant
                i <= self.columns.len(),
                forall|j: int| 0 <= j < i ==> self@[j].0 != name@,
            decreases self.columns.len() - i,
        {
            if crate::text::text_eq(self.columns[i].name.as_str(), name) {
                return Some(i);
            }
            i += 1;
        }
        None
    }

    /// Sets `name` to `value`.
    pub fn insert(&mut self, name: String, value: CanonicalValue)
        ensures
            final(self)@ == with_column(old(self)@, name@, value@),
            distinct_names(old(self)@),
            distinct_names(final(self)@),
    {
        proof {
            use_type_invariant(&*self);
        }
        let ghost before = self@;
        let found = self.position(name.as_str());
        let mut taken = CanonicalRow::new();
        core::mem::swap(self, &mut taken);
        let CanonicalRow { columns } = taken;
        let mut columns = columns;
        match found {
            Some(i) => {
                let ghost k = choose|k: int| 0 <= k < before.len() && #[trigger] before[k].0 == name@;
                assert(k == i) by {
                    if k < i {
                        assert(before[k].0 != before[i as int].0);
                    } else if i < k {
                        assert(before[i as int].0 != before[k].0);
                    }
                }
                columns.set(i, Column { name, value });
                assert(columns@.map_values(|c: Column| (c.name@, c.value@)) == before.update(
                    i as int,
                    (name@, value@),
                ));
            },
            None => {
                columns.push(Column { name, value });
                assert(columns@.map_values(|c: Column| (c.name@, c.value@)) == before.push(
                    (name@, value@),
                ));
            },
        }
        *self = CanonicalRow { columns };
    }

    /// Marshals the cells of one result row, in order.
    pub fn from_cells(dialect: Dialect, cells: &Vec<RawCell>) -> (row: CanonicalRow)
        ensures
            row@ == marshalled_row(dialect, cells@),
            distinct_names(row@),
    {
        let mut row = CanonicalRow::new();
        let mut i: usize = 0;
        while i < cells.len()
            invariant
                i <= cells.len(),
                row@ == marshalled_row(dialect, cells@.take(i as int)),
            decreases cells.len() - i,
        {
            assert(cells@.take(i + 1).drop_last() == cells@.take(i as int));
            let value = marshal(dialect, &cells[i]);
            row.insert(cells[i].name.clone(), value);
            i += 1;
        }
        assert(cells@.take(i as int) == cells@);
        proof {
            use_type_invariant(&row);
        }
        row
    }
}

/// The views of a list of rows.
pub open spec fn row_models(rows: Seq<CanonicalRow>) -> Seq<RowModel> {
    rows.map_values(|row: CanonicalRow| row@)
}

/// The rows that a result marshals to, row by row.
pub open spec fn marshalled_rows(dialect: Dialect, rows: Seq<Vec<RawCell>>) -> Seq<RowModel> {
    rows.map_values(|cells: Vec<RawCell>| marshalled_row(dialect, cells@))
}

/// Marshals a whole result. Either every row comes out or, where the driver
/// failed, none was handed in: no row is dropped here.
pub fn marshal_rows(dialect: Dialect, rows: &Vec<Vec<RawCell>>) -> (r: Vec<CanonicalRow>)
    ensures
        row_models(r@) == marshalled_rows(dialect, rows@),
{
    let mut out: Vec<CanonicalRow> = Vec::new();
    let mut i: usize = 0;
    while i < rows.len()
        invariant
            i <= rows.len(),
            out.len() == i,
            forall|j: int| 0 <= j < i ==> (#[trigger] out@[j])@ == marshalled_row(dialect, rows@[j]@),
        decreases rows.len() - i,
    {
        out.push(CanonicalRow::from_cells(dialect, &rows[i]));
        i += 1;
    }
    out
}

} // verus!
