//! The value marshaller: from what a driver reports of one column value to one
//! canonical value, and rows of such values.

use crate::dialect::Dialect;
use crate::text::{decode_lossy, text_eq, utf8_lossy};
use vstd::prelude::*;
use vstd::string::*;

verus! {

/// A value as every adapter hands it out. A double is held as the JSON text
/// of the number (`null` where it is not finite).
#[derive(Debug, Clone, PartialEq, Eq)]
pub enum CanonicalValue {
    Null,
    Bool(bool),
    Int(i64),
    Float(String),
    Text(String),
}

/// The mathematical model of a [`CanonicalValue`].
pub enum ValueModel {
    Null,
    Bool(bool),
    Int(i64),
    Float(Seq<char>),
    Text(Seq<char>),
}

impl View for CanonicalValue {
    type V = ValueModel;

    open spec fn view(&self) -> ValueModel {
        match self {
            CanonicalValue::Null => ValueModel::Null,
            CanonicalValue::Bool(b) => ValueModel::Bool(*b),
            CanonicalValue::Int(i) => ValueModel::Int(*i),
            CanonicalValue::Float(t) => ValueModel::Float(t@),
            CanonicalValue::Text(t) => ValueModel::Text(t@),
        }
    }
}

impl CanonicalValue {
    /// A copy of the value.
    pub fn duplicate(&self) -> (r: CanonicalValue)
        ensures
            r@ == self@,
    {
        match self {
            CanonicalValue::Null => CanonicalValue::Null,
            CanonicalValue::Bool(b) => CanonicalValue::Bool(*b),
            CanonicalValue::Int(i) => CanonicalValue::Int(*i),
            CanonicalValue::Float(t) => CanonicalValue::Float(t.clone()),
            CanonicalValue::Text(t) => CanonicalValue::Text(t.clone()),
        }
    }
}

/// The family that a column's native type belongs to.
#[derive(Debug, Clone, Copy, PartialEq, Eq, Structural)]
pub enum NativeKind {
    Integer,
    Float,
    Boolean,
    Binary,
    Text,
}

/// The family of a native type name under a dialect. A name that the dialect's
/// table does not list is text.
pub open spec fn kind_of(dialect: Dialect, native_type: Seq<char>) -> NativeKind {
    match dialect {
        Dialect::MySql => {
            if native_type == "TINYINT"@ || native_type == "SMALLINT"@ || native_type == "INT"@
                || native_type == "BIGINT"@ {
                NativeKind::Integer
            } else if native_type == "FLOAT"@ || native_type == "DOUBLE"@ || native_type == "DECIMAL"@ {
                NativeKind::Float
            } else if native_type == "BOOLEAN"@ {
                NativeKind::Boolean
            } else if native_type == "BINARY"@ || native_type == "VARBINARY"@ || native_type == "BLOB"@
                || native_type == "TINYBLOB"@ || native_type == "MEDIUMBLOB"@ || native_type
                == "LONGBLOB"@ {
                NativeKind::Binary
            } else {
                NativeKind::Text
            }
        },
        Dialect::Postgres => {
            if native_type == "INT2"@ || native_type == "INT4"@ || native_type == "INT8"@ {
                NativeKind::Integer
            } else if native_type == "FLOAT4"@ || native_type == "FLOAT8"@ || native_type == "NUMERIC"@ {
                NativeKind::Float
            } else if native_type == "BOOL"@ {
                NativeKind::Boolean
            } else {
                NativeKind::Text
            }
        },
        Dialect::Sqlite => {
            if native_type == "INTEGER"@ {
                NativeKind::Integer
            } else if native_type == "REAL"@ {
                NativeKind::Float
            } else if native_type == "BOOLEAN"@ {
                NativeKind::Boolean
            } else {
                NativeKind::Text
            }
        },
    }
}

/// Classifies a native type name under a dialect.
pub fn classify(dialect: Dialect, native_type: &str) -> (kind: NativeKind)
    ensures
        kind == kind_of(dialect, native_type@),
{
    match dialect {
        Dialect::MySql => {
            if text_eq(native_type, "TINYINT") || text_eq(native_type, "SMALLINT") || text_eq(
                native_type,
                "INT",
            ) || text_eq(native_type, "BIGINT") {
                NativeKind::Integer
            } else if text_eq(native_type, "FLOAT") || text_eq(native_type, "DOUBLE") || text_eq(
                native_type,
                "DECIMAL",
            ) {
                NativeKind::Float
            } else if text_eq(native_type, "BOOLEAN") {
                NativeKind::Boolean
            } else if text_eq(native_type, "BINARY") || text_eq(native_type, "VARBINARY") || text_eq(
                native_type,
                "BLOB",
            ) || text_eq(native_type, "TINYBLOB") || text_eq(native_type, "MEDIUMBLOB") || text_eq(
                native_type,
                "LONGBLOB",
            ) {
                NativeKind::Binary
            } else {
                NativeKind::Text
            }
        },
        Dialect::Postgres => {
            if text_eq(native_type, "INT2") || text_eq(native_type, "INT4") || text_eq(
                native_type,
                "INT8",
            ) {
                NativeKind::Integer
            } else if text_eq(native_type, "FLOAT4") || text_eq(native_type, "FLOAT8") || text_eq(
                native_type,
                "NUMERIC",
            ) {
                NativeKind::Float
            } else if text_eq(native_type, "BOOL") {
                NativeKind::Boolean
            } else {
                NativeKind::Text
            }
        },
        Dialect::Sqlite => {
            if text_eq(native_type, "INTEGER") {
                NativeKind::Integer
            } else if text_eq(native_type, "REAL") {
                NativeKind::Float
            } else if text_eq(native_type, "BOOLEAN") {
                NativeKind::Boolean
            } else {
                NativeKind::Text
            }
        },
    }
}

/// What a driver reports of one column value: the column's name, the native
/// type name, whether the value is SQL NULL, and the outcome of each typed
/// read (`None` where the driver refused that read).
#[derive(Debug, Clone, PartialEq, Eq)]
pub struct RawCell {
    pub name: String,
    pub native_type: String,
    pub is_null: bool,
    pub integer: Option<i64>,
    pub float: Option<String>,
    pub boolean: Option<bool>,
    pub bytes: Option<Vec<u8>>,
    pub text: Option<String>,
}

/// The best textual form of a cell: its raw bytes read leniently as UTF-8,
/// else its text, else nothing.
pub open spec fn raw_text(cell: RawCell) -> ValueModel {
    match cell.bytes {
        Some(b) => ValueModel::Text(utf8_lossy(b@)),
        None => match cell.text {
            Some(t) => ValueModel::Text(t@),
            None => ValueModel::Null,
        },
    }
}

/// The canonical value of a cell: null for SQL NULL; else the typed read that
/// the column's family calls for; where that read was refused, the best
/// textual form; where there is none, null.
pub open spec fn marshalled(dialect: Dialect, cell: RawCell) -> ValueModel {
    if cell.is_null {
        ValueModel::Null
    } else {
        match kind_of(dialect, cell.native_type@) {
            NativeKind::Integer => match cell.integer {
                Some(i) => ValueModel::Int(i),
                None => raw_text(cell),
            },
            NativeKind::Float => match cell.float {
                Some(t) => ValueModel::Float(t@),
                None => raw_text(cell),
            },
            NativeKind::Boolean => match cell.boolean {
                Some(b) => ValueModel::Bool(b),
                None => raw_text(cell),
            },
            NativeKind::Binary => raw_text(cell),
            NativeKind::Text => match cell.text {
                Some(t) => ValueModel::Text(t@),
                None => raw_text(cell),
            },
        }
    }
}

fn textual_form(cell: &RawCell) -> (v: CanonicalValue)
    ensures
        v@ == raw_text(*cell),
{
    match &cell.bytes {
        Some(b) => CanonicalValue::Text(decode_lossy(b)),
        None => match &cell.text {
            Some(t) => CanonicalValue::Text(t.clone()),
            None => CanonicalValue::Null,
        },
    }
}

/// Marshals one cell. Never fails: a refused read degrades to text, and to
/// null where no text can be had.
pub fn marshal(dialect: Dialect, cell: &RawCell) -> (v: CanonicalValue)
    ensures
        v@ == marshalled(dialect, *cell),
{
    if cell.is_null {
        return CanonicalValue::Null;
    }
    match classify(dialect, cell.native_type.as_str()) {
        NativeKind::Integer => match cell.integer {
            Some(i) => CanonicalValue::Int(i),
            None => textual_form(cell),
        },
        NativeKind::Float => match &cell.float {
            Some(t) => CanonicalValue::Float(t.clone()),
            None => textual_form(cell),
        },
        NativeKind::Boolean => match cell.boolean {
            Some(b) => CanonicalValue::Bool(b),
            None => textual_form(cell),
        },
        NativeKind::Binary => textual_form(cell),
        NativeKind::Text => match &cell.text {
            Some(t) => CanonicalValue::Text(t.clone()),
            None => textual_form(cell),
        },
    }
}

/// Whether a cell is what a driver reads of a stored value: SQL NULL for
/// null; for any other value, a column of the value's family and a typed read
/// that yields it.
pub open spec fn reads_back(dialect: Dialect, cell: RawCell, v: ValueModel) -> bool {
    match v {
        ValueModel::Null => cell.is_null,
        ValueModel::Bool(b) => !cell.is_null && kind_of(dialect, cell.native_type@)
            == NativeKind::Boolean && cell.boolean == Some(b),
        ValueModel::Int(i) => !cell.is_null && kind_of(dialect, cell.native_type@)
            == NativeKind::Integer && cell.integer == Some(i),
        ValueModel::Float(t) => !cell.is_null && kind_of(dialect, cell.native_type@)
            == NativeKind::Float && cell.float is Some && cell.float->0@ == t,
        ValueModel::Text(t) => !cell.is_null && kind_of(dialect, cell.native_type@)
            == NativeKind::Text && cell.text is Some && cell.text->0@ == t,
    }
}

/// A value that was stored comes back as itself: where the driver reads the
/// value in its own family, marshalling yields that value, in every dialect.
pub proof fn stored_value_comes_back(dialect: Dialect, cell: RawCell, v: ValueModel)
    requires
        reads_back(dialect, cell, v),
    ensures
        marshalled(dialect, cell) == v,
{
}

/// Marshalling yields a typed value only from a typed read of the column's
/// own family; every other outcome is text or null, and null comes only from
/// SQL NULL or from a cell without a typed read, bytes or text.
pub proof fn marshalled_is_typed_or_degraded(dialect: Dialect, cell: RawCell)
    ensures
        match marshalled(dialect, cell) {
            ValueModel::Int(i) => kind_of(dialect, cell.native_type@) == NativeKind::Integer
                && cell.integer == Some(i),
            ValueModel::Float(t) => kind_of(dialect, cell.native_type@) == NativeKind::Float
                && cell.float is Some,
            ValueModel::Bool(b) => kind_of(dialect, cell.native_type@) == NativeKind::Boolean
                && cell.boolean == Some(b),
            ValueModel::Text(_) => !cell.is_null,
            ValueModel::Null => cell.is_null || (cell.bytes is None && cell.text is None),
        },
{
}

} // verus!
