use db_gateway::dialect::Dialect;
use db_gateway::row::{marshal_rows, CanonicalRow};
use db_gateway::value::{classify, marshal, CanonicalValue, NativeKind, RawCell};

fn cell(native_type: &str) -> RawCell {
    RawCell {
        name: "c".to_string(),
        native_type: native_type.to_string(),
        is_null: false,
        integer: None,
        float: None,
        boolean: None,
        bytes: None,
        text: None,
    }
}

#[test]
fn classify_mysql_families() {
    for name in ["TINYINT", "SMALLINT", "INT", "BIGINT"] {
        assert_eq!(classify(Dialect::MySql, name), NativeKind::Integer);
    }
    for name in ["FLOAT", "DOUBLE", "DECIMAL"] {
        assert_eq!(classify(Dialect::MySql, name), NativeKind::Float);
    }
    assert_eq!(classify(Dialect::MySql, "BOOLEAN"), NativeKind::Boolean);
    for name in ["BINARY", "VARBINARY", "BLOB", "TINYBLOB", "MEDIUMBLOB", "LONGBLOB"] {
        assert_eq!(classify(Dialect::MySql, name), NativeKind::Binary);
    }
    for name in ["VARCHAR", "TEXT", "DATETIME", "int", "", "INT4", "BOOL"] {
        assert_eq!(classify(Dialect::MySql, name), NativeKind::Text);
    }
}

#[test]
fn classify_postgres_families() {
    for name in ["INT2", "INT4", "INT8"] {
        assert_eq!(classify(Dialect::Postgres, name), NativeKind::Integer);
    }
    for name in ["FLOAT4", "FLOAT8", "NUMERIC"] {
        assert_eq!(classify(Dialect::Postgres, name), NativeKind::Float);
    }
    assert_eq!(classify(Dialect::Postgres, "BOOL"), NativeKind::Boolean);
    for name in ["TEXT", "BYTEA", "UUID", "INT", "BOOLEAN"] {
        assert_eq!(classify(Dialect::Postgres, name), NativeKind::Text);
    }
}

#[test]
fn classify_sqlite_families() {
    assert_eq!(classify(Dialect::Sqlite, "INTEGER"), NativeKind::Integer);
    assert_eq!(classify(Dialect::Sqlite, "REAL"), NativeKind::Float);
    assert_eq!(classify(Dialect::Sqlite, "BOOLEAN"), NativeKind::Boolean);
    for name in ["TEXT", "BLOB", "NULL", "INT"] {
        assert_eq!(classify(Dialect::Sqlite, name), NativeKind::Text);
    }
}

#[test]
fn marshal_null_is_null_whatever_else_was_read() {
    let mut c = cell("INT");
    c.is_null = true;
    c.integer = Some(5);
    c.text = Some("5".to_string());
    assert_eq!(marshal(Dialect::MySql, &c), CanonicalValue::Null);
}

#[test]
fn marshal_typed_reads() {
    let mut c = cell("BIGINT");
    c.integer = Some(-42);
    c.text = Some("-42".to_string());
    assert_eq!(marshal(Dialect::MySql, &c), CanonicalValue::Int(-42));

    let mut c = cell("FLOAT8");
    c.float = Some("1.5".to_string());
    assert_eq!(marshal(Dialect::Postgres, &c), CanonicalValue::Float("1.5".to_string()));

    let mut c = cell("BOOLEAN");
    c.boolean = Some(true);
    assert_eq!(marshal(Dialect::Sqlite, &c), CanonicalValue::Bool(true));

    let mut c = cell("VARCHAR");
    c.text = Some("hello".to_string());
    c.integer = Some(1);
    assert_eq!(marshal(Dialect::MySql, &c), CanonicalValue::Text("hello".to_string()));
}

#[test]
fn marshal_reads_by_the_dialect_of_the_cell() {
    let mut c = cell("INT4");
    c.integer = Some(7);
    c.text = Some("seven".to_string());
    assert_eq!(marshal(Dialect::Postgres, &c), CanonicalValue::Int(7));
    assert_eq!(marshal(Dialect::MySql, &c), CanonicalValue::Text("seven".to_string()));
}

#[test]
fn marshal_refused_read_degrades_to_bytes_then_text_then_null() {
    let mut c = cell("INT");
    c.bytes = Some(b"12".to_vec());
    c.text = Some("twelve".to_string());
    assert_eq!(marshal(Dialect::MySql, &c), CanonicalValue::Text("12".to_string()));

    let mut c = cell("DECIMAL");
    c.text = Some("3.14".to_string());
    assert_eq!(marshal(Dialect::MySql, &c), CanonicalValue::Text("3.14".to_string()));

    let mut c = cell("BOOLEAN");
    c.bytes = Some(vec![b'1']);
    assert_eq!(marshal(Dialect::MySql, &c), CanonicalValue::Text("1".to_string()));

    assert_eq!(marshal(Dialect::MySql, &cell("INT")), CanonicalValue::Null);
    assert_eq!(marshal(Dialect::MySql, &cell("VARCHAR")), CanonicalValue::Null);
    assert_eq!(marshal(Dialect::MySql, &cell("BLOB")), CanonicalValue::Null);
}

#[test]
fn marshal_binary_is_lossy_utf8() {
    let mut c = cell("BLOB");
    c.bytes = Some(vec![b'a', 0xff, b'b']);
    c.text = Some("ignored".to_string());
    assert_eq!(marshal(Dialect::MySql, &c), CanonicalValue::Text("a\u{fffd}b".to_string()));

    let mut c = cell("VARBINARY");
    c.bytes = Some("héllo".as_bytes().to_vec());
    assert_eq!(marshal(Dialect::MySql, &c), CanonicalValue::Text("héllo".to_string()));
}

#[test]
fn marshal_text_kind_prefers_text_over_bytes() {
    let mut c = cell("TEXT");
    c.bytes = Some(b"from bytes".to_vec());
    c.text = Some("from text".to_string());
    assert_eq!(marshal(Dialect::Sqlite, &c), CanonicalValue::Text("from text".to_string()));
    c.text = None;
    assert_eq!(marshal(Dialect::Sqlite, &c), CanonicalValue::Text("from bytes".to_string()));
}

#[test]
fn duplicate_keeps_the_value() {
    for v in [
        CanonicalValue::Null,
        CanonicalValue::Bool(false),
        CanonicalValue::Int(3),
        CanonicalValue::Float("2.5".to_string()),
        CanonicalValue::Text("t".to_string()),
    ] {
        assert_eq!(v.duplicate(), v);
    }
}

#[test]
fn row_keeps_column_order_and_each_name_once() {
    let mut row = CanonicalRow::new();
    assert_eq!(row.len(), 0);
    row.insert("b".to_string(), CanonicalValue::Int(1));
    row.insert("a".to_string(), CanonicalValue::Null);
    row.insert("b".to_string(), CanonicalValue::Text("again".to_string()));
    assert_eq!(row.len(), 2);
    assert_eq!(row.name(0), "b");
    assert_eq!(row.value(0), &CanonicalValue::Text("again".to_string()));
    assert_eq!(row.name(1), "a");
    assert_eq!(row.value(1), &CanonicalValue::Null);
    assert_eq!(row.position("a"), Some(1));
    assert_eq!(row.position("b"), Some(0));
    assert_eq!(row.position("c"), None);
}

#[test]
fn row_from_cells_marshals_each_cell() {
    let mut id = cell("INTEGER");
    id.name = "id".to_string();
    id.integer = Some(1);
    let mut name = cell("TEXT");
    name.name = "name".to_string();
    name.text = Some("ann".to_string());
    let mut gone = cell("TEXT");
    gone.name = "gone".to_string();
    gone.is_null = true;
    let row = CanonicalRow::from_cells(Dialect::Sqlite, &vec![id, name, gone]);
    let mut expected = CanonicalRow::new();
    expected.insert("id".to_string(), CanonicalValue::Int(1));
    expected.insert("name".to_string(), CanonicalValue::Text("ann".to_string()));
    expected.insert("gone".to_string(), CanonicalValue::Null);
    assert_eq!(row, expected);
}

#[test]
fn row_from_cells_with_a_repeated_name_keeps_the_last_value() {
    let mut first = cell("INTEGER");
    first.name = "x".to_string();
    first.integer = Some(1);
    let mut second = cell("INTEGER");
    second.name = "x".to_string();
    second.integer = Some(2);
    let row = CanonicalRow::from_cells(Dialect::Sqlite, &vec![first, second]);
    assert_eq!(row.len(), 1);
    assert_eq!(row.value(0), &CanonicalValue::Int(2));
}

#[test]
fn marshal_rows_keeps_every_row() {
    let mut a = cell("INT");
    a.integer = Some(1);
    let mut b = cell("INT");
    b.integer = Some(2);
    let rows = marshal_rows(Dialect::MySql, &vec![vec![a], vec![], vec![b]]);
    assert_eq!(rows.len(), 3);
    assert_eq!(rows[0].value(0), &CanonicalValue::Int(1));
    assert_eq!(rows[1].len(), 0);
    assert_eq!(rows[2].value(0), &CanonicalValue::Int(2));
    assert_eq!(marshal_rows(Dialect::MySql, &vec![]).len(), 0);
}

#[test]
fn row_hands_its_columns_out_in_order() {
    let mut row = CanonicalRow::new();
    row.insert("a".to_string(), CanonicalValue::Int(1));
    row.insert("b".to_string(), CanonicalValue::Null);
    let names: Vec<&str> = row.columns().iter().map(|c| c.name.as_str()).collect();
    assert_eq!(names, vec!["a", "b"]);
    assert_eq!(row.columns()[0].value, CanonicalValue::Int(1));
}

#[test]
fn inserted_values_come_back_when_read_in_their_own_family() {
    let mut inserted = CanonicalRow::new();
    inserted.insert("id".to_string(), CanonicalValue::Int(7));
    inserted.insert("name".to_string(), CanonicalValue::Text("ann".to_string()));
    inserted.insert("ok".to_string(), CanonicalValue::Bool(true));
    inserted.insert("score".to_string(), CanonicalValue::Float("2.5".to_string()));
    inserted.insert("note".to_string(), CanonicalValue::Null);
    let statement = db_gateway::sql::insert_row(Dialect::Sqlite, "t", &inserted, &vec![]);
    assert_eq!(
        statement.binds,
        vec![
            Some("7".to_string()),
            Some("ann".to_string()),
            Some("true".to_string()),
            Some("2.5".to_string()),
            None
        ]
    );

    let mut id = cell("INTEGER");
    id.name = "id".to_string();
    id.integer = Some(7);
    let mut name = cell("TEXT");
    name.name = "name".to_string();
    name.text = Some("ann".to_string());
    let mut ok = cell("BOOLEAN");
    ok.name = "ok".to_string();
    ok.boolean = Some(true);
    let mut score = cell("REAL");
    score.name = "score".to_string();
    score.float = Some("2.5".to_string());
    let mut note = cell("TEXT");
    note.name = "note".to_string();
    note.is_null = true;
    let fetched = CanonicalRow::from_cells(Dialect::Sqlite, &vec![id, name, ok, score, note]);
    assert_eq!(fetched, inserted);
}
