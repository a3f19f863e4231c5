use db_gateway::answer::{
    find_cell, names_in_column, ordering_key, read_columns, read_count, read_declared_type,
    read_declared_types, read_name, read_primary_key, read_sizes,
};
use db_gateway::dialect::Dialect;
use db_gateway::error::GatewayError;
use db_gateway::value::RawCell;

fn some(s: &str) -> Option<String> {
    Some(s.to_string())
}

fn cell(name: &str) -> RawCell {
    RawCell {
        name: name.to_string(),
        native_type: "TEXT".to_string(),
        is_null: false,
        integer: None,
        float: None,
        boolean: None,
        bytes: None,
        text: None,
    }
}

fn text(name: &str, value: &str) -> RawCell {
    let mut c = cell(name);
    c.text = some(value);
    c
}

fn bytes(name: &str, value: &[u8]) -> RawCell {
    let mut c = cell(name);
    c.bytes = Some(value.to_vec());
    c
}

fn integer(name: &str, value: i64) -> RawCell {
    let mut c = cell(name);
    c.integer = Some(value);
    c
}

#[test]
fn read_name_prefers_bytes_and_is_strict() {
    let mut both = bytes("n", b"users");
    both.text = some("other");
    assert_eq!(read_name(&both), some("users"));
    let mut broken = bytes("n", &[0xff, 0xfe]);
    broken.text = some("fallback");
    assert_eq!(read_name(&broken), None);
    assert_eq!(read_name(&text("n", "orders")), some("orders"));
    assert_eq!(read_name(&cell("n")), None);
    assert_eq!(read_name(&bytes("n", "tablé".as_bytes())), some("tablé"));
}

fn unreadable<T>() -> Result<T, GatewayError> {
    Err(GatewayError::Query("a row of the answer could not be read".to_string()))
}

fn names(list: &[&str]) -> Result<Vec<String>, GatewayError> {
    Ok(list.iter().map(|n| n.to_string()).collect())
}

#[test]
fn names_in_column_reads_every_row() {
    let rows = vec![vec![bytes("n", b"a")], vec![text("n", "b")], vec![bytes("n", b"c"), text("m", "z")]];
    assert_eq!(names_in_column(&rows, 0), names(&["a", "b", "c"]));
    assert_eq!(names_in_column(&vec![], 0), names(&[]));
    assert_eq!(names_in_column(&vec![], 3), names(&[]));
}

#[test]
fn names_in_column_fails_as_a_whole_on_a_row_it_cannot_read() {
    let good = vec![bytes("n", b"a")];
    assert_eq!(names_in_column(&vec![good.clone(), vec![bytes("n", &[0x80])]], 0), unreadable());
    assert_eq!(names_in_column(&vec![good.clone(), vec![cell("n")]], 0), unreadable());
    assert_eq!(names_in_column(&vec![vec![], good.clone()], 0), unreadable());
    assert_eq!(names_in_column(&vec![good.clone(), good.clone()], 1), unreadable());
}

fn description() -> Vec<Vec<RawCell>> {
    vec![
        vec![integer("cid", 0), text("name", "a"), text("type", "TEXT"), integer("pk", 0)],
        vec![integer("cid", 1), text("name", "k"), text("type", "INTEGER"), integer("pk", 1)],
        vec![integer("cid", 2), text("name", "l"), text("type", "INTEGER"), integer("pk", 0)],
    ]
}

fn composite_description() -> Vec<Vec<RawCell>> {
    vec![
        vec![integer("cid", 0), text("name", "a"), text("type", "TEXT"), integer("pk", 1)],
        vec![integer("cid", 1), text("name", "b"), text("type", "INTEGER"), integer("pk", 2)],
        vec![integer("cid", 2), text("name", "c"), text("type", "INTEGER"), integer("pk", 0)],
    ]
}

#[test]
fn read_columns_takes_the_name_where_the_dialect_puts_it() {
    assert_eq!(read_columns(Dialect::Sqlite, &description()), names(&["a", "k", "l"]));
    let listing = vec![vec![text("column_name", "id")], vec![text("column_name", "name")]];
    assert_eq!(read_columns(Dialect::Postgres, &listing), names(&["id", "name"]));
    let listing = vec![vec![bytes("COLUMN_NAME", b"id")], vec![bytes("COLUMN_NAME", b"name")]];
    assert_eq!(read_columns(Dialect::MySql, &listing), names(&["id", "name"]));
    assert_eq!(read_columns(Dialect::Sqlite, &listing), unreadable());
}

#[test]
fn find_cell_by_name() {
    let row = vec![integer("a", 1), integer("b", 2), integer("a", 3)];
    assert_eq!(find_cell(&row, "a"), Some(&row[0]));
    assert_eq!(find_cell(&row, "b"), Some(&row[1]));
    assert_eq!(find_cell(&row, "c"), None);
    assert_eq!(find_cell(&vec![], "a"), None);
}

#[test]
fn read_primary_key_from_a_description() {
    assert_eq!(read_primary_key(Dialect::Sqlite, &description()), some("k"));
    let none = vec![vec![text("name", "a"), integer("pk", 0)], vec![text("name", "b"), integer("pk", 0)]];
    assert_eq!(read_primary_key(Dialect::Sqlite, &none), None);
    let unranked = vec![vec![text("name", "a")], vec![text("name", "b"), integer("pk", -1)]];
    assert_eq!(read_primary_key(Dialect::Sqlite, &unranked), None);
    assert_eq!(read_primary_key(Dialect::Sqlite, &vec![]), None);
    let last = vec![vec![text("name", "a"), integer("pk", 0)], vec![text("name", "z"), integer("pk", 1)]];
    assert_eq!(read_primary_key(Dialect::Sqlite, &last), some("z"));
}

#[test]
fn a_key_of_two_columns_is_no_single_column_key() {
    assert_eq!(read_primary_key(Dialect::Sqlite, &composite_description()), None);
    let three = vec![
        vec![text("name", "a"), integer("pk", 1)],
        vec![text("name", "b"), integer("pk", 2)],
        vec![text("name", "c"), integer("pk", 3)],
    ];
    assert_eq!(read_primary_key(Dialect::Sqlite, &three), None);
    let two_rows = vec![vec![text("column_name", "a")], vec![text("column_name", "b")]];
    assert_eq!(read_primary_key(Dialect::Postgres, &two_rows), None);
    let two_rows = vec![vec![bytes("COLUMN_NAME", b"a")], vec![bytes("COLUMN_NAME", b"b")]];
    assert_eq!(read_primary_key(Dialect::MySql, &two_rows), None);
    assert_eq!(ordering_key(Dialect::Sqlite, &Ok(composite_description())), None);
    assert_eq!(ordering_key(Dialect::MySql, &Ok(two_rows)), None);
}

#[test]
fn read_primary_key_from_a_row() {
    assert_eq!(read_primary_key(Dialect::MySql, &vec![vec![bytes("COLUMN_NAME", b"id")]]), some("id"));
    assert_eq!(read_primary_key(Dialect::Postgres, &vec![vec![text("column_name", "uid")]]), some("uid"));
    assert_eq!(read_primary_key(Dialect::Postgres, &vec![]), None);
    assert_eq!(read_primary_key(Dialect::Postgres, &vec![vec![]]), None);
    let mut broken = bytes("COLUMN_NAME", &[0xc3]);
    broken.text = some("uid");
    assert_eq!(read_primary_key(Dialect::MySql, &vec![vec![broken]]), None);
}

#[test]
fn ordering_key_is_none_when_the_engine_could_not_be_asked() {
    assert_eq!(ordering_key(Dialect::Postgres, &Err("permission denied".to_string())), None);
    assert_eq!(ordering_key(Dialect::Postgres, &Ok(vec![])), None);
    assert_eq!(ordering_key(Dialect::Postgres, &Ok(vec![vec![text("column_name", "id")]])), some("id"));
    assert_eq!(ordering_key(Dialect::Sqlite, &Ok(description())), some("k"));
}

#[test]
fn read_declared_type_takes_the_first_text() {
    assert_eq!(read_declared_type(&vec![vec![text("udt_name", "int4")]]), some("int4"));
    assert_eq!(read_declared_type(&vec![]), None);
    assert_eq!(read_declared_type(&vec![vec![]]), None);
    assert_eq!(read_declared_type(&vec![vec![integer("n", 1)]]), None);
}

#[test]
fn read_declared_types_pairs_columns_with_types() {
    let rows = vec![
        vec![text("column_name", "id"), text("udt_name", "int4")],
        vec![text("column_name", "name"), text("udt_name", "varchar")],
    ];
    assert_eq!(
        read_declared_types(&rows),
        Ok(vec![("id".to_string(), "int4".to_string()), ("name".to_string(), "varchar".to_string())])
    );
    assert_eq!(read_declared_types(&vec![]), Ok(vec![]));
}

#[test]
fn read_declared_types_fails_as_a_whole_on_a_row_it_cannot_read() {
    let good = vec![text("column_name", "id"), text("udt_name", "int4")];
    assert_eq!(read_declared_types(&vec![good.clone(), vec![text("column_name", "lonely")]]), unreadable());
    assert_eq!(
        read_declared_types(&vec![vec![text("column_name", "odd"), integer("udt_name", 1)], good.clone()]),
        unreadable()
    );
}

#[test]
fn read_sizes_pairs_names_with_sizes() {
    let rows = vec![
        vec![text("schema_name", "shop"), integer("size", 4096)],
        vec![text("schema_name", "empty"), integer("size", 0)],
    ];
    assert_eq!(read_sizes(&rows), Ok(vec![("shop".to_string(), 4096), ("empty".to_string(), 0)]));
    assert_eq!(read_sizes(&vec![]), Ok(vec![]));
}

#[test]
fn read_sizes_fails_as_a_whole_on_a_row_it_cannot_read() {
    let good = vec![text("schema_name", "shop"), integer("size", 4096)];
    assert_eq!(read_sizes(&vec![good.clone(), vec![text("schema_name", "odd"), text("size", "big")]]), unreadable());
    assert_eq!(read_sizes(&vec![vec![text("schema_name", "short")], good.clone()]), unreadable());
}

#[test]
fn read_count_takes_the_first_integer() {
    assert_eq!(read_count(&vec![vec![integer("COUNT(*)", 12)]]), Ok(12));
    assert_eq!(read_count(&vec![vec![integer("COUNT(*)", 0)]]), Ok(0));
    let failed = Err(GatewayError::Query("no count was returned".to_string()));
    assert_eq!(read_count(&vec![]), failed);
    assert_eq!(read_count(&vec![vec![]]), failed);
    assert_eq!(read_count(&vec![vec![text("COUNT(*)", "12")]]), failed);
}
