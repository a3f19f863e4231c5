use db_gateway::dialect::{quote, table, Dialect};
use db_gateway::row::CanonicalRow;
use db_gateway::sql::{
    bind_value, delete_row, drop_table, get_row_count, get_rows, insert_row, lookup_type, rename_table,
    update_cell,
};
use db_gateway::statement::Statement;
use db_gateway::value::CanonicalValue;

fn some(s: &str) -> Option<String> {
    Some(s.to_string())
}

#[test]
fn quote_uses_the_mark_of_the_dialect() {
    assert_eq!(quote(Dialect::MySql, "t"), "`t`");
    assert_eq!(quote(Dialect::Postgres, "t"), "\"t\"");
    assert_eq!(quote(Dialect::Sqlite, "my table"), "\"my table\"");
    assert_eq!(quote(Dialect::MySql, ""), "``");
}

#[test]
fn table_reference_names_the_public_schema_on_postgres() {
    assert_eq!(table(Dialect::MySql, "t"), "`t`");
    assert_eq!(table(Dialect::Postgres, "t"), "public.\"t\"");
    assert_eq!(table(Dialect::Sqlite, "t"), "\"t\"");
}

#[test]
fn row_count_statement() {
    assert_eq!(get_row_count(Dialect::MySql, "t").sql, "SELECT COUNT(*) FROM `t`");
    assert_eq!(get_row_count(Dialect::Postgres, "t").sql, "SELECT COUNT(*) FROM public.\"t\"");
    assert_eq!(get_row_count(Dialect::Sqlite, "t").sql, "SELECT COUNT(*) FROM \"t\"");
    assert!(get_row_count(Dialect::Sqlite, "t").binds.is_empty());
}

#[test]
fn page_without_a_primary_key_has_no_ordering() {
    assert_eq!(
        get_rows(Dialect::MySql, "t", None, 10, 20),
        Statement { sql: "SELECT * FROM `t` LIMIT 10 OFFSET 20".to_string(), binds: vec![] }
    );
    assert_eq!(get_rows(Dialect::Sqlite, "t", None, 50, 0).sql, "SELECT * FROM \"t\" LIMIT 50 OFFSET 0");
    assert_eq!(
        get_rows(Dialect::Postgres, "t", None, 1, 2).sql,
        "SELECT * FROM public.\"t\" LIMIT 1 OFFSET 2"
    );
}

#[test]
fn page_with_a_primary_key_is_ordered_by_it() {
    assert_eq!(
        get_rows(Dialect::Postgres, "users", Some("id"), 100, 200).sql,
        "SELECT * FROM public.\"users\" ORDER BY \"id\" ASC LIMIT 100 OFFSET 200"
    );
    assert_eq!(
        get_rows(Dialect::MySql, "users", Some("id"), 100, 0).sql,
        "SELECT * FROM `users` ORDER BY `id` ASC LIMIT 100 OFFSET 0"
    );
    assert_eq!(
        get_rows(Dialect::Sqlite, "users", Some("id"), 5, 5).sql,
        "SELECT * FROM \"users\" ORDER BY \"id\" ASC LIMIT 5 OFFSET 5"
    );
}

#[test]
fn successive_pages_differ_in_the_offset_alone() {
    let first = get_rows(Dialect::MySql, "t", Some("id"), 10, 0).sql;
    let second = get_rows(Dialect::MySql, "t", Some("id"), 10, 10).sql;
    let shared = "SELECT * FROM `t` ORDER BY `id` ASC LIMIT 10 OFFSET ";
    assert_eq!(first, format!("{}0", shared));
    assert_eq!(second, format!("{}10", shared));
}

#[test]
fn page_writes_negative_numbers_as_they_are() {
    assert_eq!(get_rows(Dialect::Sqlite, "t", None, -1, 0).sql, "SELECT * FROM \"t\" LIMIT -1 OFFSET 0");
}

#[test]
fn update_cell_statement() {
    assert_eq!(
        update_cell(Dialect::MySql, "t", "id", "7", "name", "ann", None),
        Statement {
            sql: "UPDATE `t` SET `name` = ? WHERE `id` = ?".to_string(),
            binds: vec![some("ann"), some("7")],
        }
    );
    assert_eq!(
        update_cell(Dialect::Sqlite, "t", "id", "7", "name", "ann", Some("ignored")),
        Statement {
            sql: "UPDATE \"t\" SET \"name\" = ? WHERE \"id\" = ?".to_string(),
            binds: vec![some("ann"), some("7")],
        }
    );
}

#[test]
fn update_cell_on_postgres_casts_to_the_declared_type() {
    assert_eq!(
        update_cell(Dialect::Postgres, "t", "id", "7", "age", "41", Some("int4")),
        Statement {
            sql: "UPDATE public.\"t\" SET \"age\" = $1::int4 WHERE \"id\"::text = $2".to_string(),
            binds: vec![some("41"), some("7")],
        }
    );
    assert_eq!(
        update_cell(Dialect::Postgres, "t", "id", "7", "age", "41", None).sql,
        "UPDATE public.\"t\" SET \"age\" = $1::text WHERE \"id\"::text = $2"
    );
}

#[test]
fn delete_row_statement() {
    assert_eq!(
        delete_row(Dialect::MySql, "t", "id", "7"),
        Statement { sql: "DELETE FROM `t` WHERE `id` = ?".to_string(), binds: vec![some("7")] }
    );
    assert_eq!(
        delete_row(Dialect::Postgres, "t", "id", "7"),
        Statement {
            sql: "DELETE FROM public.\"t\" WHERE \"id\"::text = $1".to_string(),
            binds: vec![some("7")],
        }
    );
    assert_eq!(
        delete_row(Dialect::Sqlite, "t", "id", "7"),
        Statement { sql: "DELETE FROM \"t\" WHERE \"id\" = ?".to_string(), binds: vec![some("7")] }
    );
}

#[test]
fn drop_and_rename_statements() {
    assert_eq!(drop_table(Dialect::MySql, "t").sql, "DROP TABLE `t`");
    assert_eq!(drop_table(Dialect::Postgres, "t").sql, "DROP TABLE public.\"t\"");
    assert_eq!(drop_table(Dialect::Sqlite, "t").sql, "DROP TABLE \"t\"");
    assert_eq!(rename_table(Dialect::MySql, "a", "b").sql, "RENAME TABLE `a` TO `b`");
    assert_eq!(rename_table(Dialect::Postgres, "a", "b").sql, "ALTER TABLE public.\"a\" RENAME TO \"b\"");
    assert_eq!(rename_table(Dialect::Sqlite, "a", "b").sql, "ALTER TABLE \"a\" RENAME TO \"b\"");
    assert!(rename_table(Dialect::Sqlite, "a", "b").binds.is_empty());
}

#[test]
fn bind_value_by_kind() {
    assert_eq!(bind_value(&CanonicalValue::Null), None);
    assert_eq!(bind_value(&CanonicalValue::Text("as is".to_string())), some("as is"));
    assert_eq!(bind_value(&CanonicalValue::Text(String::new())), some(""));
    assert_eq!(bind_value(&CanonicalValue::Int(-3)), some("-3"));
    assert_eq!(bind_value(&CanonicalValue::Bool(true)), some("true"));
    assert_eq!(bind_value(&CanonicalValue::Bool(false)), some("false"));
    assert_eq!(bind_value(&CanonicalValue::Float("0.5".to_string())), some("0.5"));
}

#[test]
fn lookup_type_takes_the_last_entry_and_defaults_to_text() {
    let types = vec![
        ("id".to_string(), "int4".to_string()),
        ("name".to_string(), "varchar".to_string()),
        ("id".to_string(), "int8".to_string()),
    ];
    assert_eq!(lookup_type(&types, "id"), "int8");
    assert_eq!(lookup_type(&types, "name"), "varchar");
    assert_eq!(lookup_type(&types, "missing"), "text");
    assert_eq!(lookup_type(&vec![], "id"), "text");
}

fn sample_row() -> CanonicalRow {
    let mut row = CanonicalRow::new();
    row.insert("id".to_string(), CanonicalValue::Int(1));
    row.insert("name".to_string(), CanonicalValue::Text("ann".to_string()));
    row.insert("note".to_string(), CanonicalValue::Null);
    row
}

#[test]
fn insert_row_statement() {
    assert_eq!(
        insert_row(Dialect::MySql, "t", &sample_row(), &vec![]),
        Statement {
            sql: "INSERT INTO `t` (`id`, `name`, `note`) VALUES (?, ?, ?)".to_string(),
            binds: vec![some("1"), some("ann"), None],
        }
    );
    assert_eq!(
        insert_row(Dialect::Sqlite, "t", &sample_row(), &vec![]),
        Statement {
            sql: "INSERT INTO \"t\" (\"id\", \"name\", \"note\") VALUES (?, ?, ?)".to_string(),
            binds: vec![some("1"), some("ann"), None],
        }
    );
}

#[test]
fn insert_row_on_postgres_numbers_and_casts_the_placeholders() {
    let types = vec![("id".to_string(), "int4".to_string()), ("name".to_string(), "varchar".to_string())];
    assert_eq!(
        insert_row(Dialect::Postgres, "t", &sample_row(), &types),
        Statement {
            sql: "INSERT INTO public.\"t\" (\"id\", \"name\", \"note\") VALUES ($1::int4, $2::varchar, $3::text)"
                .to_string(),
            binds: vec![some("1"), some("ann"), None],
        }
    );
}

#[test]
fn insert_row_without_columns() {
    assert_eq!(
        insert_row(Dialect::MySql, "t", &CanonicalRow::new(), &vec![]),
        Statement { sql: "INSERT INTO `t` () VALUES ()".to_string(), binds: vec![] }
    );
}

#[test]
fn insert_row_with_twelve_columns_numbers_past_nine() {
    let mut row = CanonicalRow::new();
    for i in 0..12 {
        row.insert(format!("c{}", i), CanonicalValue::Int(i));
    }
    let st = insert_row(Dialect::Postgres, "t", &row, &vec![]);
    assert!(st.sql.ends_with("$9::text, $10::text, $11::text, $12::text)"));
    assert_eq!(st.binds.len(), 12);
    assert_eq!(st.binds[11], some("11"));
}

#[test]
fn statement_constructors() {
    assert_eq!(Statement::unbound("X".to_string()), Statement { sql: "X".to_string(), binds: vec![] });
    assert_eq!(
        Statement::with_one("X".to_string(), "a"),
        Statement { sql: "X".to_string(), binds: vec![some("a")] }
    );
    assert_eq!(
        Statement::with_two("X".to_string(), "a", "b"),
        Statement { sql: "X".to_string(), binds: vec![some("a"), some("b")] }
    );
}
