use db_gateway::catalog::{
    declared_type_lookup, declared_types_lookup, get_columns, get_primary_key, list_databases_with_size,
    list_functions, list_procedures, list_tables, list_tables_with_size, list_views, use_database,
};
use db_gateway::dialect::Dialect;
use db_gateway::statement::Statement;

fn some(s: &str) -> Option<String> {
    Some(s.to_string())
}

#[test]
fn list_tables_statement() {
    assert_eq!(
        list_tables(Dialect::MySql),
        Statement { sql: "SHOW FULL TABLES WHERE Table_type = 'BASE TABLE'".to_string(), binds: vec![] }
    );
    assert_eq!(
        list_tables(Dialect::Postgres).sql,
        "SELECT table_name::text FROM information_schema.tables WHERE table_schema = 'public' AND table_type = 'BASE TABLE'"
    );
    assert_eq!(
        list_tables(Dialect::Sqlite).sql,
        "SELECT name FROM sqlite_master WHERE type='table' AND name NOT LIKE 'sqlite_%'"
    );
}

#[test]
fn listings_that_sqlite_lacks() {
    assert_eq!(list_views(Dialect::Sqlite), None);
    assert_eq!(list_functions(Dialect::Sqlite), None);
    assert_eq!(list_procedures(Dialect::Sqlite), None);
    assert_eq!(list_databases_with_size(Dialect::Sqlite), None);
    assert_eq!(list_tables_with_size(Dialect::Sqlite, "main"), None);
    assert_eq!(use_database(Dialect::Sqlite, "main"), None);
    assert_eq!(use_database(Dialect::Postgres, "db"), None);
}

#[test]
fn list_views_functions_procedures() {
    assert_eq!(list_views(Dialect::MySql).unwrap().sql, "SHOW FULL TABLES WHERE Table_type = 'VIEW'");
    assert_eq!(
        list_views(Dialect::Postgres).unwrap().sql,
        "SELECT table_name::text FROM information_schema.views WHERE table_schema = 'public'"
    );
    assert_eq!(
        list_functions(Dialect::MySql).unwrap().sql,
        "SELECT CONVERT(ROUTINE_NAME USING utf8) FROM information_schema.ROUTINES WHERE ROUTINE_TYPE = 'FUNCTION' AND ROUTINE_SCHEMA = DATABASE()"
    );
    assert_eq!(
        list_functions(Dialect::Postgres).unwrap().sql,
        "SELECT routine_name::text FROM information_schema.routines WHERE routine_type = 'FUNCTION' AND routine_schema = 'public'"
    );
    assert_eq!(
        list_procedures(Dialect::MySql).unwrap().sql,
        "SELECT CONVERT(ROUTINE_NAME USING utf8) FROM information_schema.ROUTINES WHERE ROUTINE_TYPE = 'PROCEDURE' AND ROUTINE_SCHEMA = DATABASE()"
    );
    assert_eq!(
        list_procedures(Dialect::Postgres).unwrap().sql,
        "SELECT routine_name::text FROM information_schema.routines WHERE routine_type = 'PROCEDURE' AND routine_schema = 'public'"
    );
}

#[test]
fn databases_and_sizes() {
    assert_eq!(
        list_databases_with_size(Dialect::MySql).unwrap().sql,
        "SELECT CONVERT(s.schema_name USING utf8) as schema_name, CAST(COALESCE(SUM(t.data_length + t.index_length), 0) AS SIGNED) as size FROM information_schema.schemata s LEFT JOIN information_schema.tables t ON s.schema_name = t.table_schema GROUP BY s.schema_name ORDER BY s.schema_name"
    );
    assert_eq!(
        list_databases_with_size(Dialect::Postgres).unwrap().sql,
        "SELECT datname::text, pg_database_size(datname) as size FROM pg_database WHERE datistemplate = false AND has_database_privilege(datname, 'CONNECT') ORDER BY datname"
    );
    assert_eq!(use_database(Dialect::MySql, "shop").unwrap().sql, "USE `shop`");
    assert_eq!(
        list_tables_with_size(Dialect::MySql, "shop").unwrap().sql,
        "SELECT CONVERT(TABLE_NAME USING utf8) as TABLE_NAME, CAST(COALESCE(DATA_LENGTH + INDEX_LENGTH, 0) AS SIGNED) as size FROM information_schema.TABLES WHERE TABLE_SCHEMA = 'shop' ORDER BY TABLE_NAME"
    );
    assert_eq!(
        list_tables_with_size(Dialect::Postgres, "shop").unwrap().sql,
        "SELECT table_name::text, pg_total_relation_size(quote_ident(table_name)) as size FROM information_schema.tables WHERE table_schema = 'public' ORDER BY table_name"
    );
}

#[test]
fn columns_statement() {
    assert_eq!(
        get_columns(Dialect::MySql, "t"),
        Statement {
            sql: "SELECT COLUMN_NAME FROM information_schema.COLUMNS WHERE TABLE_SCHEMA = DATABASE() AND TABLE_NAME = ? ORDER BY ORDINAL_POSITION".to_string(),
            binds: vec![some("t")],
        }
    );
    assert_eq!(
        get_columns(Dialect::Postgres, "t"),
        Statement {
            sql: "SELECT column_name::text FROM information_schema.columns WHERE table_schema = 'public' AND table_name = $1 ORDER BY ordinal_position".to_string(),
            binds: vec![some("t")],
        }
    );
    assert_eq!(
        get_columns(Dialect::Sqlite, "t"),
        Statement { sql: "PRAGMA table_info(\"t\")".to_string(), binds: vec![] }
    );
}

#[test]
fn primary_key_statement() {
    assert_eq!(
        get_primary_key(Dialect::MySql, "t"),
        Statement {
            sql: "SELECT COLUMN_NAME FROM information_schema.KEY_COLUMN_USAGE WHERE TABLE_NAME = ? AND CONSTRAINT_NAME = 'PRIMARY' AND TABLE_SCHEMA = DATABASE() ORDER BY ORDINAL_POSITION LIMIT 2".to_string(),
            binds: vec![some("t")],
        }
    );
    assert_eq!(
        get_primary_key(Dialect::Postgres, "t"),
        Statement {
            sql: "SELECT kcu.column_name::text FROM information_schema.key_column_usage kcu JOIN information_schema.table_constraints tc ON kcu.constraint_name = tc.constraint_name AND kcu.table_schema = tc.table_schema AND kcu.table_name = tc.table_name WHERE kcu.table_schema = 'public' AND kcu.table_name = $1 AND tc.constraint_type = 'PRIMARY KEY' ORDER BY kcu.ordinal_position LIMIT 2".to_string(),
            binds: vec![some("t")],
        }
    );
    assert_eq!(get_primary_key(Dialect::Sqlite, "t").sql, "PRAGMA table_info(\"t\")");
}

#[test]
fn declared_type_lookups_are_for_postgres_alone() {
    assert_eq!(declared_type_lookup(Dialect::MySql, "t", "c"), None);
    assert_eq!(declared_type_lookup(Dialect::Sqlite, "t", "c"), None);
    assert_eq!(declared_types_lookup(Dialect::MySql, "t"), None);
    assert_eq!(declared_types_lookup(Dialect::Sqlite, "t"), None);
    assert_eq!(
        declared_type_lookup(Dialect::Postgres, "t", "c"),
        Some(Statement {
            sql: "SELECT udt_name::text FROM information_schema.columns WHERE table_schema = 'public' AND table_name = $1 AND column_name = $2".to_string(),
            binds: vec![some("t"), some("c")],
        })
    );
    assert_eq!(
        declared_types_lookup(Dialect::Postgres, "t"),
        Some(Statement {
            sql: "SELECT column_name::text, udt_name::text FROM information_schema.columns WHERE table_schema = 'public' AND table_name = $1".to_string(),
            binds: vec![some("t")],
        })
    );
}

#[test]
fn list_tables_leaves_views_out() {
    for dialect in [Dialect::MySql, Dialect::Postgres] {
        assert!(list_tables(dialect).sql.contains("BASE TABLE"));
    }
    assert!(list_tables(Dialect::Sqlite).sql.contains("type='table'"));
}
