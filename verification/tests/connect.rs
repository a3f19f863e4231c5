use db_gateway::connect::{
    document_settings, endpoint, key_value_settings, server_settings, sqlite_url, timeout_seconds,
    DocumentSettings, Endpoint, KeyValueSettings, ServerRequest, ServerSettings,
};
use db_gateway::dialect::Dialect;
use db_gateway::error::GatewayError;

#[test]
fn timeout_defaults_to_five_seconds() {
    assert_eq!(timeout_seconds(None), 5);
    assert_eq!(timeout_seconds(Some(30)), 30);
    assert_eq!(timeout_seconds(Some(0)), 0);
}

#[test]
fn endpoint_goes_through_the_tunnel_where_there_is_one() {
    assert_eq!(endpoint("db", 3306, None), Endpoint { host: "db".to_string(), port: 3306 });
    assert_eq!(endpoint("db", 3306, Some(40001)), Endpoint { host: "127.0.0.1".to_string(), port: 40001 });
}

fn request() -> ServerRequest {
    ServerRequest {
        host: "db".to_string(),
        port: 3306,
        username: "root".to_string(),
        password: None,
        database: None,
        timeout_seconds: None,
    }
}

#[test]
fn server_settings_defaults() {
    assert_eq!(
        server_settings(Dialect::MySql, &request(), None),
        Ok(ServerSettings {
            host: "db".to_string(),
            port: 3306,
            username: "root".to_string(),
            password: None,
            database: "mysql".to_string(),
            timeout_seconds: 5,
            max_connections: 5,
            plaintext: false,
        })
    );
    assert_eq!(
        server_settings(Dialect::Postgres, &request(), None),
        Ok(ServerSettings {
            host: "db".to_string(),
            port: 3306,
            username: "root".to_string(),
            password: None,
            database: "postgres".to_string(),
            timeout_seconds: 5,
            max_connections: 5,
            plaintext: true,
        })
    );
}

#[test]
fn server_settings_as_requested() {
    let mut r = request();
    r.password = Some("pw".to_string());
    r.database = Some("shop".to_string());
    r.timeout_seconds = Some(9);
    assert_eq!(
        server_settings(Dialect::MySql, &r, Some(40001)),
        Ok(ServerSettings {
            host: "127.0.0.1".to_string(),
            port: 40001,
            username: "root".to_string(),
            password: Some("pw".to_string()),
            database: "shop".to_string(),
            timeout_seconds: 9,
            max_connections: 5,
            plaintext: false,
        })
    );
}

#[test]
fn an_empty_password_is_no_password() {
    let mut r = request();
    r.password = Some(String::new());
    assert_eq!(server_settings(Dialect::Postgres, &r, None).unwrap().password, None);
}

#[test]
fn sqlite_has_no_server() {
    assert_eq!(server_settings(Dialect::Sqlite, &request(), None), Err(GatewayError::Unsupported));
    assert_eq!(sqlite_url("/tmp/a.db"), "sqlite:///tmp/a.db");
    assert_eq!(sqlite_url(":memory:"), "sqlite://:memory:");
}

#[test]
fn document_settings_take_a_credential_only_when_it_is_whole() {
    assert_eq!(
        document_settings("mongo", 27017, Some("u"), Some("p"), None, None),
        DocumentSettings {
            url: "mongodb://mongo:27017".to_string(),
            timeout_seconds: 5,
            credential: Some(("u".to_string(), "p".to_string())),
        }
    );
    assert_eq!(document_settings("mongo", 27017, Some("u"), None, None, None).credential, None);
    assert_eq!(document_settings("mongo", 27017, None, Some("p"), None, None).credential, None);
    assert_eq!(
        document_settings("mongo", 27017, None, None, Some(2), Some(40009)),
        DocumentSettings { url: "mongodb://127.0.0.1:40009".to_string(), timeout_seconds: 2, credential: None }
    );
}

#[test]
fn key_value_settings_use_the_first_database() {
    assert_eq!(
        key_value_settings("cache", 6379, Some(""), None, None),
        KeyValueSettings {
            host: "cache".to_string(),
            port: 6379,
            database: 0,
            password: Some(String::new()),
            timeout_seconds: 5,
        }
    );
    assert_eq!(
        key_value_settings("cache", 6379, None, Some(1), Some(40002)),
        KeyValueSettings {
            host: "127.0.0.1".to_string(),
            port: 40002,
            database: 0,
            password: None,
            timeout_seconds: 1,
        }
    );
}
