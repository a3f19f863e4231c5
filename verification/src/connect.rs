//! What a connection is made with: where to connect, how long to wait, and
//! the settings that each kind of backend takes.

use crate::dialect::Dialect;
use crate::error::GatewayError;
use crate::text::{decimal, push_decimal};
use vstd::prelude::*;
use vstd::string::*;

verus! {

/// The seconds to wait for a connection when the caller names none.
pub const DEFAULT_TIMEOUT_SECONDS: u64 = 5;

/// The connections that a relational pool may hold at once.
pub const POOL_SIZE: u32 = 5;

/// The seconds to wait for a connection: the caller's, or the default.
pub open spec fn timeout_of(requested: Option<u64>) -> u64 {
    match requested {
        Some(seconds) => seconds,
        None => DEFAULT_TIMEOUT_SECONDS,
    }
}

/// The seconds to wait for a connection.
pub fn timeout_seconds(requested: Option<u64>) -> (r: u64)
    ensures
        r == timeout_of(requested),
{
    match requested {
        Some(seconds) => seconds,
        None => DEFAULT_TIMEOUT_SECONDS,
    }
}

/// A host and a port.
#[derive(Debug, Clone, PartialEq, Eq)]
pub struct Endpoint {
    pub host: String,
    pub port: u16,
}

/// Where a connection goes: to the local end of the tunnel where there is
/// one, else to the store itself.
pub open spec fn endpoint_of(host: Seq<char>, port: u16, tunnel_port: Option<u16>) -> (Seq<char>, u16) {
    match tunnel_port {
        Some(local) => ("127.0.0.1"@, local),
        None => (host, port),
    }
}

/// Where a connection goes.
pub fn endpoint(host: &str, port: u16, tunnel_port: Option<u16>) -> (r: Endpoint)
    ensures
        (r.host@, r.port) == endpoint_of(host@, port, tunnel_port),
{
    match tunnel_port {
        Some(local) => Endpoint { host: String::from_str("127.0.0.1"), port: local },
        None => Endpoint { host: String::from_str(host), port },
    }
}

/// The password to log in with: none where none or an empty one was given.
pub open spec fn password_of(given: Option<Seq<char>>) -> Option<Seq<char>> {
    match given {
        Some(p) => if p.len() == 0 {
            None
        } else {
            Some(p)
        },
        None => None,
    }
}

/// The database to open where the caller names none.
pub open spec fn default_database(dialect: Dialect) -> Seq<char> {
    match dialect {
        Dialect::MySql => "mysql"@,
        Dialect::Postgres => "postgres"@,
        Dialect::Sqlite => Seq::empty(),
    }
}

/// The database to open: the caller's, or the engine's default.
pub open spec fn database_of(dialect: Dialect, given: Option<Seq<char>>) -> Seq<char> {
    match given {
        Some(name) => name,
        None => default_database(dialect),
    }
}

/// The settings of a pool of connections to a relational server.
#[derive(Debug, Clone, PartialEq, Eq)]
pub struct ServerSettings {
    pub host: String,
    pub port: u16,
    pub username: String,
    pub password: Option<String>,
    pub database: String,
    pub timeout_seconds: u64,
    pub max_connections: u32,
    /// Whether to connect without TLS. Postgres does, so that a tunnel's
    /// loopback address is not held against the server's certificate.
    pub plaintext: bool,
}

/// The mathematical model of [`ServerSettings`].
pub struct ServerSettingsModel {
    pub host: Seq<char>,
    pub port: u16,
    pub username: Seq<char>,
    pub password: Option<Seq<char>>,
    pub database: Seq<char>,
    pub timeout_seconds: u64,
    pub max_connections: u32,
    pub plaintext: bool,
}

impl View for ServerSettings {
    type V = ServerSettingsModel;

    open spec fn view(&self) -> ServerSettingsModel {
        ServerSettingsModel {
            host: self.host@,
            port: self.port,
            username: self.username@,
            password: crate::text::optional_string(self.password),
            database: self.database@,
            timeout_seconds: self.timeout_seconds,
            max_connections: self.max_connections,
            plaintext: self.plaintext,
        }
    }
}

/// What a caller asks for when connecting to a server.
#[derive(Debug, Clone, PartialEq, Eq)]
pub struct ServerRequest {
    pub host: String,
    pub port: u16,
    pub username: String,
    pub password: Option<String>,
    pub database: Option<String>,
    pub timeout_seconds: Option<u64>,
}

/// The settings that a request stands for, with the tunnel's local port where
/// the connection goes through one.
pub open spec fn server_settings_of(dialect: Dialect, request: ServerRequest, tunnel_port: Option<u16>) -> ServerSettingsModel {
    ServerSettingsModel {
        host: endpoint_of(request.host@, request.port, tunnel_port).0,
        port: endpoint_of(request.host@, request.port, tunnel_port).1,
        username: request.username@,
        password: password_of(crate::text::optional_string(request.password)),
        database: database_of(dialect, crate::text::optional_string(request.database)),
        timeout_seconds: timeout_of(request.timeout_seconds),
        max_connections: POOL_SIZE,
        plaintext: dialect == Dialect::Postgres,
    }
}

/// The view of the outcome of [`server_settings`].
pub open spec fn settings_result(r: Result<ServerSettings, GatewayError>) -> Result<
    ServerSettingsModel,
    crate::error::ErrorModel,
> {
    match r {
        Ok(s) => Ok(s@),
        Err(e) => Err(e@),
    }
}

/// Works out the settings of a pool of connections to a MySQL or Postgres
/// server. SQLite has no server: for it the answer is `Unsupported`.
pub fn server_settings(dialect: Dialect, request: &ServerRequest, tunnel_port: Option<u16>) -> (r: Result<
    ServerSettings,
    GatewayError,
>)
    ensures
        settings_result(r) == if dialect == Dialect::Sqlite {
            Err(crate::error::ErrorModel::Unsupported)
        } else {
            Ok(server_settings_of(dialect, *request, tunnel_port))
        },
{
    let plaintext = match dialect {
        Dialect::MySql => false,
        Dialect::Postgres => true,
        Dialect::Sqlite => {
            return Err(GatewayError::Unsupported);
        },
    };
    let target = endpoint(request.host.as_str(), request.port, tunnel_port);
    let password = match &request.password {
        Some(p) => if p.as_str().is_empty() {
            None
        } else {
            Some(p.clone())
        },
        None => None,
    };
    let database = match &request.database {
        Some(name) => name.clone(),
        None => match dialect {
            Dialect::MySql => String::from_str("mysql"),
            _ => String::from_str("postgres"),
        },
    };
    Ok(
        ServerSettings {
            host: target.host,
            port: target.port,
            username: request.username.clone(),
            password,
            database,
            timeout_seconds: timeout_seconds(request.timeout_seconds),
            max_connections: POOL_SIZE,
            plaintext,
        },
    )
}

/// The address of an SQLite database file.
pub open spec fn sqlite_url_text(path: Seq<char>) -> Seq<char> {
    "sqlite://"@ + path
}

/// The address of an SQLite database file.
pub fn sqlite_url(path: &str) -> (r: String)
    ensures
        r@ == sqlite_url_text(path@),
{
    let mut out = String::from_str("sqlite://");
    out.append(path);
    out
}

/// The address of a document store.
pub open spec fn document_url_text(host: Seq<char>, port: u16) -> Seq<char> {
    "mongodb://"@ + host + ":"@ + decimal(port as nat)
}

/// The settings of a client of a document store.
#[derive(Debug, Clone, PartialEq, Eq)]
pub struct DocumentSettings {
    pub url: String,
    pub timeout_seconds: u64,
    pub credential: Option<(String, String)>,
}

/// The credential to log in with: a name and a password where both were
/// given, and none otherwise.
pub open spec fn credential_of(username: Option<Seq<char>>, password: Option<Seq<char>>) -> Option<
    (Seq<char>, Seq<char>),
> {
    match (username, password) {
        (Some(u), Some(p)) => Some((u, p)),
        _ => None,
    }
}

/// The view of a credential.
pub open spec fn credential_text(c: Option<(String, String)>) -> Option<(Seq<char>, Seq<char>)> {
    match c {
        Some(pair) => Some((pair.0@, pair.1@)),
        None => None,
    }
}

/// Works out the settings of a client of a document store.
pub fn document_settings(
    host: &str,
    port: u16,
    username: Option<&str>,
    password: Option<&str>,
    timeout: Option<u64>,
    tunnel_port: Option<u16>,
) -> (r: DocumentSettings)
    ensures
        r.url@ == document_url_text(
            endpoint_of(host@, port, tunnel_port).0,
            endpoint_of(host@, port, tunnel_port).1,
        ),
        r.timeout_seconds == timeout_of(timeout),
        credential_text(r.credential) == credential_of(
            crate::text::optional_str(username),
            crate::text::optional_str(password),
        ),
{
    let target = endpoint(host, port, tunnel_port);
    let mut url = String::from_str("mongodb://");
    url.append(target.host.as_str());
    url.append(":");
    push_decimal(&mut url, target.port as u64);
    let credential = match username {
        Some(u) => match password {
            Some(p) => Some((String::from_str(u), String::from_str(p))),
            None => None,
        },
        None => None,
    };
    DocumentSettings { url, timeout_seconds: timeout_seconds(timeout), credential }
}

/// The settings of a client of a key-value store.
#[derive(Debug, Clone, PartialEq, Eq)]
pub struct KeyValueSettings {
    pub host: String,
    pub port: u16,
    pub database: i64,
    pub password: Option<String>,
    pub timeout_seconds: u64,
}

/// Works out the settings of a client of a key-value store: the first
/// database, no user name, and the password as it was given.
pub fn key_value_settings(
    host: &str,
    port: u16,
    password: Option<&str>,
    timeout: Option<u64>,
    tunnel_port: Option<u16>,
) -> (r: KeyValueSettings)
    ensures
        (r.host@, r.port) == endpoint_of(host@, port, tunnel_port),
        r.database == 0,
        crate::text::optional_string(r.password) == crate::text::optional_str(password),
        r.timeout_seconds == timeout_of(timeout),
{
    let target = endpoint(host, port, tunnel_port);
    let password = match password {
        Some(p) => Some(String::from_str(p)),
        None => None,
    };
    KeyValueSettings {
        host: target.host,
        port: target.port,
        database: 0,
        password,
        timeout_seconds: timeout_seconds(timeout),
    }
}

} // verus!
