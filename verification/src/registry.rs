//! The connection registry: for each kind of backend at most one live
//! connection and at most one live tunnel.

use crate::dialect::Dialect;
use crate::error::{ErrorModel, GatewayError};
use vstd::prelude::*;
use vstd::string::*;

verus! {

/// A kind of store that the gateway connects to.
#[derive(Debug, Clone, Copy, PartialEq, Eq, Structural)]
pub enum BackendKind {
    KeyValue,
    MySql,
    Postgres,
    Sqlite,
    Document,
}

/// The kind of backend that speaks a dialect.
pub open spec fn backend_of(dialect: Dialect) -> BackendKind {
    match dialect {
        Dialect::MySql => BackendKind::MySql,
        Dialect::Postgres => BackendKind::Postgres,
        Dialect::Sqlite => BackendKind::Sqlite,
    }
}

/// The tag that names a kind of backend.
pub open spec fn tag_text(kind: BackendKind) -> Seq<char> {
    match kind {
        BackendKind::KeyValue => "redis"@,
        BackendKind::MySql => "mysql"@,
        BackendKind::Postgres => "postgres"@,
        BackendKind::Sqlite => "sqlite"@,
        BackendKind::Document => "mongodb"@,
    }
}

/// The message that reports a new connection.
pub open spec fn connected_text(kind: BackendKind) -> Seq<char> {
    match kind {
        BackendKind::KeyValue => "Connected to Redis"@,
        BackendKind::MySql => "Connected to MySQL"@,
        BackendKind::Postgres => "Connected to PostgreSQL"@,
        BackendKind::Sqlite => "Connected to SQLite"@,
        BackendKind::Document => "Connected to MongoDB"@,
    }
}

impl BackendKind {
    /// The kind of backend that speaks a dialect.
    pub fn of_dialect(dialect: Dialect) -> (kind: BackendKind)
        ensures
            kind == backend_of(dialect),
    {
        match dialect {
            Dialect::MySql => BackendKind::MySql,
            Dialect::Postgres => BackendKind::Postgres,
            Dialect::Sqlite => BackendKind::Sqlite,
        }
    }

    /// The tag that names this kind, under which its tunnel is kept.
    pub fn tag(self) -> (r: &'static str)
        ensures
            r@ == tag_text(self),
    {
        match self {
            BackendKind::KeyValue => "redis",
            BackendKind::MySql => "mysql",
            BackendKind::Postgres => "postgres",
            BackendKind::Sqlite => "sqlite",
            BackendKind::Document => "mongodb",
        }
    }

    /// The message that reports a new connection of this kind.
    pub fn connected_message(self) -> (r: String)
        ensures
            r@ == connected_text(self),
    {
        match self {
            BackendKind::KeyValue => String::from_str("Connected to Redis"),
            BackendKind::MySql => String::from_str("Connected to MySQL"),
            BackendKind::Postgres => String::from_str("Connected to PostgreSQL"),
            BackendKind::Sqlite => String::from_str("Connected to SQLite"),
            BackendKind::Document => String::from_str("Connected to MongoDB"),
        }
    }
}

/// A live connection: the handle (a pool or a client) and when it was made.
pub struct Connection<H> {
    pub handle: H,
    pub created_at: u64,
}

/// A live tunnel: the authenticated session and the local port it listens on.
pub struct TunnelSession<T> {
    pub session: T,
    pub local_port: u16,
}

/// How an attempt to connect ended.
pub enum ConnectOutcome<H> {
    /// The connection was made.
    Made(H),
    /// The time allowed ran out first.
    TimedOut,
    /// The store or the network refused; the message is the driver's.
    Refused(String),
}

/// What an attempt to connect comes to: the handle, a timeout, or a connect
/// error with the driver's message.
pub open spec fn concluded<H>(outcome: ConnectOutcome<H>) -> Result<H, ErrorModel> {
    match outcome {
        ConnectOutcome::Made(handle) => Ok(handle),
        ConnectOutcome::TimedOut => Err(ErrorModel::Timeout),
        ConnectOutcome::Refused(m) => Err(ErrorModel::Connect(m@)),
    }
}

/// Sorts the end of an attempt to connect into a handle or a failure.
pub fn conclude<H>(outcome: ConnectOutcome<H>) -> (r: Result<H, GatewayError>)
    ensures
        crate::error::result_view(r) == concluded(outcome),
{
    match outcome {
        ConnectOutcome::Made(handle) => Ok(handle),
        ConnectOutcome::TimedOut => Err(GatewayError::Timeout),
        ConnectOutcome::Refused(m) => Err(GatewayError::Connect(m)),
    }
}

/// One attempt to connect: the kind, the tunnel that the attempt went
/// through if it went through one, and the connection if it was made.
pub struct Attempt<H, T> {
    pub kind: BackendKind,
    pub tunnel: Option<TunnelSession<T>>,
    pub made: Option<Connection<H>>,
}

/// The registry. `H` is the type of a connection handle, `T` that of a
/// tunnel's session.
pub struct Registry<H, T> {
    key_value: Option<Connection<H>>,
    mysql: Option<Connection<H>>,
    postgres: Option<Connection<H>>,
    sqlite: Option<Connection<H>>,
    document: Option<Connection<H>>,
    key_value_tunnel: Option<TunnelSession<T>>,
    mysql_tunnel: Option<TunnelSession<T>>,
    postgres_tunnel: Option<TunnelSession<T>>,
    sqlite_tunnel: Option<TunnelSession<T>>,
    document_tunnel: Option<TunnelSession<T>>,
}

impl<H, T> Registry<H, T> {
    /// The connection in the slot of a kind.
    pub closed spec fn connection(&self, kind: BackendKind) -> Option<Connection<H>> {
        match kind {
            BackendKind::KeyValue => self.key_value,
            BackendKind::MySql => self.mysql,
            BackendKind::Postgres => self.postgres,
            BackendKind::Sqlite => self.sqlite,
            BackendKind::Document => self.document,
        }
    }

    /// The tunnel kept for a kind.
    pub closed spec fn tunnel(&self, kind: BackendKind) -> Option<TunnelSession<T>> {
        match kind {
            BackendKind::KeyValue => self.key_value_tunnel,
            BackendKind::MySql => self.mysql_tunnel,
            BackendKind::Postgres => self.postgres_tunnel,
            BackendKind::Sqlite => self.sqlite_tunnel,
            BackendKind::Document => self.document_tunnel,
        }
    }

    /// Whether every slot is empty and no tunnel is kept.
    pub open spec fn is_empty(&self) -> bool {
        &&& forall|kind: BackendKind| (#[trigger] self.connection(kind)) is None
        &&& forall|kind: BackendKind| (#[trigger] self.tunnel(kind)) is None
    }

    /// Whether `self` is `before` with the slot of `kind` holding `made`, and
    /// nothing else changed.
    pub open spec fn replaces(&self, before: &Self, kind: BackendKind, made: Connection<H>) -> bool {
        &&& self.connection(kind) == Some(made)
        &&& forall|other: BackendKind|
            other != kind ==> #[trigger] self.connection(other) == before.connection(other)
        &&& forall|any: BackendKind| #[trigger] self.tunnel(any) == before.tunnel(any)
    }

    /// Whether `self` is `before` after a connection of `kind` was made: the
    /// slot holds it; the tunnel that the connection goes through, if it goes
    /// through one, is kept for the kind; nothing else changed. A connection
    /// made without a tunnel leaves the kind's tunnel entry as it was.
    pub open spec fn settles(
        &self,
        before: &Self,
        kind: BackendKind,
        made: Connection<H>,
        tunnel: Option<TunnelSession<T>>,
    ) -> bool {
        &&& self.connection(kind) == Some(made)
        &&& self.tunnel(kind) == match tunnel {
            Some(t) => Some(t),
            None => before.tunnel(kind),
        }
        &&& forall|other: BackendKind|
            other != kind ==> #[trigger] self.connection(other) == before.connection(other)
        &&& forall|other: BackendKind|
            other != kind ==> #[trigger] self.tunnel(other) == before.tunnel(other)
    }

    /// A registry with every slot empty.
    pub fn new() -> (r: Self)
        ensures
            r.is_empty(),
    {
        Registry {
            key_value: None,
            mysql: None,
            postgres: None,
            sqlite: None,
            document: None,
            key_value_tunnel: None,
            mysql_tunnel: None,
            postgres_tunnel: None,
            sqlite_tunnel: None,
            document_tunnel: None,
        }
    }

    /// Puts a connection into the slot of its kind, whatever the slot held:
    /// the last writer wins, and what was there before is dropped.
    pub fn set(&mut self, kind: BackendKind, handle: H, now: u64)
        ensures
            final(self).replaces(old(self), kind, Connection { handle, created_at: now }),
            *final(self) == old(self).with_connection(kind, Connection { handle, created_at: now }),
    {
        let made = Some(Connection { handle, created_at: now });
        match kind {
            BackendKind::KeyValue => {
                self.key_value = made;
            },
            BackendKind::MySql => {
                self.mysql = made;
            },
            BackendKind::Postgres => {
                self.postgres = made;
            },
            BackendKind::Sqlite => {
                self.sqlite = made;
            },
            BackendKind::Document => {
                self.document = made;
            },
        }
    }

    fn slot(&self, kind: BackendKind) -> (r: &Option<Connection<H>>)
        ensures
            *r == self.connection(kind),
    {
        match kind {
            BackendKind::KeyValue => &self.key_value,
            BackendKind::MySql => &self.mysql,
            BackendKind::Postgres => &self.postgres,
            BackendKind::Sqlite => &self.sqlite,
            BackendKind::Document => &self.document,
        }
    }

    /// The handle in the slot of a kind; an empty slot is `NotConnected`.
    pub fn get(&self, kind: BackendKind) -> (r: Result<&H, GatewayError>)
        ensures
            match self.connection(kind) {
                Some(c) => r == Ok::<&H, GatewayError>(&c.handle),
                None => r == Err::<&H, GatewayError>(GatewayError::NotConnected),
            },
    {
        match self.slot(kind) {
            Some(c) => Ok(&c.handle),
            None => Err(GatewayError::NotConnected),
        }
    }

    /// Whether the slot of a kind holds a connection.
    pub fn is_connected(&self, kind: BackendKind) -> (r: bool)
        ensures
            r == self.connection(kind) is Some,
    {
        self.slot(kind).is_some()
    }

    /// When the connection of a kind was made.
    pub fn created_at(&self, kind: BackendKind) -> (r: Option<u64>)
        ensures
            match self.connection(kind) {
                Some(c) => r == Some(c.created_at),
                None => r is None,
            },
    {
        match self.slot(kind) {
            Some(c) => Some(c.created_at),
            None => None,
        }
    }

    fn set_tunnel(&mut self, kind: BackendKind, kept: TunnelSession<T>)
        ensures
            *final(self) == old(self).with_tunnel(kind, kept),
    {
        match kind {
            BackendKind::KeyValue => {
                self.key_value_tunnel = Some(kept);
            },
            BackendKind::MySql => {
                self.mysql_tunnel = Some(kept);
            },
            BackendKind::Postgres => {
                self.postgres_tunnel = Some(kept);
            },
            BackendKind::Sqlite => {
                self.sqlite_tunnel = Some(kept);
            },
            BackendKind::Document => {
                self.document_tunnel = Some(kept);
            },
        }
    }

    /// The tunnel kept for a kind.
    pub fn get_tunnel(&self, kind: BackendKind) -> (r: Option<&TunnelSession<T>>)
        ensures
            match self.tunnel(kind) {
                Some(t) => r == Some(&t),
                None => r is None,
            },
    {
        match kind {
            BackendKind::KeyValue => self.key_value_tunnel.as_ref(),
            BackendKind::MySql => self.mysql_tunnel.as_ref(),
            BackendKind::Postgres => self.postgres_tunnel.as_ref(),
            BackendKind::Sqlite => self.sqlite_tunnel.as_ref(),
            BackendKind::Document => self.document_tunnel.as_ref(),
        }
    }

    /// Ends an attempt to connect, together with the tunnel that it went
    /// through. A connection that was made takes its slot, its tunnel is kept
    /// with it, and the message of success is returned. A failure is handed
    /// on and the registry stays as it was: neither the connection nor the
    /// tunnel is stored.
    pub fn settle(
        &mut self,
        kind: BackendKind,
        tunnel: Option<TunnelSession<T>>,
        outcome: Result<H, GatewayError>,
        now: u64,
    ) -> (r: Result<String, GatewayError>)
        ensures
            match outcome {
                Ok(handle) => {
                    &&& final(self).settles(
                        old(self),
                        kind,
                        Connection { handle, created_at: now },
                        tunnel,
                    )
                    &&& *final(self) == old(self).settled(
                        kind,
                        tunnel,
                        Some(Connection { handle, created_at: now }),
                    )
                    &&& r is Ok
                    &&& r->Ok_0@ == connected_text(kind)
                },
                Err(e) => *final(self) == *old(self) && *final(self) == old(self).settled(
                    kind,
                    tunnel,
                    None,
                ) && r == Err::<String, GatewayError>(e),
            },
    {
        match outcome {
            Ok(handle) => {
                self.set(kind, handle, now);
                match tunnel {
                    Some(kept) => {
                        self.set_tunnel(kind, kept);
                    },
                    None => {},
                }
                Ok(kind.connected_message())
            },
            Err(e) => Err(e),
        }
    }

    /// The registry with the slot of `kind` holding `made`.
    pub closed spec fn with_connection(self, kind: BackendKind, made: Connection<H>) -> Self {
        match kind {
            BackendKind::KeyValue => Registry { key_value: Some(made), ..self },
            BackendKind::MySql => Registry { mysql: Some(made), ..self },
            BackendKind::Postgres => Registry { postgres: Some(made), ..self },
            BackendKind::Sqlite => Registry { sqlite: Some(made), ..self },
            BackendKind::Document => Registry { document: Some(made), ..self },
        }
    }

    /// The registry with `kept` as the tunnel of `kind`.
    pub closed spec fn with_tunnel(self, kind: BackendKind, kept: TunnelSession<T>) -> Self {
        match kind {
            BackendKind::KeyValue => Registry { key_value_tunnel: Some(kept), ..self },
            BackendKind::MySql => Registry { mysql_tunnel: Some(kept), ..self },
            BackendKind::Postgres => Registry { postgres_tunnel: Some(kept), ..self },
            BackendKind::Sqlite => Registry { sqlite_tunnel: Some(kept), ..self },
            BackendKind::Document => Registry { document_tunnel: Some(kept), ..self },
        }
    }

    /// The registry after an attempt to connect is settled: unchanged where
    /// no connection was made; else with the connection in its slot and,
    /// where the attempt went through a tunnel, the tunnel kept for the kind.
    pub open spec fn settled(
        self,
        kind: BackendKind,
        tunnel: Option<TunnelSession<T>>,
        made: Option<Connection<H>>,
    ) -> Self {
        match made {
            None => self,
            Some(connection) => match tunnel {
                None => self.with_connection(kind, connection),
                Some(kept) => self.with_connection(kind, connection).with_tunnel(kind, kept),
            },
        }
    }

    /// Filling a slot changes that slot and nothing else.
    pub proof fn with_connection_replaces(self, kind: BackendKind, made: Connection<H>)
        ensures
            self.with_connection(kind, made).replaces(&self, kind, made),
    {
    }

    /// Settling a connection that was made changes the kind's slot and, where
    /// there is a tunnel, the kind's tunnel, and nothing else.
    pub proof fn settled_settles(
        self,
        kind: BackendKind,
        tunnel: Option<TunnelSession<T>>,
        made: Connection<H>,
    )
        ensures
            self.settled(kind, tunnel, Some(made)).settles(&self, kind, made, tunnel),
    {
    }

    /// The registry that a sequence of attempts leaves, each settled in turn.
    pub open spec fn after(start: Self, attempts: Seq<Attempt<H, T>>) -> Self
        decreases attempts.len(),
    {
        if attempts.len() == 0 {
            start
        } else {
            Self::after(start, attempts.drop_last()).settled(
                attempts.last().kind,
                attempts.last().tunnel,
                attempts.last().made,
            )
        }
    }

    /// A slot is empty, and `get` answers `NotConnected`, as long as no
    /// attempt to connect to its kind has succeeded: whatever else was
    /// attempted, and in whatever order. No tunnel is kept for the kind
    /// either: an attempt that fails leaves nothing behind, with or without a
    /// tunnel.
    pub proof fn empty_until_connected(start: Self, attempts: Seq<Attempt<H, T>>, kind: BackendKind)
        requires
            start.is_empty(),
            forall|i: int|
                0 <= i < attempts.len() && (#[trigger] attempts[i]).kind == kind ==> attempts[i].made is None,
        ensures
            Self::after(start, attempts).connection(kind) is None,
            Self::after(start, attempts).tunnel(kind) is None,
        decreases attempts.len(),
    {
        if attempts.len() > 0 {
            assert forall|i: int|
                0 <= i < attempts.drop_last().len() && (#[trigger] attempts.drop_last()[i]).kind
                    == kind implies attempts.drop_last()[i].made is None by {
                assert(attempts.drop_last()[i] == attempts[i]);
            }
            Self::empty_until_connected(start, attempts.drop_last(), kind);
            assert(attempts.last() == attempts[attempts.len() - 1]);
        }
    }

    /// A failed attempt leaves the registry as it was, whether or not it went
    /// through a tunnel.
    pub proof fn failed_attempt_changes_nothing(
        self,
        kind: BackendKind,
        tunnel: Option<TunnelSession<T>>,
    )
        ensures
            self.settled(kind, tunnel, None) == self,
    {
    }
}

} // verus!
