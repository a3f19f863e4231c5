//! The tunnel manager's decisions: what to do next as a tunnel is set up and
//! as local connections arrive. The caller performs each action and reports
//! what came of it.

use crate::error::{ErrorModel, GatewayError};
use vstd::prelude::*;
use vstd::string::*;

verus! {

/// Where to log in, and with what.
#[derive(Debug, Clone, PartialEq, Eq)]
pub struct SshTarget {
    pub host: String,
    pub port: u16,
    pub username: String,
    pub password: Option<String>,
}

/// A tunnel to set up: the login, and the host and port that local
/// connections are forwarded to.
#[derive(Debug, Clone, PartialEq, Eq)]
pub struct Tunnel {
    pub target: SshTarget,
    pub remote_host: String,
    pub remote_port: u16,
}

/// How far a tunnel has come.
#[derive(Debug, Clone, Copy, PartialEq, Eq, Structural)]
pub enum TunnelState {
    /// The transport to the login host is being opened.
    Connecting,
    /// The password was sent.
    Authenticating,
    /// The local listening socket is being bound.
    Binding,
    /// The tunnel stands and waits for a local connection.
    Accepting { local_port: u16 },
    /// A local connection was accepted and its forwarded channel is being
    /// opened.
    Opening { local_port: u16 },
    /// Setting up failed.
    Failed,
    /// The listener is gone; nothing is forwarded any more.
    Stopped,
}

/// What came of the last action.
#[derive(Debug, Clone, PartialEq, Eq)]
pub enum TunnelEvent {
    Connected,
    ConnectFailed(String),
    Authenticated,
    AuthRejected,
    AuthFailed(String),
    Bound(u16),
    BindFailed(String),
    Accepted,
    AcceptFailed,
    ChannelOpened,
    ChannelFailed(String),
}

/// What to do next.
#[derive(Debug, Clone, PartialEq, Eq)]
pub enum TunnelAction {
    /// Open the transport to the login host.
    Connect { host: String, port: u16 },
    /// Log in with a password.
    Authenticate { username: String, password: String },
    /// Bind a listening socket to the host and port; port 0 asks the system
    /// to assign one.
    Bind { host: String, port: u16 },
    /// Hand the local port and the session to the caller, and accept local
    /// connections in the background.
    Serve { local_port: u16 },
    /// Open a forwarded channel to the remote host for the accepted
    /// connection.
    OpenChannel { host: String, port: u32, originator: String, originator_port: u32 },
    /// Copy bytes both ways between the accepted connection and the channel,
    /// in a task of its own, and accept the next connection.
    Splice,
    /// Log the failure, drop the accepted connection, and accept the next.
    Discard { reason: String },
    /// End the background task.
    Stop,
    /// Give up setting up the tunnel and report the failure.
    Fail(GatewayError),
    /// The event does not belong to the state: do nothing.
    Ignore,
}

/// The mathematical model of a [`TunnelEvent`].
pub enum EventModel {
    Connected,
    ConnectFailed(Seq<char>),
    Authenticated,
    AuthRejected,
    AuthFailed(Seq<char>),
    Bound(u16),
    BindFailed(Seq<char>),
    Accepted,
    AcceptFailed,
    ChannelOpened,
    ChannelFailed(Seq<char>),
}

/// The mathematical model of a [`TunnelAction`].
pub enum ActionModel {
    Connect { host: Seq<char>, port: u16 },
    Authenticate { username: Seq<char>, password: Seq<char> },
    Bind { host: Seq<char>, port: u16 },
    Serve { local_port: u16 },
    OpenChannel { host: Seq<char>, port: u32, originator: Seq<char>, originator_port: u32 },
    Splice,
    Discard { reason: Seq<char> },
    Stop,
    Fail(ErrorModel),
    Ignore,
}

/// The mathematical model of a [`Tunnel`].
pub struct TunnelModel {
    pub host: Seq<char>,
    pub port: u16,
    pub username: Seq<char>,
    pub password: Option<Seq<char>>,
    pub remote_host: Seq<char>,
    pub remote_port: u16,
}

impl View for TunnelEvent {
    type V = EventModel;

    open spec fn view(&self) -> EventModel {
        match self {
            TunnelEvent::Connected => EventModel::Connected,
            TunnelEvent::ConnectFailed(m) => EventModel::ConnectFailed(m@),
            TunnelEvent::Authenticated => EventModel::Authenticated,
            TunnelEvent::AuthRejected => EventModel::AuthRejected,
            TunnelEvent::AuthFailed(m) => EventModel::AuthFailed(m@),
            TunnelEvent::Bound(p) => EventModel::Bound(*p),
            TunnelEvent::BindFailed(m) => EventModel::BindFailed(m@),
            TunnelEvent::Accepted => EventModel::Accepted,
            TunnelEvent::AcceptFailed => EventModel::AcceptFailed,
            TunnelEvent::ChannelOpened => EventModel::ChannelOpened,
            TunnelEvent::ChannelFailed(m) => EventModel::ChannelFailed(m@),
        }
    }
}

impl View for TunnelAction {
    type V = ActionModel;

    open spec fn view(&self) -> ActionModel {
        match self {
            TunnelAction::Connect { host, port } => ActionModel::Connect { host: host@, port: *port },
            TunnelAction::Authenticate { username, password } => ActionModel::Authenticate {
                username: username@,
                password: password@,
            },
            TunnelAction::Bind { host, port } => ActionModel::Bind { host: host@, port: *port },
            TunnelAction::Serve { local_port } => ActionModel::Serve { local_port: *local_port },
            TunnelAction::OpenChannel { host, port, originator, originator_port } => ActionModel::OpenChannel {
                host: host@,
                port: *port,
                originator: originator@,
                originator_port: *originator_port,
            },
            TunnelAction::Splice => ActionModel::Splice,
            TunnelAction::Discard { reason } => ActionModel::Discard { reason: reason@ },
            TunnelAction::Stop => ActionModel::Stop,
            TunnelAction::Fail(e) => ActionModel::Fail(e@),
            TunnelAction::Ignore => ActionModel::Ignore,
        }
    }
}

impl View for Tunnel {
    type V = TunnelModel;

    open spec fn view(&self) -> TunnelModel {
        TunnelModel {
            host: self.target.host@,
            port: self.target.port,
            username: self.target.username@,
            password: match self.target.password {
                Some(p) => Some(p@),
                None => None,
            },
            remote_host: self.remote_host@,
            remote_port: self.remote_port,
        }
    }
}

/// Where a tunnel listens: on the loopback address alone, at a port that the
/// system assigns.
pub open spec fn listen_action() -> ActionModel {
    ActionModel::Bind { host: "127.0.0.1"@, port: 0 }
}

/// The first action of a tunnel: open the transport to the login host.
pub open spec fn first_action(tunnel: TunnelModel) -> ActionModel {
    ActionModel::Connect { host: tunnel.host, port: tunnel.port }
}

/// The state that follows `state` on `event`, and the action to take.
///
/// Setting up goes through connecting, logging in and binding, in that order;
/// a failure of any of them, or a login without a password, ends it. The
/// listener is bound to the loopback address alone. Once the
/// tunnel stands, each accepted connection gets a channel to the remote host.
/// A channel that cannot be opened costs that one connection; only the loss
/// of the listener stops the tunnel.
pub open spec fn next(tunnel: TunnelModel, state: TunnelState, event: EventModel) -> (
    TunnelState,
    ActionModel,
) {
    match (state, event) {
        (TunnelState::Connecting, EventModel::Connected) => match tunnel.password {
            Some(password) => (
                TunnelState::Authenticating,
                ActionModel::Authenticate { username: tunnel.username, password },
            ),
            None => (TunnelState::Failed, ActionModel::Fail(ErrorModel::AuthUnsupported)),
        },
        (TunnelState::Connecting, EventModel::ConnectFailed(m)) => (
            TunnelState::Failed,
            ActionModel::Fail(ErrorModel::Connect("SSH Connect Error: "@ + m)),
        ),
        (TunnelState::Authenticating, EventModel::Authenticated) => (
            TunnelState::Binding,
            listen_action(),
        ),
        (TunnelState::Authenticating, EventModel::AuthRejected) => (
            TunnelState::Failed,
            ActionModel::Fail(ErrorModel::Connect("SSH Auth Error: rejected"@)),
        ),
        (TunnelState::Authenticating, EventModel::AuthFailed(m)) => (
            TunnelState::Failed,
            ActionModel::Fail(ErrorModel::Connect("SSH Auth Error: "@ + m)),
        ),
        (TunnelState::Binding, EventModel::Bound(local_port)) => if local_port == 0 {
            (
                TunnelState::Failed,
                ActionModel::Fail(ErrorModel::Connect("no local port was assigned"@)),
            )
        } else {
            (TunnelState::Accepting { local_port }, ActionModel::Serve { local_port })
        },
        (TunnelState::Binding, EventModel::BindFailed(m)) => (
            TunnelState::Failed,
            ActionModel::Fail(ErrorModel::Connect(m)),
        ),
        (TunnelState::Accepting { local_port }, EventModel::Accepted) => (
            TunnelState::Opening { local_port },
            ActionModel::OpenChannel {
                host: tunnel.remote_host,
                port: tunnel.remote_port as u32,
                originator: "127.0.0.1"@,
                originator_port: 0,
            },
        ),
        (TunnelState::Accepting { local_port }, EventModel::AcceptFailed) => (
            TunnelState::Stopped,
            ActionModel::Stop,
        ),
        (TunnelState::Opening { local_port }, EventModel::ChannelOpened) => (
            TunnelState::Accepting { local_port },
            ActionModel::Splice,
        ),
        (TunnelState::Opening { local_port }, EventModel::ChannelFailed(m)) => (
            TunnelState::Accepting { local_port },
            ActionModel::Discard { reason: m },
        ),
        _ => (state, ActionModel::Ignore),
    }
}

/// The state that a sequence of events leads to.
pub open spec fn state_after(tunnel: TunnelModel, state: TunnelState, events: Seq<EventModel>) -> TunnelState
    decreases events.len(),
{
    if events.len() == 0 {
        state
    } else {
        next(tunnel, state_after(tunnel, state, events.drop_last()), events.last()).0
    }
}

/// Whether the tunnel stands on the given local port.
pub open spec fn serving(state: TunnelState, port: u16) -> bool {
    state == (TunnelState::Accepting { local_port: port }) || state == (TunnelState::Opening {
        local_port: port,
    })
}

impl Tunnel {
    /// Starts setting up: the state to begin in and the first action.
    pub fn start(&self) -> (r: (TunnelState, TunnelAction))
        ensures
            r.0 == TunnelState::Connecting,
            r.1@ == first_action(self@),
    {
        (
            TunnelState::Connecting,
            TunnelAction::Connect { host: self.target.host.clone(), port: self.target.port },
        )
    }

    /// Takes one step: the state after `event`, and the action to take.
    pub fn step(&self, state: TunnelState, event: TunnelEvent) -> (r: (TunnelState, TunnelAction))
        ensures
            r.0 == next(self@, state, event@).0,
            r.1@ == next(self@, state, event@).1,
    {
        match state {
            TunnelState::Connecting => match event {
                TunnelEvent::Connected => match &self.target.password {
                    Some(password) => (
                        TunnelState::Authenticating,
                        TunnelAction::Authenticate {
                            username: self.target.username.clone(),
                            password: password.clone(),
                        },
                    ),
                    None => (TunnelState::Failed, TunnelAction::Fail(GatewayError::AuthUnsupported)),
                },
                TunnelEvent::ConnectFailed(m) => {
                    let mut text = String::from_str("SSH Connect Error: ");
                    text.append(m.as_str());
                    (TunnelState::Failed, TunnelAction::Fail(GatewayError::Connect(text)))
                },
                _ => (state, TunnelAction::Ignore),
            },
            TunnelState::Authenticating => match event {
                TunnelEvent::Authenticated => (
                    TunnelState::Binding,
                    TunnelAction::Bind { host: String::from_str("127.0.0.1"), port: 0 },
                ),
                TunnelEvent::AuthRejected => (
                    TunnelState::Failed,
                    TunnelAction::Fail(
                        GatewayError::Connect(String::from_str("SSH Auth Error: rejected")),
                    ),
                ),
                TunnelEvent::AuthFailed(m) => {
                    let mut text = String::from_str("SSH Auth Error: ");
                    text.append(m.as_str());
                    (TunnelState::Failed, TunnelAction::Fail(GatewayError::Connect(text)))
                },
                _ => (state, TunnelAction::Ignore),
            },
            TunnelState::Binding => match event {
                TunnelEvent::Bound(local_port) => if local_port == 0 {
                    (
                        TunnelState::Failed,
                        TunnelAction::Fail(
                            GatewayError::Connect(String::from_str("no local port was assigned")),
                        ),
                    )
                } else {
                    (TunnelState::Accepting { local_port }, TunnelAction::Serve { local_port })
                },
                TunnelEvent::BindFailed(m) => (
                    TunnelState::Failed,
                    TunnelAction::Fail(GatewayError::Connect(m)),
                ),
                _ => (state, TunnelAction::Ignore),
            },
            TunnelState::Accepting { local_port } => match event {
                TunnelEvent::Accepted => (
                    TunnelState::Opening { local_port },
                    TunnelAction::OpenChannel {
                        host: self.remote_host.clone(),
                        port: self.remote_port as u32,
                        originator: String::from_str("127.0.0.1"),
                        originator_port: 0,
                    },
                ),
                TunnelEvent::AcceptFailed => (TunnelState::Stopped, TunnelAction::Stop),
                _ => (state, TunnelAction::Ignore),
            },
            TunnelState::Opening { local_port } => match event {
                TunnelEvent::ChannelOpened => (
                    TunnelState::Accepting { local_port },
                    TunnelAction::Splice,
                ),
                TunnelEvent::ChannelFailed(m) => (
                    TunnelState::Accepting { local_port },
                    TunnelAction::Discard { reason: m },
                ),
                _ => (state, TunnelAction::Ignore),
            },
            TunnelState::Failed => (state, TunnelAction::Ignore),
            TunnelState::Stopped => (state, TunnelAction::Ignore),
        }
    }
}

/// A tunnel that stands keeps standing, on the same port, through any events
/// among which the listener is not lost: no failure to open a channel ends
/// the accept loop.
pub proof fn stands_until_listener_lost(
    tunnel: TunnelModel,
    state: TunnelState,
    port: u16,
    events: Seq<EventModel>,
)
    requires
        serving(state, port),
        forall|i: int| 0 <= i < events.len() ==> events[i] != EventModel::AcceptFailed,
    ensures
        serving(state_after(tunnel, state, events), port),
    decreases events.len(),
{
    if events.len() > 0 {
        assert forall|i: int| 0 <= i < events.drop_last().len() implies events.drop_last()[i]
            != EventModel::AcceptFailed by {
            assert(events.drop_last()[i] == events[i]);
        }
        stands_until_listener_lost(tunnel, state, port, events.drop_last());
    }
}

/// Without a password no tunnel comes to stand: whatever the events, setting
/// up never gets past connecting.
pub proof fn no_tunnel_without_password(tunnel: TunnelModel, events: Seq<EventModel>)
    requires
        tunnel.password is None,
    ensures
        state_after(tunnel, TunnelState::Connecting, events) == TunnelState::Connecting || state_after(
            tunnel,
            TunnelState::Connecting,
            events,
        ) == TunnelState::Failed,
    decreases events.len(),
{
    if events.len() > 0 {
        no_tunnel_without_password(tunnel, events.drop_last());
    }
}

/// A tunnel comes to stand only on a port that was assigned: if the events
/// lead from connecting to a standing tunnel, the port is not 0 and is one
/// that a `Bound` event reported.
pub proof fn stands_on_bound_port(tunnel: TunnelModel, events: Seq<EventModel>, port: u16)
    requires
        serving(state_after(tunnel, TunnelState::Connecting, events), port),
    ensures
        port != 0,
        exists|i: int| 0 <= i < events.len() && events[i] == EventModel::Bound(port),
    decreases events.len(),
{
    if events.len() > 0 {
        let before = state_after(tunnel, TunnelState::Connecting, events.drop_last());
        if serving(before, port) {
            stands_on_bound_port(tunnel, events.drop_last(), port);
            let i = choose|i: int|
                0 <= i < events.drop_last().len() && events.drop_last()[i] == EventModel::Bound(port);
            assert(events[i] == EventModel::Bound(port));
        } else {
            assert(events[events.len() - 1] == EventModel::Bound(port));
        }
    }
}

} // verus!
