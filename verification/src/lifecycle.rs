//! The life of a handler as a state machine: which states a server and a
//! client pass through, and which events move them.

use vstd::prelude::*;

verus! {

/// The states of a server.
#[derive(Clone, Copy, Debug, PartialEq, Eq, Structural)]
pub enum ServerState {
    /// Made, never started, or back from a start that failed.
    Created,
    /// Binding its listener.
    Starting,
    /// Bound, with its accept loop at work.
    Running,
    /// Told to stop; the accept loop has not left yet.
    Stopping,
    /// The accept loop has left.
    Stopped,
}

/// What can happen to a server.
#[derive(Clone, Copy, Debug, PartialEq, Eq, Structural)]
pub enum ServerEvent {
    /// `start` was called.
    StartRequested,
    /// The listener is bound and the accept loop spawned.
    Bound,
    /// The listener could not be bound.
    BindFailed,
    /// `stop` was called.
    StopRequested,
    /// The accept loop found its control channel signalled or closed.
    ControlClosed,
    /// The accept loop has left.
    AcceptLoopExited,
}

/// The state a server is in after `event`. An event that does not apply in
/// a state leaves it as it is.
pub open spec fn server_step(state: ServerState, event: ServerEvent) -> ServerState {
    match (state, event) {
        (_, ServerEvent::StartRequested) => ServerState::Starting,
        (ServerState::Starting, ServerEvent::Bound) => ServerState::Running,
        (ServerState::Starting, ServerEvent::BindFailed) => ServerState::Created,
        (ServerState::Running, ServerEvent::StopRequested) => ServerState::Stopping,
        (ServerState::Running, ServerEvent::ControlClosed) => ServerState::Stopping,
        (ServerState::Stopping, ServerEvent::AcceptLoopExited) => ServerState::Stopped,
        _ => state,
    }
}

impl ServerState {
    /// The state after `event`.
    pub fn on(self, event: ServerEvent) -> (next: ServerState)
        ensures
            next == server_step(self, event),
    {
        match (self, event) {
            (_, ServerEvent::StartRequested) => ServerState::Starting,
            (ServerState::Starting, ServerEvent::Bound) => ServerState::Running,
            (ServerState::Starting, ServerEvent::BindFailed) => ServerState::Created,
            (ServerState::Running, ServerEvent::StopRequested) => ServerState::Stopping,
            (ServerState::Running, ServerEvent::ControlClosed) => ServerState::Stopping,
            (ServerState::Stopping, ServerEvent::AcceptLoopExited) => ServerState::Stopped,
            _ => self,
        }
    }

    /// Whether the server is running.
    pub fn is_running(self) -> (r: bool)
        ensures
            r == (self == ServerState::Running),
    {
        match self {
            ServerState::Running => true,
            _ => false,
        }
    }
}

/// The states of a client.
#[derive(Clone, Copy, Debug, PartialEq, Eq, Structural)]
pub enum ClientState {
    /// Made, never started, or back from a start that failed.
    Created,
    /// Reaching for its peer.
    Connecting,
    /// Connected, with its reader and writer at work.
    Connected,
    /// Told to stop; the socket is being shut down.
    Disconnecting,
    /// The socket is shut down, or the peer has closed.
    Disconnected,
}

/// What can happen to a client.
#[derive(Clone, Copy, Debug, PartialEq, Eq, Structural)]
pub enum ClientEvent {
    /// `start` was called.
    StartRequested,
    /// The peer was reached and reader and writer spawned.
    Connected,
    /// The peer could not be reached.
    ConnectFailed,
    /// `stop` was called.
    StopRequested,
    /// The socket is shut down, or the reader has left.
    SocketClosed,
}

/// The state a client is in after `event`. An event that does not apply in
/// a state leaves it as it is.
pub open spec fn client_step(state: ClientState, event: ClientEvent) -> ClientState {
    match (state, event) {
        (_, ClientEvent::StartRequested) => ClientState::Connecting,
        (ClientState::Connecting, ClientEvent::Connected) => ClientState::Connected,
        (ClientState::Connecting, ClientEvent::ConnectFailed) => ClientState::Created,
        (ClientState::Connected, ClientEvent::StopRequested) => ClientState::Disconnecting,
        (ClientState::Connected, ClientEvent::SocketClosed) => ClientState::Disconnected,
        (ClientState::Disconnecting, ClientEvent::SocketClosed) => ClientState::Disconnected,
        _ => state,
    }
}

impl ClientState {
    /// The state after `event`.
    pub fn on(self, event: ClientEvent) -> (next: ClientState)
        ensures
            next == client_step(self, event),
    {
        match (self, event) {
            (_, ClientEvent::StartRequested) => ClientState::Connecting,
            (ClientState::Connecting, ClientEvent::Connected) => ClientState::Connected,
            (ClientState::Connecting, ClientEvent::ConnectFailed) => ClientState::Created,
            (ClientState::Connected, ClientEvent::StopRequested) => ClientState::Disconnecting,
            (ClientState::Connected, ClientEvent::SocketClosed) => ClientState::Disconnected,
            (ClientState::Disconnecting, ClientEvent::SocketClosed) => ClientState::Disconnected,
            _ => self,
        }
    }

    /// Whether the client is running.
    pub fn is_running(self) -> (r: bool)
        ensures
            r == (self == ClientState::Connected),
    {
        match self {
            ClientState::Connected => true,
            _ => false,
        }
    }
}

/// A server comes to run only by binding: whatever the event, it is running
/// afterwards only if it was running before or the event is a successful bind
/// while it was starting.
pub proof fn lemma_server_runs_only_by_start(state: ServerState, event: ServerEvent)
    ensures
        server_step(state, event) == ServerState::Running ==> state == ServerState::Running || (
        state == ServerState::Starting && event == ServerEvent::Bound),
{
}

/// A running server leaves that state only by a stop, by its control channel
/// closing, or by a new start.
pub proof fn lemma_server_stops_only_by_stop(state: ServerState, event: ServerEvent)
    ensures
        state == ServerState::Running && server_step(state, event) != ServerState::Running ==> (
        event == ServerEvent::StopRequested || event == ServerEvent::ControlClosed || event
            == ServerEvent::StartRequested),
{
}

/// Stopping twice is stopping once: a second stop request changes nothing,
/// and a stop request on a server that is not running changes nothing.
pub proof fn lemma_server_stop_idempotent(state: ServerState)
    ensures
        server_step(server_step(state, ServerEvent::StopRequested), ServerEvent::StopRequested)
            == server_step(state, ServerEvent::StopRequested),
        state != ServerState::Running ==> server_step(state, ServerEvent::StopRequested) == state,
{
}

/// A client comes to run only by connecting: whatever the event, it is
/// connected afterwards only if it was connected before or the event is a
/// successful connect while it was connecting.
pub proof fn lemma_client_runs_only_by_start(state: ClientState, event: ClientEvent)
    ensures
        client_step(state, event) == ClientState::Connected ==> state == ClientState::Connected || (
        state == ClientState::Connecting && event == ClientEvent::Connected),
{
}

/// A connected client leaves that state only by a stop, by its socket
/// closing, or by a new start.
pub proof fn lemma_client_stops_only_by_stop(state: ClientState, event: ClientEvent)
    ensures
        state == ClientState::Connected && client_step(state, event) != ClientState::Connected
            ==> (event == ClientEvent::StopRequested || event == ClientEvent::SocketClosed || event
            == ClientEvent::StartRequested),
{
}

/// Stopping twice is stopping once: a second stop request changes nothing,
/// and a stop request on a client that is not connected changes nothing.
pub proof fn lemma_client_stop_idempotent(state: ClientState)
    ensures
        client_step(client_step(state, ClientEvent::StopRequested), ClientEvent::StopRequested)
            == client_step(state, ClientEvent::StopRequested),
        state != ClientState::Connected ==> client_step(state, ClientEvent::StopRequested)
            == state,
{
}

} // verus!
