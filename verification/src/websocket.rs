//! The handlers reserved for WebSocket. The transport is not built: a handler
//! can be made and asked about, but it never runs, has no connections, and
//! fails every start and every send.

use crate::error::{HandlerError, Operation, Role, Transport};
use crate::handler::{ProtocolHandler, ReservedView, SetupOutcome};
use crate::message::{ConnectionInfo, ConnectionInfoView, Message, MessageType, SocketAddress};
use crate::registry::Delivery;
use tokio::sync::mpsc::Sender;
use vstd::prelude::*;

verus! {

/// The handler reserved for a WebSocket server.
pub struct WebSocketServerHandler {
    local_addr: SocketAddress,
    ui_tx: Option<Sender<Message>>,
}

impl View for WebSocketServerHandler {
    type V = ReservedView;

    closed spec fn view(&self) -> ReservedView {
        ReservedView { local_addr: Some(self.local_addr), remote_addr: None, event_tx: self.ui_tx }
    }
}

impl WebSocketServerHandler {
    /// A handler without a channel for its events.
    pub fn new(local_addr: SocketAddress) -> (handler: Self)
        ensures
            handler@ == (ReservedView { local_addr: Some(local_addr), remote_addr: None, event_tx: None }),
    {
        WebSocketServerHandler { local_addr, ui_tx: None }
    }
}

impl ProtocolHandler for WebSocketServerHandler {
    open spec fn valid(&self) -> bool {
        true
    }

    open spec fn running(&self) -> bool {
        false
    }

    open spec fn connections(&self) -> Seq<ConnectionInfoView> {
        Seq::empty()
    }

    open spec fn accepts_requests(&self) -> bool {
        false
    }

    /// Fails: the transport is not built. The handler is left as it is.
    fn start(&mut self, setup: SetupOutcome) -> (r: Result<Option<Message>, HandlerError>)
        ensures
            *final(self) == *old(self),
            r == Err::<Option<Message>, HandlerError>(
                HandlerError::NotImplemented(Transport::WebSocket, Role::Server, Operation::Start),
            ),
    {
        Err(HandlerError::NotImplemented(Transport::WebSocket, Role::Server, Operation::Start))
    }

    /// Does nothing: the handler never runs.
    fn stop(&mut self) -> (r: Result<(), HandlerError>)
        ensures
            *final(self) == *old(self),
    {
        Ok(())
    }

    /// Fails: the transport is not built. Nothing is sent.
    fn send_message(&mut self, message: MessageType, target: Option<String>) -> (r: Result<
        Vec<Delivery>,
        HandlerError,
    >)
        ensures
            *final(self) == *old(self),
            r == Err::<Vec<Delivery>, HandlerError>(
                HandlerError::NotImplemented(Transport::WebSocket, Role::Server, Operation::Send),
            ),
    {
        Err(HandlerError::NotImplemented(Transport::WebSocket, Role::Server, Operation::Send))
    }

    fn get_ui_to_server_sender(&self) -> (r: Option<Sender<Message>>) {
        None
    }

    fn set_server_to_ui_sender(&mut self, sender: Sender<Message>)
        ensures
            final(self)@ == (ReservedView { event_tx: Some(sender), ..old(self)@ }),
    {
        self.ui_tx = Some(sender);
    }

    fn is_running(&self) -> (r: bool) {
        false
    }

    fn get_connections(&self) -> (list: Vec<ConnectionInfo>)
        ensures
            list@.len() == 0,
    {
        let list: Vec<ConnectionInfo> = Vec::new();
        assert(crate::handler::snapshot_views(list@) =~= Seq::<ConnectionInfoView>::empty());
        list
    }

    fn protocol_name(&self) -> (name: &'static str)
        ensures
            name@ == "WebSocket Server"@,
    {
        "WebSocket Server"
    }
}

/// The handler reserved for a WebSocket client.
pub struct WebSocketClientHandler {
    local_addr: SocketAddress,
    remote_addr: SocketAddress,
    ui_tx: Option<Sender<Message>>,
}

impl View for WebSocketClientHandler {
    type V = ReservedView;

    closed spec fn view(&self) -> ReservedView {
        ReservedView { local_addr: Some(self.local_addr), remote_addr: Some(self.remote_addr), event_tx: self.ui_tx }
    }
}

impl WebSocketClientHandler {
    /// A handler without a channel for its events.
    pub fn new(local_addr: SocketAddress, remote_addr: SocketAddress) -> (handler: Self)
        ensures
            handler@ == (ReservedView { local_addr: Some(local_addr), remote_addr: Some(remote_addr), event_tx: None }),
    {
        WebSocketClientHandler { local_addr, remote_addr, ui_tx: None }
    }
}

impl ProtocolHandler for WebSocketClientHandler {
    open spec fn valid(&self) -> bool {
        true
    }

    open spec fn running(&self) -> bool {
        false
    }

    open spec fn connections(&self) -> Seq<ConnectionInfoView> {
        Seq::empty()
    }

    open spec fn accepts_requests(&self) -> bool {
        false
    }

    /// Fails: the transport is not built. The handler is left as it is.
    fn start(&mut self, setup: SetupOutcome) -> (r: Result<Option<Message>, HandlerError>)
        ensures
            *final(self) == *old(self),
            r == Err::<Option<Message>, HandlerError>(
                HandlerError::NotImplemented(Transport::WebSocket, Role::Client, Operation::Start),
            ),
    {
        Err(HandlerError::NotImplemented(Transport::WebSocket, Role::Client, Operation::Start))
    }

    /// Does nothing: the handler never runs.
    fn stop(&mut self) -> (r: Result<(), HandlerError>)
        ensures
            *final(self) == *old(self),
    {
        Ok(())
    }

    /// Fails: the transport is not built. Nothing is sent.
    fn send_message(&mut self, message: MessageType, target: Option<String>) -> (r: Result<
        Vec<Delivery>,
        HandlerError,
    >)
        ensures
            *final(self) == *old(self),
            r == Err::<Vec<Delivery>, HandlerError>(
                HandlerError::NotImplemented(Transport::WebSocket, Role::Client, Operation::Send),
            ),
    {
        Err(HandlerError::NotImplemented(Transport::WebSocket, Role::Client, Operation::Send))
    }

    fn get_ui_to_server_sender(&self) -> (r: Option<Sender<Message>>) {
        None
    }

    fn set_server_to_ui_sender(&mut self, sender: Sender<Message>)
        ensures
            final(self)@ == (ReservedView { event_tx: Some(sender), ..old(self)@ }),
    {
        self.ui_tx = Some(sender);
    }

    fn is_running(&self) -> (r: bool) {
        false
    }

    fn get_connections(&self) -> (list: Vec<ConnectionInfo>)
        ensures
            list@.len() == 0,
    {
        let list: Vec<ConnectionInfo> = Vec::new();
        assert(crate::handler::snapshot_views(list@) =~= Seq::<ConnectionInfoView>::empty());
        list
    }

    fn protocol_name(&self) -> (name: &'static str)
        ensures
            name@ == "WebSocket Client"@,
    {
        "WebSocket Client"
    }
}

} // verus!
