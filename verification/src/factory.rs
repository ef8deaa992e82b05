//! The one place where a handler is chosen: from the name of a transport and
//! a role to the handler that serves them, started.

use crate::client::TcpClientHandler;
use crate::error::{ErrorView, HandlerError, Operation, Role, Transport};
use crate::handler::{notice_view, ProtocolHandler, SetupOutcome};
use crate::lifecycle::{ClientState, ServerState};
use crate::message::{ConnectionInfo, Message, MessageContent, SocketAddress};
use crate::server::TcpServerHandler;
use tokio::sync::mpsc::Sender;
use vstd::prelude::*;
use vstd::string::StringExecFns;

verus! {

/// The text that `str::to_lowercase` makes of `s`.
pub uninterp spec fn lowercase_of(s: Seq<char>) -> Seq<char>;

/// The lowercase form of `s`, as `str::to_lowercase` gives it by the rules of
/// Unicode.
#[verifier::external_body]
pub(crate) fn to_lowercase(s: &str) -> (lowered: String)
    ensures
        lowered@ == lowercase_of(s@),
{
    s.to_lowercase()
}

/// The transport that a name in lowercase stands for.
pub open spec fn transport_named(lowered: Seq<char>) -> Option<Transport> {
    if lowered == "tcp"@ {
        Some(Transport::Tcp)
    } else if lowered == "udp"@ {
        Some(Transport::Udp)
    } else if lowered == "websocket"@ {
        Some(Transport::WebSocket)
    } else if lowered == "http"@ {
        Some(Transport::Http)
    } else if lowered == "http2"@ {
        Some(Transport::Http2)
    } else if lowered == "http3"@ {
        Some(Transport::Http3)
    } else {
        None
    }
}

/// The role that goes with the flag `is_server`.
pub open spec fn role_of(is_server: bool) -> Role {
    if is_server {
        Role::Server
    } else {
        Role::Client
    }
}

/// Which handler a request is served by: the role of the TCP handler to
/// make, or the error that refuses the request. `lowered` is the name of the
/// transport in lowercase, `protocol` the name as it was given.
pub open spec fn selection(
    lowered: Seq<char>,
    protocol: Seq<char>,
    is_server: bool,
    has_sender: bool,
    has_remote: bool,
) -> Result<Role, ErrorView> {
    match transport_named(lowered) {
        Some(Transport::Tcp) => if is_server {
            if has_sender {
                Ok(Role::Server)
            } else {
                Err(ErrorView::MissingEventSender)
            }
        } else if !has_remote {
            Err(ErrorView::MissingRemoteAddress)
        } else if !has_sender {
            Err(ErrorView::MissingEventSender)
        } else {
            Ok(Role::Client)
        },
        Some(transport) => Err(
            ErrorView::NotImplemented(transport, role_of(is_server), Operation::Create),
        ),
        None => Err(ErrorView::UnsupportedProtocol(protocol)),
    }
}

/// Reads the name of a transport, given in lowercase.
pub fn parse_transport(lowered: &str) -> (r: Option<Transport>)
    ensures
        r == transport_named(lowered@),
{
    let name = String::from_str(lowered);
    if name == String::from_str("tcp") {
        Some(Transport::Tcp)
    } else if name == String::from_str("udp") {
        Some(Transport::Udp)
    } else if name == String::from_str("websocket") {
        Some(Transport::WebSocket)
    } else if name == String::from_str("http") {
        Some(Transport::Http)
    } else if name == String::from_str("http2") {
        Some(Transport::Http2)
    } else if name == String::from_str("http3") {
        Some(Transport::Http3)
    } else {
        None
    }
}

/// Chooses the handler for a request whose transport name is already in
/// lowercase: the role of the TCP handler to make, or the error that refuses
/// the request.
pub fn select_handler(
    lowered: &str,
    protocol: &str,
    is_server: bool,
    has_sender: bool,
    has_remote: bool,
) -> (r: Result<Role, HandlerError>)
    ensures
        match r {
            Ok(role) => selection(lowered@, protocol@, is_server, has_sender, has_remote) == Ok::<
                Role,
                ErrorView,
            >(role),
            Err(error) => selection(lowered@, protocol@, is_server, has_sender, has_remote)
                == Err::<Role, ErrorView>(error@),
        },
{
    match parse_transport(lowered) {
        Some(Transport::Tcp) => {
            if is_server {
                if has_sender {
                    Ok(Role::Server)
                } else {
                    Err(HandlerError::MissingEventSender)
                }
            } else if !has_remote {
                Err(HandlerError::MissingRemoteAddress)
            } else if !has_sender {
                Err(HandlerError::MissingEventSender)
            } else {
                Ok(Role::Client)
            }
        },
        Some(transport) => {
            let role = if is_server {
                Role::Server
            } else {
                Role::Client
            };
            Err(HandlerError::NotImplemented(transport, role, Operation::Create))
        },
        None => Err(HandlerError::UnsupportedProtocol(String::from_str(protocol))),
    }
}

/// Chooses the handler for a request, so that its driver knows whether to
/// bind a listener or to connect to a peer before the handler is made.
pub fn plan_handler(protocol: &str, is_server: bool, has_sender: bool, has_remote: bool) -> (r:
    Result<Role, HandlerError>)
    ensures
        match r {
            Ok(role) => selection(
                lowercase_of(protocol@),
                protocol@,
                is_server,
                has_sender,
                has_remote,
            ) == Ok::<Role, ErrorView>(role),
            Err(error) => selection(
                lowercase_of(protocol@),
                protocol@,
                is_server,
                has_sender,
                has_remote,
            ) == Err::<Role, ErrorView>(error@),
        },
{
    let lowered = to_lowercase(protocol);
    select_handler(lowered.as_str(), protocol, is_server, has_sender, has_remote)
}

/// A handler that the factory made.
pub enum Handler {
    /// The handler of a TCP server.
    TcpServer(TcpServerHandler),
    /// The handler of a TCP client.
    TcpClient(TcpClientHandler),
}

/// What the factory hands back: the handler, running, and the event to
/// publish for its start, if there is one.
pub struct Started {
    /// The handler.
    pub handler: Handler,
    /// The event to publish.
    pub event: Option<Message>,
}

/// Whether `started` is what the factory owes for a request that selects the
/// TCP handler of `role`: that handler, valid and running, without
/// connections of its own making, publishing on `sender`, made for the
/// addresses given, and with the opened event where it is a client.
pub open spec fn made_for(
    started: Started,
    role: Role,
    sender: Sender<Message>,
    local_addr: SocketAddress,
    remote: Option<ConnectionInfo>,
) -> bool {
    match (role, started.handler) {
        (Role::Server, Handler::TcpServer(server)) => {
            &&& server.valid()
            &&& server@.state == ServerState::Running
            &&& server@.local_addr == local_addr
            &&& server@.connections.len() == 0
            &&& server@.offers.len() == 0
            &&& server@.event_tx == Some(sender)
            &&& server@.request_tx is Some
            &&& server@.control_tx is Some
            &&& started.event is None
        },
        (Role::Client, Handler::TcpClient(client)) => {
            &&& remote is Some
            &&& client@.state == ClientState::Connected
            &&& client@.local_addr == local_addr
            &&& client@.remote == remote.unwrap()@
            &&& client@.event_tx == Some(sender)
            &&& client@.request_tx is Some
            &&& client@.queued.len() == 0
            &&& started.event is Some
            &&& started.event.unwrap()@ == notice_view(
                MessageContent::ClientConnected,
                remote.unwrap()@,
            )
        },
        _ => false,
    }
}

/// Makes the handler for a transport and a role, installs the event channel,
/// and starts it with the outcome of the bind or connect that its driver
/// made for it.
///
/// The call fails where the transport is unknown or not built, where a
/// client is asked for without a peer, where the event channel is missing,
/// and where the setup failed. Otherwise the handler that comes back is
/// running.
pub fn create_protocol_handler(
    protocol: &str,
    is_server: bool,
    server_to_ui_tx: Option<Sender<Message>>,
    local_addr: SocketAddress,
    remote: Option<ConnectionInfo>,
    setup: SetupOutcome,
) -> (r: Result<Started, HandlerError>)
    ensures
        match selection(
            lowercase_of(protocol@),
            protocol@,
            is_server,
            server_to_ui_tx is Some,
            remote is Some,
        ) {
            Ok(role) => match setup {
                SetupOutcome::Ready => r matches Ok(started) && made_for(
                    started,
                    role,
                    server_to_ui_tx.unwrap(),
                    local_addr,
                    remote,
                ),
                SetupOutcome::Failed(reason) => r matches Err(e) && e@ == ErrorView::Setup(reason@),
            },
            Err(error) => r matches Err(e) && e@ == error,
        },
{
    let role = match plan_handler(protocol, is_server, server_to_ui_tx.is_some(), remote.is_some()) {
        Ok(role) => role,
        Err(error) => {
            return Err(error);
        },
    };
    let sender = match server_to_ui_tx {
        Some(sender) => sender,
        None => {
            return Err(HandlerError::MissingEventSender);
        },
    };
    match role {
        Role::Server => {
            let mut server = TcpServerHandler::new(local_addr);
            server.set_server_to_ui_sender(sender);
            match server.start(setup) {
                Ok(event) => Ok(Started { handler: Handler::TcpServer(server), event }),
                Err(error) => Err(error),
            }
        },
        Role::Client => {
            let peer = match remote {
                Some(peer) => peer,
                None => {
                    return Err(HandlerError::MissingRemoteAddress);
                },
            };
            let mut client = TcpClientHandler::new(local_addr, peer);
            client.set_server_to_ui_sender(sender);
            match client.start(setup) {
                Ok(event) => Ok(Started { handler: Handler::TcpClient(client), event }),
                Err(error) => Err(error),
            }
        },
    }
}

} // verus!
