//! Transports, roles and the errors a handler reports.

use vstd::prelude::*;
use vstd::string::StringExecFns;

verus! {

/// The transports a handler can be asked for.
#[derive(Clone, Copy, Debug, PartialEq, Eq, Structural)]
pub enum Transport {
    Tcp,
    Udp,
    WebSocket,
    Http,
    Http2,
    Http3,
}

/// The side of a session that a handler plays.
#[derive(Clone, Copy, Debug, PartialEq, Eq, Structural)]
pub enum Role {
    Server,
    Client,
}

/// What was asked of a transport that is not built.
#[derive(Clone, Copy, Debug, PartialEq, Eq, Structural)]
pub enum Operation {
    /// Making the handler.
    Create,
    /// Starting it.
    Start,
    /// Sending through it.
    Send,
}

/// Why a handler could not do what was asked.
#[derive(Debug)]
pub enum HandlerError {
    /// The listener could not be bound, or the peer not reached; the text
    /// says why.
    Setup(String),
    /// The transport is reserved but not built.
    NotImplemented(Transport, Role, Operation),
    /// A client was asked for without the address to connect to.
    MissingRemoteAddress,
    /// A handler was asked for without the channel to publish events on.
    MissingEventSender,
    /// The name is not that of a known transport.
    UnsupportedProtocol(String),
}

/// The mathematical content of a [`HandlerError`].
pub ghost enum ErrorView {
    Setup(Seq<char>),
    NotImplemented(Transport, Role, Operation),
    MissingRemoteAddress,
    MissingEventSender,
    UnsupportedProtocol(Seq<char>),
}

impl View for HandlerError {
    type V = ErrorView;

    open spec fn view(&self) -> ErrorView {
        match *self {
            HandlerError::Setup(reason) => ErrorView::Setup(reason@),
            HandlerError::NotImplemented(transport, role, operation) => ErrorView::NotImplemented(
                transport,
                role,
                operation,
            ),
            HandlerError::MissingRemoteAddress => ErrorView::MissingRemoteAddress,
            HandlerError::MissingEventSender => ErrorView::MissingEventSender,
            HandlerError::UnsupportedProtocol(name) => ErrorView::UnsupportedProtocol(name@),
        }
    }
}

/// The name under which a transport is shown.
pub open spec fn transport_label(transport: Transport) -> Seq<char> {
    match transport {
        Transport::Tcp => "TCP"@,
        Transport::Udp => "UDP"@,
        Transport::WebSocket => "WebSocket"@,
        Transport::Http => "HTTP"@,
        Transport::Http2 => "HTTP/2"@,
        Transport::Http3 => "HTTP/3"@,
    }
}

/// The word for a role inside a sentence.
pub open spec fn role_word(role: Role) -> Seq<char> {
    match role {
        Role::Server => "server"@,
        Role::Client => "client"@,
    }
}

/// How the sentence about an operation that is not built ends.
pub open spec fn operation_phrase(operation: Operation) -> Seq<char> {
    match operation {
        Operation::Create => " handler not yet implemented"@,
        Operation::Start => " handler not yet fully implemented"@,
        Operation::Send => " send not yet implemented"@,
    }
}

/// The text of an error.
pub open spec fn error_text(error: ErrorView) -> Seq<char> {
    match error {
        ErrorView::Setup(reason) => reason,
        ErrorView::NotImplemented(transport, role, operation) => transport_label(transport) + " "@
            + role_word(role) + operation_phrase(operation),
        ErrorView::MissingRemoteAddress => "TCP client requires remote address"@,
        ErrorView::MissingEventSender => "Server to UI sender is required"@,
        ErrorView::UnsupportedProtocol(name) => "Unsupported protocol: "@ + name,
    }
}

impl Transport {
    /// The name under which the transport is shown.
    pub fn label(self) -> (s: &'static str)
        ensures
            s@ == transport_label(self),
    {
        match self {
            Transport::Tcp => "TCP",
            Transport::Udp => "UDP",
            Transport::WebSocket => "WebSocket",
            Transport::Http => "HTTP",
            Transport::Http2 => "HTTP/2",
            Transport::Http3 => "HTTP/3",
        }
    }
}

impl Role {
    /// The word for the role inside a sentence.
    pub fn word(self) -> (s: &'static str)
        ensures
            s@ == role_word(self),
    {
        match self {
            Role::Server => "server",
            Role::Client => "client",
        }
    }
}

impl Operation {
    /// How the sentence about an operation that is not built ends.
    pub fn phrase(self) -> (s: &'static str)
        ensures
            s@ == operation_phrase(self),
    {
        match self {
            Operation::Create => " handler not yet implemented",
            Operation::Start => " handler not yet fully implemented",
            Operation::Send => " send not yet implemented",
        }
    }
}

impl HandlerError {
    /// The text of the error, for a report or a log line.
    pub fn message(&self) -> (s: String)
        ensures
            s@ == error_text(self@),
    {
        match self {
            HandlerError::Setup(reason) => reason.clone(),
            HandlerError::NotImplemented(transport, role, operation) => {
                let mut s = String::from_str(transport.label());
                s.append(" ");
                s.append(role.word());
                s.append(operation.phrase());
                assert(s@ =~= error_text(self@));
                s
            },
            HandlerError::MissingRemoteAddress => String::from_str(
                "TCP client requires remote address",
            ),
            HandlerError::MissingEventSender => String::from_str("Server to UI sender is required"),
            HandlerError::UnsupportedProtocol(name) => {
                let mut s = String::from_str("Unsupported protocol: ");
                s.append(name.as_str());
                s
            },
        }
    }
}

} // verus!
